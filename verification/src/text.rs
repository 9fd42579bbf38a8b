//! Decimal rendering and the few string operations the relay needs.

use vstd::prelude::*;
use vstd::string::StringExecFns;

verus! {

/// The character that stands for the decimal digit `d`.
pub open spec fn digit_char(d: nat) -> char {
    if d == 0 {
        '0'
    } else if d == 1 {
        '1'
    } else if d == 2 {
        '2'
    } else if d == 3 {
        '3'
    } else if d == 4 {
        '4'
    } else if d == 5 {
        '5'
    } else if d == 6 {
        '6'
    } else if d == 7 {
        '7'
    } else if d == 8 {
        '8'
    } else {
        '9'
    }
}

/// The decimal numeral of `n`, most significant digit first, without padding.
pub open spec fn decimal(n: nat) -> Seq<char>
    decreases n,
{
    if n < 10 {
        seq![digit_char(n)]
    } else {
        decimal(n / 10).push(digit_char(n % 10))
    }
}

/// The decimal numeral of `i`, with a leading minus sign when negative.
pub open spec fn signed_decimal(i: int) -> Seq<char> {
    if i < 0 {
        seq!['-'] + decimal((-i) as nat)
    } else {
        decimal(i as nat)
    }
}

/// The location under which the audio of message `id` is kept on disk.
pub open spec fn audio_path_of(id: nat) -> Seq<char> {
    "./audio/"@ + decimal(id) + ".wav"@
}

fn digit(d: u64) -> (numeral: &'static str)
    requires
        d < 10,
    ensures
        numeral@ == seq![digit_char(d as nat)],
{
    proof {
        reveal_strlit("0");
        reveal_strlit("1");
        reveal_strlit("2");
        reveal_strlit("3");
        reveal_strlit("4");
        reveal_strlit("5");
        reveal_strlit("6");
        reveal_strlit("7");
        reveal_strlit("8");
        reveal_strlit("9");
    }
    let numeral = if d == 0 {
        "0"
    } else if d == 1 {
        "1"
    } else if d == 2 {
        "2"
    } else if d == 3 {
        "3"
    } else if d == 4 {
        "4"
    } else if d == 5 {
        "5"
    } else if d == 6 {
        "6"
    } else if d == 7 {
        "7"
    } else if d == 8 {
        "8"
    } else {
        "9"
    };
    assert(numeral@ =~= seq![digit_char(d as nat)]);
    numeral
}

/// Appends the decimal numeral of `n` to `out`.
pub fn push_decimal(out: &mut String, n: u64)
    ensures
        final(out)@ == old(out)@ + decimal(n as nat),
    decreases n,
{
    if n >= 10 {
        push_decimal(out, n / 10);
    }
    out.append(digit(n % 10));
    assert(out@ =~= old(out)@ + decimal(n as nat));
}

/// Appends the decimal numeral of `i` to `out`, with its sign.
pub fn push_signed(out: &mut String, i: i32)
    ensures
        final(out)@ == old(out)@ + signed_decimal(i as int),
{
    if i < 0 {
        proof {
            reveal_strlit("-");
        }
        out.append("-");
        let magnitude: u64 = (-(i as i64)) as u64;
        push_decimal(out, magnitude);
        assert(out@ =~= old(out)@ + signed_decimal(i as int));
    } else {
        push_decimal(out, i as u64);
    }
}

/// The location under which the audio of message `id` is kept on disk. The
/// numeral of the identifier makes the name differ from message to message.
pub fn audio_path(id: u64) -> (path: String)
    ensures
        path@ == audio_path_of(id as nat),
{
    let mut path = String::new();
    path.append("./audio/");
    push_decimal(&mut path, id);
    path.append(".wav");
    assert(path@ =~= audio_path_of(id as nat));
    path
}

/// Every numeral has at least one digit.
pub proof fn decimal_is_nonempty(n: nat)
    ensures
        decimal(n).len() >= 1,
    decreases n,
{
    if n >= 10 {
        decimal_is_nonempty(n / 10);
    }
}

/// Different numbers have different numerals.
pub proof fn decimal_is_injective(a: nat, b: nat)
    requires
        decimal(a) == decimal(b),
    ensures
        a == b,
    decreases a,
{
    if a < 10 && b < 10 {
        assert(decimal(a)[0] == digit_char(a));
        assert(decimal(b)[0] == digit_char(b));
    } else if a < 10 {
        decimal_is_nonempty(b / 10);
        assert(decimal(a).len() == 1);
        assert(decimal(b).len() >= 2);
    } else if b < 10 {
        decimal_is_nonempty(a / 10);
        assert(decimal(b).len() == 1);
        assert(decimal(a).len() >= 2);
    } else {
        let front_a = decimal(a / 10);
        let front_b = decimal(b / 10);
        assert(front_a.push(digit_char(a % 10)).drop_last() =~= front_a);
        assert(front_b.push(digit_char(b % 10)).drop_last() =~= front_b);
        assert(front_a.push(digit_char(a % 10)).last() == digit_char(a % 10));
        assert(front_b.push(digit_char(b % 10)).last() == digit_char(b % 10));
        decimal_is_injective(a / 10, b / 10);
        assert(a % 10 == b % 10);
    }
}

/// Different messages have their audio under different names.
pub proof fn audio_paths_differ(a: nat, b: nat)
    requires
        a != b,
    ensures
        audio_path_of(a) != audio_path_of(b),
{
    reveal_strlit("./audio/");
    reveal_strlit(".wav");
    if audio_path_of(a) == audio_path_of(b) {
        let path = audio_path_of(a);
        assert(decimal(a) =~= path.subrange(8, path.len() - 4));
        assert(decimal(b) =~= audio_path_of(b).subrange(8, audio_path_of(b).len() - 4));
        decimal_is_injective(a, b);
    }
}

} // verus!
