//! The two-phase speech synthesis service: how its requests are addressed and
//! how its answers are judged. Sending the requests is left to the caller.

use vstd::prelude::*;
use vstd::string::StringExecFns;
use crate::text::{push_signed, signed_decimal};

verus! {

/// A parsed JSON value of `serde_json`, carried through without being read.
#[verifier::external_type_specification]
#[verifier::external_body]
pub struct ExJsonValue(serde_json::Value);

/// The error of `serde_json`, carried through without being read.
#[verifier::external_type_specification]
#[verifier::external_body]
pub struct ExJsonError(serde_json::Error);

/// What `serde_json::from_slice` reads from `body`: the JSON value, or
/// nothing where it reports an error.
pub uninterp spec fn json_value(body: Seq<u8>) -> Option<serde_json::Value>;

/// What `serde_json::to_vec` writes for `document`: its JSON text, or nothing
/// where it reports an error.
pub uninterp spec fn json_encoding(document: serde_json::Value) -> Option<Seq<u8>>;

/// Calls `serde_json::from_slice` for a `serde_json::Value`. The contract
/// claims that the outcome depends on the bytes alone, and gives it the name
/// `json_value`; it says nothing of which bytes parse or to what.
#[verifier::external_body]
fn parse_json(body: &[u8]) -> (r: Result<serde_json::Value, serde_json::Error>)
    ensures
        match r {
            Ok(value) => json_value(body@) == Some(value),
            Err(_) => json_value(body@) is None,
        },
{
    serde_json::from_slice(body)
}

/// Calls `serde_json::to_vec` on a `serde_json::Value`. The contract claims
/// that the outcome depends on the value alone, and gives it the name
/// `json_encoding`; it says nothing of the text or of when there is one.
#[verifier::external_body]
fn encode_json(document: &serde_json::Value) -> (r: Result<Vec<u8>, serde_json::Error>)
    ensures
        match r {
            Ok(text) => json_encoding(*document) == Some(text@),
            Err(_) => json_encoding(*document) is None,
        },
{
    serde_json::to_vec(document)
}

/// Why a synthesis did not yield audio.
#[derive(Clone, Copy, Debug, PartialEq, Eq, Structural)]
pub enum SynthesisError {
    /// The request never got an answer.
    Transport,
    /// The service answered with a status outside 200..=299.
    Status(u16),
    /// The answer's body, or the document to send, is not usable JSON.
    Malformed,
    /// A query document was offered for a speaker it was not made for.
    SpeakerMismatch,
}

/// What came of one HTTP request.
pub enum HttpOutcome {
    /// Connection refused, timed out or broken.
    Failed,
    /// The service answered.
    Answered { status: u16, body: Vec<u8> },
}

/// The answer of the query phase, bound to the speaker it was made for.
pub struct QueryDocument {
    pub speaker: i32,
    pub value: serde_json::Value,
}

/// A request of the render phase: where to post and what.
pub struct SynthesisCall {
    pub url: String,
    pub body: Vec<u8>,
}

/// Whether an HTTP status reports success.
pub open spec fn is_success(status: u16) -> bool {
    200 <= status <= 299
}

/// The address of the query phase for `text` spoken by `speaker`.
pub open spec fn audio_query_url(base: Seq<char>, speaker: int, text: Seq<char>) -> Seq<char> {
    base + "/audio_query?speaker="@ + signed_decimal(speaker) + "&text="@ + text
}

/// The address of the render phase for `speaker`.
pub open spec fn synthesis_url(base: Seq<char>, speaker: int) -> Seq<char> {
    base + "/synthesis?speaker="@ + signed_decimal(speaker)
}

/// The verdict on the answer of the query phase: the JSON value of its body,
/// or why there is none.
pub open spec fn query_verdict(outcome: HttpOutcome) -> Result<serde_json::Value, SynthesisError> {
    match outcome {
        HttpOutcome::Failed => Err(SynthesisError::Transport),
        HttpOutcome::Answered { status, body } => if !is_success(status) {
            Err(SynthesisError::Status(status))
        } else {
            match json_value(body@) {
                Some(value) => Ok(value),
                None => Err(SynthesisError::Malformed),
            }
        },
    }
}

/// The body of the render request that follows the answer of the query
/// phase: the encoding of the answer's JSON value, or why there is none.
pub open spec fn render_body(outcome: HttpOutcome) -> Result<Seq<u8>, SynthesisError> {
    match query_verdict(outcome) {
        Ok(value) => match json_encoding(value) {
            Some(text) => Ok(text),
            None => Err(SynthesisError::Malformed),
        },
        Err(e) => Err(e),
    }
}

/// The verdict on the answer of the render phase: the audio bytes, or why not.
pub open spec fn render_verdict(outcome: HttpOutcome) -> Result<Seq<u8>, SynthesisError> {
    match outcome {
        HttpOutcome::Failed => Err(SynthesisError::Transport),
        HttpOutcome::Answered { status, body } => if !is_success(status) {
            Err(SynthesisError::Status(status))
        } else {
            Ok(body@)
        },
    }
}

/// The client of the synthesis service. It holds the service's base address
/// and no other state.
pub struct VoiceVox {
    url: String,
}

impl VoiceVox {
    /// The base address of the service.
    pub closed spec fn base(&self) -> Seq<char> {
        self.url@
    }

    /// A client of the service at `url`.
    pub fn new(url: String) -> (client: Self)
        ensures
            client.base() == url@,
    {
        VoiceVox { url }
    }

    /// The base address of the service.
    pub fn url(&self) -> (base: &str)
        ensures
            base@ == self.base(),
    {
        self.url.as_str()
    }

    /// The address to post to for the query phase.
    pub fn get_audio_query(&self, text: &str, speaker: i32) -> (address: String)
        ensures
            address@ == audio_query_url(self.base(), speaker as int, text@),
    {
        let mut address = String::new();
        address.append(self.url.as_str());
        address.append("/audio_query?speaker=");
        push_signed(&mut address, speaker);
        address.append("&text=");
        address.append(text);
        assert(address@ =~= audio_query_url(self.base(), speaker as int, text@));
        address
    }

    /// The address to post to for the render phase.
    pub fn synthesis_address(&self, speaker: i32) -> (address: String)
        ensures
            address@ == synthesis_url(self.base(), speaker as int),
    {
        let mut address = String::new();
        address.append(self.url.as_str());
        address.append("/synthesis?speaker=");
        push_signed(&mut address, speaker);
        assert(address@ =~= synthesis_url(self.base(), speaker as int));
        address
    }

    /// The request of the render phase for `payload`. A document made for
    /// another speaker is refused. Otherwise the request goes to the render
    /// address of `speaker` and carries the document's encoding; it fails as
    /// malformed where the document has none.
    pub fn synthe(&self, speaker: i32, payload: &QueryDocument) -> (r: Result<
        SynthesisCall,
        SynthesisError,
    >)
        ensures
            speaker != payload.speaker ==> r == Err::<SynthesisCall, SynthesisError>(
                SynthesisError::SpeakerMismatch,
            ),
            speaker == payload.speaker ==> match json_encoding(payload.value) {
                Some(text) => r is Ok && r->Ok_0.url@ == synthesis_url(self.base(), speaker as int)
                    && r->Ok_0.body@ == text,
                None => r == Err::<SynthesisCall, SynthesisError>(SynthesisError::Malformed),
            },
    {
        if speaker != payload.speaker {
            return Err(SynthesisError::SpeakerMismatch);
        }
        let address = self.synthesis_address(speaker);
        render_call(address, encode_json(&payload.value))
    }
}

/// Builds the render request from an address and the outcome of encoding the
/// query document.
pub fn render_call(address: String, encoded: Result<Vec<u8>, serde_json::Error>) -> (r: Result<
    SynthesisCall,
    SynthesisError,
>)
    ensures
        match encoded {
            Ok(body) => r == Ok::<SynthesisCall, SynthesisError>(
                (SynthesisCall { url: address, body }),
            ),
            Err(_) => r == Err::<SynthesisCall, SynthesisError>(SynthesisError::Malformed),
        },
{
    match encoded {
        Ok(body) => Ok(SynthesisCall { url: address, body }),
        Err(_) => Err(SynthesisError::Malformed),
    }
}

/// Judges the answer of the query phase made for `speaker`: a transport
/// failure, a status that is no success and a body that is no JSON are each
/// reported as such, in that order; every other answer yields the document.
pub fn read_audio_query(speaker: i32, outcome: &HttpOutcome) -> (r: Result<
    QueryDocument,
    SynthesisError,
>)
    ensures
        match query_verdict(*outcome) {
            Ok(value) => r == Ok::<QueryDocument, SynthesisError>(
                (QueryDocument { speaker, value }),
            ),
            Err(e) => r == Err::<QueryDocument, SynthesisError>(e),
        },
{
    match outcome {
        HttpOutcome::Failed => Err(SynthesisError::Transport),
        HttpOutcome::Answered { status, body } => {
            if *status < 200 || *status > 299 {
                Err(SynthesisError::Status(*status))
            } else {
                match parse_json(body.as_slice()) {
                    Ok(value) => Ok(QueryDocument { speaker, value }),
                    Err(_) => Err(SynthesisError::Malformed),
                }
            }
        },
    }
}

/// Judges the answer of the render phase: a transport failure and a status
/// that is no success are reported as such; every other answer yields its
/// body, the rendered audio.
pub fn read_synthesis(outcome: HttpOutcome) -> (r: Result<Vec<u8>, SynthesisError>)
    ensures
        match render_verdict(outcome) {
            Ok(audio) => r is Ok && r->Ok_0@ == audio,
            Err(e) => r == Err::<Vec<u8>, SynthesisError>(e),
        },
{
    match outcome {
        HttpOutcome::Failed => Err(SynthesisError::Transport),
        HttpOutcome::Answered { status, body } => {
            if status < 200 || status > 299 {
                Err(SynthesisError::Status(status))
            } else {
                Ok(body)
            }
        },
    }
}

} // verus!
