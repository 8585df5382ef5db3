//! The outcome of a synthesis and the HTTP reply it becomes.
use vstd::prelude::*;

verus! {

/// Status of a successful reply.
pub const STATUS_OK: u16 = 200;

/// Status of every failed reply.
pub const STATUS_INTERNAL_SERVER_ERROR: u16 = 500;

/// Why a synthesis produced no audio, with the underlying error text.
#[derive(Clone, Debug)]
pub enum SpeakError {
    /// The provider rejected or could not fulfil the synthesis request.
    ProviderFailure(String),
    /// The provider accepted the request but its audio stream could not be
    /// read to the end.
    StreamFailure(String),
}

/// The body of an HTTP reply.
#[derive(Clone, Debug)]
pub enum ReplyBody {
    /// Encoded audio.
    Audio(Vec<u8>),
    /// A plain-text message.
    Text(String),
}

/// An HTTP reply: status, the declared content type (if any; a plain-text
/// body otherwise gets the server's default), and the body.
#[derive(Clone, Debug)]
pub struct HttpReply {
    pub status: u16,
    pub content_type: Option<String>,
    pub body: ReplyBody,
}

/// The mathematical content of a [`ReplyBody`].
pub enum ReplyBodyView {
    Audio(Seq<u8>),
    Text(Seq<char>),
}

/// The mathematical content of an [`HttpReply`].
pub struct HttpReplyView {
    pub status: u16,
    pub content_type: Option<Seq<char>>,
    pub body: ReplyBodyView,
}

impl View for ReplyBody {
    type V = ReplyBodyView;

    open spec fn view(&self) -> ReplyBodyView {
        match self {
            ReplyBody::Audio(b) => ReplyBodyView::Audio(b@),
            ReplyBody::Text(t) => ReplyBodyView::Text(t@),
        }
    }
}

impl View for HttpReply {
    type V = HttpReplyView;

    open spec fn view(&self) -> HttpReplyView {
        HttpReplyView {
            status: self.status,
            content_type: match self.content_type {
                Some(c) => Some(c@),
                None => None,
            },
            body: self.body@,
        }
    }
}

/// The MIME type of the audio that every successful reply carries.
pub open spec fn audio_mime() -> Seq<char> {
    "audio/mpeg"@
}

/// The message that a failure is reported with: a prefix naming the stage
/// that failed, then the underlying error text.
pub open spec fn error_message(e: SpeakError) -> Seq<char> {
    match e {
        SpeakError::ProviderFailure(d) => "Polly error: "@ + d@,
        SpeakError::StreamFailure(d) => "Stream error: "@ + d@,
    }
}

/// The underlying error text that a failure carries.
pub open spec fn error_detail(e: SpeakError) -> Seq<char> {
    match e {
        SpeakError::ProviderFailure(d) => d@,
        SpeakError::StreamFailure(d) => d@,
    }
}

/// The reply that delivers the fully read audio.
pub open spec fn audio_reply(audio: Seq<u8>) -> HttpReplyView {
    HttpReplyView {
        status: STATUS_OK,
        content_type: Some(audio_mime()),
        body: ReplyBodyView::Audio(audio),
    }
}

/// The reply that reports a failure.
pub open spec fn failure_reply(e: SpeakError) -> HttpReplyView {
    HttpReplyView {
        status: STATUS_INTERNAL_SERVER_ERROR,
        content_type: None,
        body: ReplyBodyView::Text(error_message(e)),
    }
}

/// The outcome of a synthesis, with the audio as a sequence of bytes.
pub open spec fn outcome_view(outcome: Result<Vec<u8>, SpeakError>) -> Result<Seq<u8>, SpeakError> {
    match outcome {
        Ok(a) => Ok(a@),
        Err(e) => Err(e),
    }
}

/// The reply for an outcome of a synthesis.
pub open spec fn reply_of(outcome: Result<Seq<u8>, SpeakError>) -> HttpReplyView {
    match outcome {
        Ok(audio) => audio_reply(audio),
        Err(e) => failure_reply(e),
    }
}

/// Whether `needle` occurs in `hay` as a contiguous run.
pub open spec fn contains_run(hay: Seq<char>, needle: Seq<char>) -> bool {
    exists|i: int|
        0 <= i <= hay.len() - needle.len() && #[trigger] hay.subrange(i, i + needle.len()) == needle
}

/// Renders a failure as the message that reports it.
pub fn error_text(e: &SpeakError) -> (r: String)
    ensures
        r@ == error_message(*e),
{
    match e {
        SpeakError::ProviderFailure(d) => String::from_str("Polly error: ").concat(d.as_str()),
        SpeakError::StreamFailure(d) => String::from_str("Stream error: ").concat(d.as_str()),
    }
}

/// Turns the outcome of a synthesis into the HTTP reply: the audio with
/// status 200 and the audio MIME type, or status 500 with a plain-text
/// message that embeds the error text.
pub fn assemble_reply(outcome: Result<Vec<u8>, SpeakError>) -> (r: HttpReply)
    ensures
        r@ == reply_of(outcome_view(outcome)),
        outcome is Ok ==> r.status == STATUS_OK && r@.content_type == Some(audio_mime())
            && r.body == ReplyBody::Audio(outcome->Ok_0),
        outcome is Err ==> r.status == STATUS_INTERNAL_SERVER_ERROR && (r.body matches ReplyBody::Text(t)
            && contains_run(t@, error_detail(outcome->Err_0))),
{
    match outcome {
        Ok(audio) => HttpReply {
            status: STATUS_OK,
            content_type: Some(String::from_str("audio/mpeg")),
            body: ReplyBody::Audio(audio),
        },
        Err(e) => {
            let msg = error_text(&e);
            proof {
                lemma_message_contains_detail(e);
            }
            HttpReply { status: STATUS_INTERNAL_SERVER_ERROR, content_type: None, body: ReplyBody::Text(msg) }
        },
    }
}

/// The message of every failure holds its underlying error text verbatim.
pub proof fn lemma_message_contains_detail(e: SpeakError)
    ensures
        contains_run(error_message(e), error_detail(e)),
{
    let m = error_message(e);
    let d = error_detail(e);
    let i = m.len() - d.len();
    assert(m.subrange(i, i + d.len()) =~= d);
}

} // verus!
