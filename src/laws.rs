//! Properties that hold of every request and every outcome.
use vstd::prelude::*;
use crate::reply::{
    ReplyBodyView, STATUS_INTERNAL_SERVER_ERROR, STATUS_OK, SpeakError, audio_mime, contains_run,
    error_message, lemma_message_contains_detail, reply_of,
};
use crate::request::{
    Engine, OutputFormat, SpeakRequest, SynthesisDefaults, TextType, synthesis_request_of,
};

verus! {

/// A request that names no voice is spoken in the configured default voice.
pub proof fn law_default_voice(req: SpeakRequest, defaults: SynthesisDefaults)
    requires
        req.voice is None,
    ensures
        synthesis_request_of(req, defaults).voice_id == defaults.default_voice@,
{
}

/// A request that names a non-empty voice is spoken in exactly that voice,
/// whatever the default.
pub proof fn law_requested_voice(req: SpeakRequest, defaults: SynthesisDefaults)
    requires
        req.voice matches Some(v) && v@.len() > 0,
    ensures
        synthesis_request_of(req, defaults).voice_id == req.voice->Some_0@,
{
}

/// The markup flag alone decides the text type: markup when set, plain text
/// when not.
pub proof fn law_text_type(req: SpeakRequest, defaults: SynthesisDefaults)
    ensures
        req.ssml ==> synthesis_request_of(req, defaults).text_type == TextType::Ssml,
        !req.ssml ==> synthesis_request_of(req, defaults).text_type == TextType::Text,
{
}

/// Any two requests, under any defaults, use the same engine (the neural
/// one) and the same output format (MP3).
pub proof fn law_fixed_engine_and_format(
    a: SpeakRequest,
    da: SynthesisDefaults,
    b: SpeakRequest,
    db: SynthesisDefaults,
)
    ensures
        synthesis_request_of(a, da).engine == synthesis_request_of(b, db).engine,
        synthesis_request_of(a, da).output_format == synthesis_request_of(b, db).output_format,
        synthesis_request_of(a, da).engine == Engine::Neural,
        synthesis_request_of(a, da).output_format == OutputFormat::Mp3,
{
}

/// Audio read in full is answered with status 200, the audio MIME type, and
/// exactly those bytes.
pub proof fn law_success_reply(audio: Seq<u8>)
    ensures
        reply_of(Ok(audio)).status == STATUS_OK,
        reply_of(Ok(audio)).content_type == Some(audio_mime()),
        reply_of(Ok(audio)).body == ReplyBodyView::Audio(audio),
{
}

/// A failed provider call is answered with status 500 and a message that
/// holds the provider's error text.
pub proof fn law_provider_failure_reply(detail: String)
    ensures
        reply_of(Err(SpeakError::ProviderFailure(detail))).status == STATUS_INTERNAL_SERVER_ERROR,
        reply_of(Err(SpeakError::ProviderFailure(detail))).body == ReplyBodyView::Text(
            error_message(SpeakError::ProviderFailure(detail)),
        ),
        contains_run(error_message(SpeakError::ProviderFailure(detail)), detail@),
{
    lemma_message_contains_detail(SpeakError::ProviderFailure(detail));
}

/// A failed read of the audio stream is answered with status 500 and a
/// message that holds the stream's error text.
pub proof fn law_stream_failure_reply(detail: String)
    ensures
        reply_of(Err(SpeakError::StreamFailure(detail))).status == STATUS_INTERNAL_SERVER_ERROR,
        reply_of(Err(SpeakError::StreamFailure(detail))).body == ReplyBodyView::Text(
            error_message(SpeakError::StreamFailure(detail)),
        ),
        contains_run(error_message(SpeakError::StreamFailure(detail)), detail@),
{
    lemma_message_contains_detail(SpeakError::StreamFailure(detail));
}

} // verus!
