//! The decisions of one request's handling, as a state machine: the caller
//! performs each action (call the provider, read its audio stream, send the
//! reply) and feeds what happened back as an event.
use vstd::prelude::*;
use crate::reply::{
    HttpReply, SpeakError, assemble_reply, audio_reply, failure_reply,
};
use crate::request::{
    SpeakRequest, SynthesisDefaults, SynthesisRequest, build_synthesis_request,
    synthesis_request_of,
};

verus! {

/// Where the handling of one request stands.
#[derive(Clone, Copy, Debug, PartialEq, Eq, Structural)]
pub enum SpeakPhase {
    /// The synthesis request has been handed to the provider.
    AwaitingProvider,
    /// The provider accepted; its audio stream is being read.
    ReadingStream,
    /// The reply has been decided.
    Finished,
}

/// What the caller observed while performing the last action.
#[derive(Clone, Debug)]
pub enum SpeakEvent {
    /// The provider accepted the request and returned an audio stream.
    ProviderAccepted,
    /// The provider call failed, with the provider's error text.
    ProviderFailed(String),
    /// The audio stream was read to the end, giving these bytes.
    StreamCollected(Vec<u8>),
    /// Reading the audio stream failed, with the stream's error text.
    StreamFailed(String),
}

/// What the caller is to do next.
#[derive(Clone, Debug)]
pub enum SpeakAction {
    /// Send this request to the provider.
    CallProvider(SynthesisRequest),
    /// Read the provider's audio stream to the end.
    CollectStream,
    /// Send this reply; the handling is over.
    Respond(HttpReply),
}

/// Whether `event` can follow the action taken on entering `phase`.
pub open spec fn event_fits(phase: SpeakPhase, event: SpeakEvent) -> bool {
    match phase {
        SpeakPhase::AwaitingProvider => event is ProviderAccepted || event is ProviderFailed,
        SpeakPhase::ReadingStream => event is StreamCollected || event is StreamFailed,
        SpeakPhase::Finished => false,
    }
}

/// The phase that an event leads to.
pub open spec fn next_phase(event: SpeakEvent) -> SpeakPhase {
    match event {
        SpeakEvent::ProviderAccepted => SpeakPhase::ReadingStream,
        _ => SpeakPhase::Finished,
    }
}

/// Whether `action` is the one that `event` calls for.
pub open spec fn action_for(event: SpeakEvent, action: SpeakAction) -> bool {
    match event {
        SpeakEvent::ProviderAccepted => action is CollectStream,
        SpeakEvent::ProviderFailed(d) => action matches SpeakAction::Respond(r)
            && r@ == failure_reply(SpeakError::ProviderFailure(d)),
        SpeakEvent::StreamCollected(audio) => action matches SpeakAction::Respond(r)
            && r@ == audio_reply(audio@),
        SpeakEvent::StreamFailed(d) => action matches SpeakAction::Respond(r)
            && r@ == failure_reply(SpeakError::StreamFailure(d)),
    }
}

/// Tells whether `event` can follow the action taken on entering `phase`,
/// which [`advance`] requires.
pub fn accepts(phase: SpeakPhase, event: &SpeakEvent) -> (r: bool)
    ensures
        r == event_fits(phase, *event),
{
    match phase {
        SpeakPhase::AwaitingProvider => match event {
            SpeakEvent::ProviderAccepted | SpeakEvent::ProviderFailed(_) => true,
            _ => false,
        },
        SpeakPhase::ReadingStream => match event {
            SpeakEvent::StreamCollected(_) | SpeakEvent::StreamFailed(_) => true,
            _ => false,
        },
        SpeakPhase::Finished => false,
    }
}

/// Starts handling a request: builds the synthesis request and asks for it
/// to be sent to the provider.
pub fn begin(req: &SpeakRequest, defaults: &SynthesisDefaults) -> (r: (SpeakPhase, SpeakAction))
    ensures
        r.0 == SpeakPhase::AwaitingProvider,
        r.1 matches SpeakAction::CallProvider(s) && s@ == synthesis_request_of(*req, *defaults),
{
    (SpeakPhase::AwaitingProvider, SpeakAction::CallProvider(build_synthesis_request(req, defaults)))
}

/// Decides what follows an event: after the provider accepts, read the
/// stream; after any failure, reply with status 500 and the error text;
/// after the stream is read, reply with the audio. No failure is retried.
pub fn advance(phase: SpeakPhase, event: SpeakEvent) -> (r: (SpeakPhase, SpeakAction))
    requires
        event_fits(phase, event),
    ensures
        r.0 == next_phase(event),
        action_for(event, r.1),
{
    match event {
        SpeakEvent::ProviderAccepted => (SpeakPhase::ReadingStream, SpeakAction::CollectStream),
        SpeakEvent::ProviderFailed(d) => (
            SpeakPhase::Finished,
            SpeakAction::Respond(assemble_reply(Err(SpeakError::ProviderFailure(d)))),
        ),
        SpeakEvent::StreamCollected(audio) => (
            SpeakPhase::Finished,
            SpeakAction::Respond(assemble_reply(Ok(audio))),
        ),
        SpeakEvent::StreamFailed(d) => (
            SpeakPhase::Finished,
            SpeakAction::Respond(assemble_reply(Err(SpeakError::StreamFailure(d)))),
        ),
    }
}

} // verus!
