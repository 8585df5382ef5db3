//! Request handling for a text-to-speech proxy: a spoken-text request is
//! turned into a fully specified synthesis request for the speech provider,
//! and the provider's outcome is turned into an HTTP reply.
//!
//! The network call to the provider and the reading of its audio stream are
//! performed by the caller; this library makes every decision around them.
pub mod handler;
pub mod laws;
pub mod reply;
pub mod request;

pub use handler::{SpeakAction, SpeakEvent, SpeakPhase, accepts, advance, begin};
pub use reply::{
    HttpReply, HttpReplyView, ReplyBody, ReplyBodyView, SpeakError, STATUS_INTERNAL_SERVER_ERROR,
    STATUS_OK, assemble_reply, error_text,
};
pub use request::{
    Engine, OutputFormat, SpeakRequest, SynthesisDefaults, SynthesisRequest, SynthesisRequestView,
    TextType, build_synthesis_request, resolve_voice, text_type_for,
};
