//! The spoken-text request and its mapping to the provider's request shape.
use vstd::prelude::*;

verus! {

/// The synthesis engines that the provider offers.
#[derive(Clone, Copy, Debug, PartialEq, Eq, Structural)]
pub enum Engine {
    Standard,
    Neural,
    LongForm,
    Generative,
}

/// The audio encodings that the provider can produce.
#[derive(Clone, Copy, Debug, PartialEq, Eq, Structural)]
pub enum OutputFormat {
    Mp3,
    OggVorbis,
    OggOpus,
    Pcm,
}

/// How the provider is to read the submitted text.
#[derive(Clone, Copy, Debug, PartialEq, Eq, Structural)]
pub enum TextType {
    /// Plain text, read as written.
    Text,
    /// Text in the provider's speech-markup dialect.
    Ssml,
}

/// One request to speak a text, as decoded from the request body.
#[derive(Clone, Debug)]
pub struct SpeakRequest {
    /// The text to synthesize, passed on unmodified.
    pub text: String,
    /// Whether `text` is written in the speech-markup dialect.
    pub ssml: bool,
    /// A voice that overrides the configured default.
    pub voice: Option<String>,
}

/// The settings shared by every request of the process.
#[derive(Clone, Debug)]
pub struct SynthesisDefaults {
    /// The voice used when a request names none.
    pub default_voice: String,
}

/// A fully specified request to the speech provider.
#[derive(Clone, Debug)]
pub struct SynthesisRequest {
    pub engine: Engine,
    pub output_format: OutputFormat,
    pub voice_id: String,
    pub text: String,
    pub text_type: TextType,
}

/// The mathematical content of a [`SynthesisRequest`].
pub struct SynthesisRequestView {
    pub engine: Engine,
    pub output_format: OutputFormat,
    pub voice_id: Seq<char>,
    pub text: Seq<char>,
    pub text_type: TextType,
}

impl View for SynthesisRequest {
    type V = SynthesisRequestView;

    open spec fn view(&self) -> SynthesisRequestView {
        SynthesisRequestView {
            engine: self.engine,
            output_format: self.output_format,
            voice_id: self.voice_id@,
            text: self.text@,
            text_type: self.text_type,
        }
    }
}

/// The engine used for every request: the provider's highest-quality one.
pub open spec fn fixed_engine() -> Engine {
    Engine::Neural
}

/// The audio encoding used for every response.
pub open spec fn fixed_output_format() -> OutputFormat {
    OutputFormat::Mp3
}

/// The voice a request is spoken in: its own when it names a non-empty one,
/// the default otherwise.
pub open spec fn voice_of(voice: Option<String>, default_voice: Seq<char>) -> Seq<char> {
    match voice {
        Some(v) => if v@.len() > 0 { v@ } else { default_voice },
        None => default_voice,
    }
}

/// The text type that the markup flag selects.
pub open spec fn text_type_of(ssml: bool) -> TextType {
    if ssml { TextType::Ssml } else { TextType::Text }
}

/// The provider request that a spoken-text request maps to.
pub open spec fn synthesis_request_of(req: SpeakRequest, defaults: SynthesisDefaults) -> SynthesisRequestView {
    SynthesisRequestView {
        engine: fixed_engine(),
        output_format: fixed_output_format(),
        voice_id: voice_of(req.voice, defaults.default_voice@),
        text: req.text@,
        text_type: text_type_of(req.ssml),
    }
}

/// Picks the voice to speak in: `voice` when it is present and non-empty,
/// `default_voice` otherwise. The identifier is not checked against the
/// provider's voices.
pub fn resolve_voice(voice: &Option<String>, default_voice: &String) -> (r: String)
    ensures
        r@ == voice_of(*voice, default_voice@),
{
    match voice {
        Some(v) => {
            if v.as_str().is_empty() {
                default_voice.clone()
            } else {
                v.clone()
            }
        },
        None => default_voice.clone(),
    }
}

/// Tags the text as markup when `ssml` is set, as plain text otherwise.
pub fn text_type_for(ssml: bool) -> (r: TextType)
    ensures
        r == text_type_of(ssml),
{
    if ssml {
        TextType::Ssml
    } else {
        TextType::Text
    }
}

/// Maps a spoken-text request and the process-wide defaults to the request
/// sent to the provider. Engine and output format are the same for every
/// request; the text is passed on unmodified.
pub fn build_synthesis_request(req: &SpeakRequest, defaults: &SynthesisDefaults) -> (r: SynthesisRequest)
    ensures
        r@ == synthesis_request_of(*req, *defaults),
        r.engine == Engine::Neural,
        r.output_format == OutputFormat::Mp3,
        r.text@ == req.text@,
        req.voice is None ==> r.voice_id@ == defaults.default_voice@,
        (req.voice matches Some(v) && v@.len() > 0) ==> r.voice_id@ == req.voice->Some_0@,
        req.ssml ==> r.text_type == TextType::Ssml,
        !req.ssml ==> r.text_type == TextType::Text,
{
    SynthesisRequest {
        engine: Engine::Neural,
        output_format: OutputFormat::Mp3,
        voice_id: resolve_voice(&req.voice, &defaults.default_voice),
        text: req.text.clone(),
        text_type: text_type_for(req.ssml),
    }
}

} // verus!
