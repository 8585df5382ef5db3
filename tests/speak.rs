use polly_speak::{
    advance, assemble_reply, begin, build_synthesis_request, error_text, resolve_voice,
    text_type_for, Engine, HttpReply, OutputFormat, ReplyBody, SpeakAction, SpeakError,
    SpeakEvent, SpeakPhase, SpeakRequest, SynthesisDefaults, TextType,
    STATUS_INTERNAL_SERVER_ERROR, STATUS_OK,
};

fn defaults(voice: &str) -> SynthesisDefaults {
    SynthesisDefaults { default_voice: voice.to_string() }
}

fn request(text: &str, ssml: bool, voice: Option<&str>) -> SpeakRequest {
    SpeakRequest { text: text.to_string(), ssml, voice: voice.map(|v| v.to_string()) }
}

fn reply_of(action: SpeakAction) -> HttpReply {
    match action {
        SpeakAction::Respond(r) => r,
        other => panic!("expected a reply, got {:?}", other),
    }
}

#[test]
fn scenario_default_voice_plain_text() {
    let (phase, action) = begin(&request("Hello", false, None), &defaults("Ruth"));
    assert_eq!(phase, SpeakPhase::AwaitingProvider);
    let sent = match action {
        SpeakAction::CallProvider(s) => s,
        other => panic!("expected a provider call, got {:?}", other),
    };
    assert_eq!(sent.voice_id, "Ruth");
    assert_eq!(sent.text_type, TextType::Text);
    assert_eq!(sent.text, "Hello");

    let (phase, action) = advance(phase, SpeakEvent::ProviderAccepted);
    assert_eq!(phase, SpeakPhase::ReadingStream);
    assert!(matches!(action, SpeakAction::CollectStream));

    let audio = vec![0xFFu8, 0xFB, 0x90, 0x44];
    let (phase, action) = advance(phase, SpeakEvent::StreamCollected(audio.clone()));
    assert_eq!(phase, SpeakPhase::Finished);
    let reply = reply_of(action);
    assert_eq!(reply.status, 200);
    assert_eq!(reply.content_type.as_deref(), Some("audio/mpeg"));
    match reply.body {
        ReplyBody::Audio(b) => {
            assert!(!b.is_empty());
            assert_eq!(b, audio);
        }
        other => panic!("expected audio, got {:?}", other),
    }
}

#[test]
fn scenario_ssml_is_markup() {
    let sent = build_synthesis_request(&request("<speak>Hi</speak>", true, None), &defaults("Ruth"));
    assert_eq!(sent.text_type, TextType::Ssml);
    assert_eq!(sent.text, "<speak>Hi</speak>");
}

#[test]
fn scenario_requested_voice_overrides_default() {
    let sent = build_synthesis_request(&request("Hi", false, Some("Joanna")), &defaults("Ruth"));
    assert_eq!(sent.voice_id, "Joanna");
    assert_eq!(sent.text_type, TextType::Text);
}

#[test]
fn scenario_provider_rejection_reported() {
    let reason = "ValidationException: Invalid voice id NotAVoice";
    let (phase, action) =
        advance(SpeakPhase::AwaitingProvider, SpeakEvent::ProviderFailed(reason.to_string()));
    assert_eq!(phase, SpeakPhase::Finished);
    let reply = reply_of(action);
    assert_eq!(reply.status, 500);
    assert_eq!(reply.content_type, None);
    match reply.body {
        ReplyBody::Text(t) => {
            assert!(t.contains(reason));
            assert_eq!(t, format!("Polly error: {}", reason));
        }
        other => panic!("expected text, got {:?}", other),
    }
}

#[test]
fn stream_failure_reported() {
    let reason = "connection reset";
    let (phase, action) =
        advance(SpeakPhase::ReadingStream, SpeakEvent::StreamFailed(reason.to_string()));
    assert_eq!(phase, SpeakPhase::Finished);
    let reply = reply_of(action);
    assert_eq!(reply.status, STATUS_INTERNAL_SERVER_ERROR);
    match reply.body {
        ReplyBody::Text(t) => assert_eq!(t, "Stream error: connection reset"),
        other => panic!("expected text, got {:?}", other),
    }
}

#[test]
fn empty_voice_falls_back_to_default() {
    let sent = build_synthesis_request(&request("Hi", false, Some("")), &defaults("Ruth"));
    assert_eq!(sent.voice_id, "Ruth");
    assert_eq!(resolve_voice(&Some(String::new()), &"Matthew".to_string()), "Matthew");
    assert_eq!(resolve_voice(&None, &"Matthew".to_string()), "Matthew");
    assert_eq!(resolve_voice(&Some("Amy".to_string()), &"Matthew".to_string()), "Amy");
}

#[test]
fn unknown_voice_passed_through() {
    let sent = build_synthesis_request(&request("Hi", false, Some("NotAVoice")), &defaults("Ruth"));
    assert_eq!(sent.voice_id, "NotAVoice");
}

#[test]
fn engine_and_format_fixed() {
    let cases = [
        request("Hello", false, None),
        request("<speak>Hi</speak>", true, Some("Joanna")),
        request("", false, Some("")),
    ];
    for req in cases.iter() {
        for d in [defaults("Ruth"), defaults("Brian")].iter() {
            let sent = build_synthesis_request(req, d);
            assert_eq!(sent.engine, Engine::Neural);
            assert_eq!(sent.output_format, OutputFormat::Mp3);
        }
    }
}

#[test]
fn text_type_follows_flag() {
    assert_eq!(text_type_for(true), TextType::Ssml);
    assert_eq!(text_type_for(false), TextType::Text);
}

#[test]
fn text_passed_unmodified() {
    let text = "  Tab\there, <b>not</b> markup & \u{e9}t\u{e9} \n";
    let sent = build_synthesis_request(&request(text, false, None), &defaults("Ruth"));
    assert_eq!(sent.text, text);
}

#[test]
fn empty_audio_is_still_success() {
    let reply = assemble_reply(Ok(Vec::new()));
    assert_eq!(reply.status, STATUS_OK);
    assert_eq!(reply.content_type.as_deref(), Some("audio/mpeg"));
    assert!(matches!(reply.body, ReplyBody::Audio(ref b) if b.is_empty()));
}

#[test]
fn error_messages_exact() {
    assert_eq!(
        error_text(&SpeakError::ProviderFailure("throttled".to_string())),
        "Polly error: throttled"
    );
    assert_eq!(
        error_text(&SpeakError::StreamFailure("eof".to_string())),
        "Stream error: eof"
    );
    assert_eq!(error_text(&SpeakError::ProviderFailure(String::new())), "Polly error: ");
}

#[test]
fn failure_reply_statuses() {
    let provider = assemble_reply(Err(SpeakError::ProviderFailure("x".to_string())));
    assert_eq!(provider.status, 500);
    let stream = assemble_reply(Err(SpeakError::StreamFailure("y".to_string())));
    assert_eq!(stream.status, 500);
    assert!(matches!(stream.body, ReplyBody::Text(ref t) if t == "Stream error: y"));
}

#[test]
fn large_audio_kept_whole() {
    let audio: Vec<u8> = (0..1_000_000u32).map(|i| (i % 251) as u8).collect();
    let reply = assemble_reply(Ok(audio.clone()));
    assert!(matches!(reply.body, ReplyBody::Audio(ref b) if *b == audio));
}
