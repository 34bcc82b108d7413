use speech::error::{
    error_from_status, error_from_status_or_json, with_fallback_message, STATUS_AUDIO_LOAD_FAILED,
    STATUS_INVALID_ARGUMENT, STATUS_NOT_AUTHORIZED, STATUS_RECOGNITION_FAILED,
    STATUS_RECOGNIZER_UNAVAILABLE, STATUS_TIMED_OUT, STATUS_UNKNOWN,
};
use speech::{
    FrameworkErrorPayload, SpeechError, SpeechFrameworkError, SpeechFrameworkErrorCode,
    SPEECH_ERROR_DOMAIN,
};

fn framework(message: &str) -> SpeechFrameworkError {
    SpeechFrameworkError {
        domain: "SFSpeechErrorDomain".to_string(),
        code: 12,
        message: message.to_string(),
        kind: SpeechFrameworkErrorCode::Timeout,
    }
}

fn reported(domain: &str, code: i64, description: &str) -> FrameworkErrorPayload {
    FrameworkErrorPayload {
        domain: domain.to_string(),
        code,
        localized_description: description.to_string(),
    }
}

#[test]
fn status_codes_map_to_variants() {
    let m = || "msg".to_string();
    assert_eq!(error_from_status(STATUS_INVALID_ARGUMENT, m()), SpeechError::InvalidArgument(m()));
    assert_eq!(error_from_status(STATUS_NOT_AUTHORIZED, m()), SpeechError::NotAuthorized(m()));
    assert_eq!(
        error_from_status(STATUS_RECOGNIZER_UNAVAILABLE, m()),
        SpeechError::RecognizerUnavailable(m())
    );
    assert_eq!(error_from_status(STATUS_AUDIO_LOAD_FAILED, m()), SpeechError::AudioLoadFailed(m()));
    assert_eq!(
        error_from_status(STATUS_RECOGNITION_FAILED, m()),
        SpeechError::RecognitionFailed(m())
    );
    assert_eq!(error_from_status(STATUS_TIMED_OUT, m()), SpeechError::TimedOut(m()));
    assert_eq!(
        error_from_status(STATUS_UNKNOWN, m()),
        SpeechError::Unknown { code: -99, message: m() }
    );
    assert_eq!(
        error_from_status(42, m()),
        SpeechError::Unknown { code: 42, message: m() }
    );
}

#[test]
fn fallback_message_replaces_only_the_message() {
    let new = || "new".to_string();
    let cases = vec![
        (SpeechError::NotAuthorized("old".into()), SpeechError::NotAuthorized(new())),
        (SpeechError::RecognizerUnavailable("old".into()), SpeechError::RecognizerUnavailable(new())),
        (SpeechError::AudioLoadFailed("old".into()), SpeechError::AudioLoadFailed(new())),
        (SpeechError::RecognitionFailed("old".into()), SpeechError::RecognitionFailed(new())),
        (SpeechError::TimedOut("old".into()), SpeechError::TimedOut(new())),
        (SpeechError::InvalidArgument("old".into()), SpeechError::InvalidArgument(new())),
        (
            SpeechError::Unknown { code: 7, message: "old".into() },
            SpeechError::Unknown { code: 7, message: new() },
        ),
        (SpeechError::Framework(framework("old")), SpeechError::Framework(framework("new"))),
    ];
    for (before, after) in cases {
        assert_eq!(with_fallback_message(before, new()), after);
    }
}

#[test]
fn fallback_message_last_one_wins() {
    let e = SpeechError::TimedOut("a".into());
    let twice = with_fallback_message(with_fallback_message(e.clone(), "b".into()), "c".into());
    assert_eq!(twice, with_fallback_message(e, "c".into()));
}

#[test]
fn status_or_json_without_message() {
    assert_eq!(
        error_from_status_or_json(STATUS_TIMED_OUT, None, None),
        SpeechError::TimedOut(String::new())
    );
    assert_eq!(
        error_from_status_or_json(-7, None, Some(reported(SPEECH_ERROR_DOMAIN, 12, "ignored"))),
        SpeechError::Unknown { code: -7, message: String::new() }
    );
}

#[test]
fn status_or_json_with_framework_payload() {
    assert_eq!(
        error_from_status_or_json(
            STATUS_RECOGNITION_FAILED,
            Some("{..}".into()),
            Some(reported("SFSpeechErrorDomain", 12, "Timed out"))
        ),
        SpeechError::Framework(framework("Timed out"))
    );
    assert_eq!(
        error_from_status_or_json(
            STATUS_RECOGNITION_FAILED,
            Some("{..}".into()),
            Some(reported("kAFAssistantErrorDomain", 1110, "No speech detected"))
        ),
        SpeechError::Framework(SpeechFrameworkError {
            domain: "kAFAssistantErrorDomain".to_string(),
            code: 1110,
            message: "No speech detected".to_string(),
            kind: SpeechFrameworkErrorCode::Other,
        })
    );
}

#[test]
fn status_or_json_with_plain_message() {
    assert_eq!(
        error_from_status_or_json(STATUS_AUDIO_LOAD_FAILED, Some("cannot open".into()), None),
        SpeechError::AudioLoadFailed("cannot open".into())
    );
    assert_eq!(
        error_from_status_or_json(-50, Some("odd".into()), None),
        SpeechError::Unknown { code: -50, message: "odd".into() }
    );
}

#[test]
fn framework_errors_are_classified_by_domain_and_code() {
    let kind = |domain: &str, code: i64| {
        SpeechFrameworkErrorCode::from_domain_code_and_message(domain, code, "message")
    };
    assert_eq!(SPEECH_ERROR_DOMAIN, "SFSpeechErrorDomain");
    assert_eq!(kind(SPEECH_ERROR_DOMAIN, 1), SpeechFrameworkErrorCode::InternalServiceError);
    assert_eq!(kind(SPEECH_ERROR_DOMAIN, 2), SpeechFrameworkErrorCode::AudioReadFailed);
    assert_eq!(kind(SPEECH_ERROR_DOMAIN, 7), SpeechFrameworkErrorCode::UndefinedTemplateClassName);
    assert_eq!(kind(SPEECH_ERROR_DOMAIN, 8), SpeechFrameworkErrorCode::MalformedSupplementalModel);
    assert_eq!(kind(SPEECH_ERROR_DOMAIN, 12), SpeechFrameworkErrorCode::Timeout);
    assert_eq!(kind(SPEECH_ERROR_DOMAIN, 13), SpeechFrameworkErrorCode::MissingParameter);
    assert_eq!(kind(SPEECH_ERROR_DOMAIN, 3), SpeechFrameworkErrorCode::Other);
    assert_eq!(kind("kAFAssistantErrorDomain", 1), SpeechFrameworkErrorCode::Other);
    assert_eq!(kind("NSCocoaErrorDomain", 12), SpeechFrameworkErrorCode::Other);
}

#[test]
fn framework_error_from_payload_keeps_fields() {
    let e = SpeechFrameworkError::from_payload(reported(SPEECH_ERROR_DOMAIN, 13, "missing"));
    assert_eq!(e.domain, "SFSpeechErrorDomain");
    assert_eq!(e.code, 13);
    assert_eq!(e.message, "missing");
    assert_eq!(e.kind, SpeechFrameworkErrorCode::MissingParameter);
}
