use speech::task::{task_event_kind, TaskEventKind};
use speech::{FrameworkErrorPayload, SpeechFrameworkErrorCode, TaskErrorInfo, TaskState};

#[test]
fn task_states_from_raw_values() {
    assert_eq!(TaskState::from_raw(0), TaskState::Starting);
    assert_eq!(TaskState::from_raw(1), TaskState::Running);
    assert_eq!(TaskState::from_raw(2), TaskState::Finishing);
    assert_eq!(TaskState::from_raw(3), TaskState::Canceling);
    assert_eq!(TaskState::from_raw(4), TaskState::Completed);
    assert_eq!(TaskState::from_raw(5), TaskState::Unknown(5));
    assert_eq!(TaskState::from_raw(-1), TaskState::Unknown(-1));
    assert_eq!(TaskState::from_raw(i32::MIN), TaskState::Unknown(i32::MIN));
}

#[test]
fn task_states_keep_raw_values_apart() {
    for a in -3..8 {
        for b in -3..8 {
            assert_eq!(a == b, TaskState::from_raw(a) == TaskState::from_raw(b));
        }
    }
}

#[test]
fn events_without_values() {
    assert_eq!(
        task_event_kind("didDetectSpeech", false, false, false, None),
        Some(TaskEventKind::DidDetectSpeech)
    );
    assert_eq!(
        task_event_kind("finishedReadingAudio", true, true, true, Some(true)),
        Some(TaskEventKind::FinishedReadingAudio)
    );
    assert_eq!(
        task_event_kind("wasCancelled", false, false, false, None),
        Some(TaskEventKind::WasCancelled)
    );
}

#[test]
fn events_with_values_need_them() {
    assert_eq!(
        task_event_kind("didHypothesizeTranscription", true, false, false, None),
        Some(TaskEventKind::DidHypothesizeTranscription)
    );
    assert_eq!(task_event_kind("didHypothesizeTranscription", false, true, true, Some(true)), None);
    assert_eq!(
        task_event_kind("didFinishRecognition", false, true, false, None),
        Some(TaskEventKind::DidFinishRecognition)
    );
    assert_eq!(task_event_kind("didFinishRecognition", true, false, false, None), None);
    assert_eq!(
        task_event_kind("didFinishSuccessfully", false, false, false, Some(false)),
        Some(TaskEventKind::DidFinishSuccessfully(false))
    );
    assert_eq!(
        task_event_kind("didFinishSuccessfully", false, false, false, Some(true)),
        Some(TaskEventKind::DidFinishSuccessfully(true))
    );
    assert_eq!(task_event_kind("didFinishSuccessfully", true, true, true, None), None);
    assert_eq!(
        task_event_kind("didProcessAudioDuration", false, false, true, None),
        Some(TaskEventKind::DidProcessAudioDuration)
    );
    assert_eq!(task_event_kind("didProcessAudioDuration", false, false, false, None), None);
}

#[test]
fn unknown_events_are_dropped() {
    assert_eq!(task_event_kind("", true, true, true, Some(true)), None);
    assert_eq!(task_event_kind("DidDetectSpeech", true, true, true, Some(true)), None);
    assert_eq!(task_event_kind("didDetectSpeech ", true, true, true, Some(true)), None);
}

#[test]
fn task_error_info_holds_its_fields() {
    let info = TaskErrorInfo {
        domain: "kAFAssistantErrorDomain".to_string(),
        code: 203,
        localized_description: "Retry".to_string(),
        kind: SpeechFrameworkErrorCode::Other,
    };
    assert_eq!(info.clone(), info);
    assert_eq!(info.code, 203);
}

#[test]
fn task_error_info_from_reported_error() {
    let info = TaskErrorInfo::from_payload(FrameworkErrorPayload {
        domain: "SFSpeechErrorDomain".to_string(),
        code: 2,
        localized_description: "Cannot read audio".to_string(),
    });
    assert_eq!(info.domain, "SFSpeechErrorDomain");
    assert_eq!(info.code, 2);
    assert_eq!(info.localized_description, "Cannot read audio");
    assert_eq!(info.kind, SpeechFrameworkErrorCode::AudioReadFailed);
}
