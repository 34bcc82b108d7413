//! Recognition tasks: their lifecycle states, the errors they report, and
//! the decoding of the delegate events the native bridge forwards.
use vstd::prelude::*;
use crate::error::{
    framework_kind, FrameworkErrorPayload, SpeechError, SpeechErrorModel, SpeechFrameworkErrorCode,
};
use crate::text::str_equal;

verus! {

/// The current lifecycle state of a speech recognition task.
#[derive(Debug, Clone, Copy, PartialEq, Eq, Hash, Structural)]
pub enum TaskState {
    Starting,
    Running,
    Finishing,
    Canceling,
    Completed,
    Unknown(i32),
}

/// The state that the raw value `raw` of `SFSpeechRecognitionTaskState` stands for.
pub open spec fn task_state_of(raw: i32) -> TaskState {
    if raw == 0 {
        TaskState::Starting
    } else if raw == 1 {
        TaskState::Running
    } else if raw == 2 {
        TaskState::Finishing
    } else if raw == 3 {
        TaskState::Canceling
    } else if raw == 4 {
        TaskState::Completed
    } else {
        TaskState::Unknown(raw)
    }
}

impl TaskState {
    pub fn from_raw(raw: i32) -> (s: Self)
        ensures
            s == task_state_of(raw),
    {
        match raw {
            0 => TaskState::Starting,
            1 => TaskState::Running,
            2 => TaskState::Finishing,
            3 => TaskState::Canceling,
            4 => TaskState::Completed,
            other => TaskState::Unknown(other),
        }
    }
}

/// Different raw values give different states, so no raw value is lost,
/// and `Unknown` is given exactly for the raw values outside `0..=4`.
pub proof fn lemma_task_state_injective(a: i32, b: i32)
    ensures
        task_state_of(a) == task_state_of(b) ==> a == b,
        (task_state_of(a) is Unknown) <==> (a < 0 || a > 4),
{
}

/// A framework error returned by `SFSpeechRecognitionTask.error`.
#[derive(Debug, Clone, PartialEq, Eq)]
pub struct TaskErrorInfo {
    pub domain: String,
    pub code: i64,
    pub localized_description: String,
    pub kind: SpeechFrameworkErrorCode,
}

impl TaskErrorInfo {
    /// The error info for an error a task reported, classified by its domain and code.
    pub fn from_payload(payload: FrameworkErrorPayload) -> (info: Self)
        ensures
            info.domain@ == payload.domain@,
            info.code == payload.code,
            info.localized_description@ == payload.localized_description@,
            info.kind == framework_kind(payload.domain@, payload.code),
    {
        let kind = SpeechFrameworkErrorCode::from_domain_code_and_message(
            payload.domain.as_str(),
            payload.code,
            payload.localized_description.as_str(),
        );
        TaskErrorInfo {
            domain: payload.domain,
            code: payload.code,
            localized_description: payload.localized_description,
            kind,
        }
    }
}

/// Which delegate callback an event reports, with the flag it carries
/// when it carries one.
#[derive(Debug, Clone, Copy, PartialEq, Eq, Hash, Structural)]
pub enum TaskEventKind {
    DidDetectSpeech,
    DidHypothesizeTranscription,
    DidFinishRecognition,
    FinishedReadingAudio,
    WasCancelled,
    DidFinishSuccessfully(bool),
    DidProcessAudioDuration,
}

/// The event that an event payload stands for: its name must be one of
/// the seven callbacks, and a callback that carries a value is only
/// reported when the payload holds that value.
pub open spec fn task_event_of(
    event: Seq<char>,
    has_transcription: bool,
    has_result: bool,
    has_duration: bool,
    successfully: Option<bool>,
) -> Option<TaskEventKind> {
    if event == "didDetectSpeech"@ {
        Some(TaskEventKind::DidDetectSpeech)
    } else if event == "didHypothesizeTranscription"@ {
        if has_transcription {
            Some(TaskEventKind::DidHypothesizeTranscription)
        } else {
            None
        }
    } else if event == "didFinishRecognition"@ {
        if has_result {
            Some(TaskEventKind::DidFinishRecognition)
        } else {
            None
        }
    } else if event == "finishedReadingAudio"@ {
        Some(TaskEventKind::FinishedReadingAudio)
    } else if event == "wasCancelled"@ {
        Some(TaskEventKind::WasCancelled)
    } else if event == "didFinishSuccessfully"@ {
        match successfully {
            Some(b) => Some(TaskEventKind::DidFinishSuccessfully(b)),
            None => None,
        }
    } else if event == "didProcessAudioDuration"@ {
        if has_duration {
            Some(TaskEventKind::DidProcessAudioDuration)
        } else {
            None
        }
    } else {
        None
    }
}

/// Decodes a delegate event payload: its `event` name, which of its
/// optional values are present, and its `successfully` flag.
pub fn task_event_kind(
    event: &str,
    has_transcription: bool,
    has_result: bool,
    has_duration: bool,
    successfully: Option<bool>,
) -> (k: Option<TaskEventKind>)
    ensures
        k == task_event_of(event@, has_transcription, has_result, has_duration, successfully),
{
    if str_equal(event, "didDetectSpeech") {
        Some(TaskEventKind::DidDetectSpeech)
    } else if str_equal(event, "didHypothesizeTranscription") {
        if has_transcription {
            Some(TaskEventKind::DidHypothesizeTranscription)
        } else {
            None
        }
    } else if str_equal(event, "didFinishRecognition") {
        if has_result {
            Some(TaskEventKind::DidFinishRecognition)
        } else {
            None
        }
    } else if str_equal(event, "finishedReadingAudio") {
        Some(TaskEventKind::FinishedReadingAudio)
    } else if str_equal(event, "wasCancelled") {
        Some(TaskEventKind::WasCancelled)
    } else if str_equal(event, "didFinishSuccessfully") {
        match successfully {
            Some(b) => Some(TaskEventKind::DidFinishSuccessfully(b)),
            None => None,
        }
    } else if str_equal(event, "didProcessAudioDuration") {
        if has_duration {
            Some(TaskEventKind::DidProcessAudioDuration)
        } else {
            None
        }
    } else {
        None
    }
}

/// The channel count of interleaved audio as the bridge takes it: an
/// `i32`, so larger counts are refused.
pub fn channels_as_i32(channels: usize) -> (r: Result<i32, SpeechError>)
    ensures
        r is Ok <==> channels <= i32::MAX,
        r matches Ok(c) ==> c == channels,
        r matches Err(e) ==> e@ == SpeechErrorModel::InvalidArgument(
            "channel count does not fit into i32"@,
        ),
{
    if channels <= 2147483647usize {
        Ok(channels as i32)
    } else {
        Err(SpeechError::InvalidArgument("channel count does not fit into i32".to_owned()))
    }
}

} // verus!
