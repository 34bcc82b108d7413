//! Error values of the crate and the rules that turn a native status code
//! and message into one.
use vstd::prelude::*;

verus! {

/// Status returned by the native bridge on success.
pub const STATUS_OK: i32 = 0;

/// Status of a call rejected for a bad argument.
pub const STATUS_INVALID_ARGUMENT: i32 = -1;

/// Status of a call refused for want of authorization.
pub const STATUS_NOT_AUTHORIZED: i32 = -2;

/// Status of a call whose recognizer is unavailable.
pub const STATUS_RECOGNIZER_UNAVAILABLE: i32 = -3;

/// Status of a call whose audio could not be loaded.
pub const STATUS_AUDIO_LOAD_FAILED: i32 = -4;

/// Status of a call whose recognition failed.
pub const STATUS_RECOGNITION_FAILED: i32 = -5;

/// Status of a call that timed out.
pub const STATUS_TIMED_OUT: i32 = -6;

/// Status of a call that failed for a reason the bridge does not name.
pub const STATUS_UNKNOWN: i32 = -99;

/// The documented `SFSpeechError.Code` cases.
#[derive(Debug, Clone, Copy, PartialEq, Eq, Hash, Structural)]
pub enum SpeechFrameworkErrorCode {
    InternalServiceError,
    AudioReadFailed,
    UndefinedTemplateClassName,
    MalformedSupplementalModel,
    Timeout,
    MissingParameter,
    AudioDisordered,
    UnexpectedAudioFormat,
    NoModel,
    AssetLocaleNotAllocated,
    TooManyAssetLocalesAllocated,
    IncompatibleAudioFormats,
    ModuleOutputFailed,
    CannotAllocateUnsupportedLocale,
    InsufficientResources,
    Other,
}

/// The error domain of Speech.framework's own errors (`SFSpeechErrorDomain`).
pub const SPEECH_ERROR_DOMAIN: &'static str = "SFSpeechErrorDomain";

/// The case of `SFSpeechError.Code` that an error of `domain` with `code`
/// stands for. Only errors of the Speech error domain are classified, by
/// the raw values that `SFErrors.h` gives its cases; every other error,
/// and every code `SFErrors.h` does not number, is `Other`.
pub open spec fn framework_kind(domain: Seq<char>, code: i64) -> SpeechFrameworkErrorCode {
    if domain != "SFSpeechErrorDomain"@ {
        SpeechFrameworkErrorCode::Other
    } else if code == 1 {
        SpeechFrameworkErrorCode::InternalServiceError
    } else if code == 2 {
        SpeechFrameworkErrorCode::AudioReadFailed
    } else if code == 7 {
        SpeechFrameworkErrorCode::UndefinedTemplateClassName
    } else if code == 8 {
        SpeechFrameworkErrorCode::MalformedSupplementalModel
    } else if code == 12 {
        SpeechFrameworkErrorCode::Timeout
    } else if code == 13 {
        SpeechFrameworkErrorCode::MissingParameter
    } else {
        SpeechFrameworkErrorCode::Other
    }
}

impl SpeechFrameworkErrorCode {
    /// Classifies a framework error by its domain and code; the message
    /// does not enter into it.
    pub fn from_domain_code_and_message(domain: &str, code: i64, message: &str) -> (k: Self)
        ensures
            k == framework_kind(domain@, code),
    {
        if !crate::text::str_equal(domain, SPEECH_ERROR_DOMAIN) {
            SpeechFrameworkErrorCode::Other
        } else if code == 1 {
            SpeechFrameworkErrorCode::InternalServiceError
        } else if code == 2 {
            SpeechFrameworkErrorCode::AudioReadFailed
        } else if code == 7 {
            SpeechFrameworkErrorCode::UndefinedTemplateClassName
        } else if code == 8 {
            SpeechFrameworkErrorCode::MalformedSupplementalModel
        } else if code == 12 {
            SpeechFrameworkErrorCode::Timeout
        } else if code == 13 {
            SpeechFrameworkErrorCode::MissingParameter
        } else {
            SpeechFrameworkErrorCode::Other
        }
    }
}

/// An error reported by Speech.framework itself.
#[derive(Debug, Clone, PartialEq, Eq)]
pub struct SpeechFrameworkError {
    pub domain: String,
    pub code: i64,
    pub message: String,
    pub kind: SpeechFrameworkErrorCode,
}

/// A framework error as the bridge reports it: domain, code and localized
/// description.
#[derive(Debug, Clone, PartialEq, Eq)]
pub struct FrameworkErrorPayload {
    pub domain: String,
    pub code: i64,
    pub localized_description: String,
}

/// The framework error a reported error stands for.
pub open spec fn framework_error_model(p: FrameworkErrorPayload) -> SpeechErrorModel {
    SpeechErrorModel::Framework {
        domain: p.domain@,
        code: p.code,
        message: p.localized_description@,
        kind: framework_kind(p.domain@, p.code),
    }
}

impl SpeechFrameworkError {
    /// The framework error for a reported error, classified by its domain and code.
    pub fn from_payload(payload: FrameworkErrorPayload) -> (e: Self)
        ensures
            e.model() == framework_error_model(payload),
    {
        let kind = SpeechFrameworkErrorCode::from_domain_code_and_message(
            payload.domain.as_str(),
            payload.code,
            payload.localized_description.as_str(),
        );
        SpeechFrameworkError {
            domain: payload.domain,
            code: payload.code,
            message: payload.localized_description,
            kind,
        }
    }
}

/// Errors returned by this crate.
#[derive(Debug, Clone, PartialEq, Eq)]
pub enum SpeechError {
    NotAuthorized(String),
    RecognizerUnavailable(String),
    AudioLoadFailed(String),
    RecognitionFailed(String),
    TimedOut(String),
    InvalidArgument(String),
    Unknown { code: i32, message: String },
    Framework(SpeechFrameworkError),
}

/// What a [`SpeechError`] says, with its strings taken as character sequences.
pub enum SpeechErrorModel {
    NotAuthorized(Seq<char>),
    RecognizerUnavailable(Seq<char>),
    AudioLoadFailed(Seq<char>),
    RecognitionFailed(Seq<char>),
    TimedOut(Seq<char>),
    InvalidArgument(Seq<char>),
    Unknown { code: i32, message: Seq<char> },
    Framework { domain: Seq<char>, code: i64, message: Seq<char>, kind: SpeechFrameworkErrorCode },
}

impl SpeechErrorModel {
    /// The human-readable message the error carries.
    pub open spec fn message(self) -> Seq<char> {
        match self {
            SpeechErrorModel::NotAuthorized(m) => m,
            SpeechErrorModel::RecognizerUnavailable(m) => m,
            SpeechErrorModel::AudioLoadFailed(m) => m,
            SpeechErrorModel::RecognitionFailed(m) => m,
            SpeechErrorModel::TimedOut(m) => m,
            SpeechErrorModel::InvalidArgument(m) => m,
            SpeechErrorModel::Unknown { message, .. } => message,
            SpeechErrorModel::Framework { message, .. } => message,
        }
    }

    /// The same error with its message replaced by `m`; every other field is kept.
    pub open spec fn with_message(self, m: Seq<char>) -> SpeechErrorModel {
        match self {
            SpeechErrorModel::NotAuthorized(_) => SpeechErrorModel::NotAuthorized(m),
            SpeechErrorModel::RecognizerUnavailable(_) => SpeechErrorModel::RecognizerUnavailable(m),
            SpeechErrorModel::AudioLoadFailed(_) => SpeechErrorModel::AudioLoadFailed(m),
            SpeechErrorModel::RecognitionFailed(_) => SpeechErrorModel::RecognitionFailed(m),
            SpeechErrorModel::TimedOut(_) => SpeechErrorModel::TimedOut(m),
            SpeechErrorModel::InvalidArgument(_) => SpeechErrorModel::InvalidArgument(m),
            SpeechErrorModel::Unknown { code, .. } => SpeechErrorModel::Unknown { code, message: m },
            SpeechErrorModel::Framework { domain, code, kind, .. } => SpeechErrorModel::Framework {
                domain,
                code,
                message: m,
                kind,
            },
        }
    }
}

impl SpeechFrameworkError {
    /// This framework error as a [`SpeechErrorModel`].
    pub open spec fn model(self) -> SpeechErrorModel {
        SpeechErrorModel::Framework {
            domain: self.domain@,
            code: self.code,
            message: self.message@,
            kind: self.kind,
        }
    }
}

impl View for SpeechError {
    type V = SpeechErrorModel;

    open spec fn view(&self) -> SpeechErrorModel {
        match self {
            SpeechError::NotAuthorized(m) => SpeechErrorModel::NotAuthorized(m@),
            SpeechError::RecognizerUnavailable(m) => SpeechErrorModel::RecognizerUnavailable(m@),
            SpeechError::AudioLoadFailed(m) => SpeechErrorModel::AudioLoadFailed(m@),
            SpeechError::RecognitionFailed(m) => SpeechErrorModel::RecognitionFailed(m@),
            SpeechError::TimedOut(m) => SpeechErrorModel::TimedOut(m@),
            SpeechError::InvalidArgument(m) => SpeechErrorModel::InvalidArgument(m@),
            SpeechError::Unknown { code, message } => SpeechErrorModel::Unknown {
                code: *code,
                message: message@,
            },
            SpeechError::Framework(f) => f.model(),
        }
    }
}

/// The error that a failing native status stands for, with message `m`.
pub open spec fn status_error(status: i32, m: Seq<char>) -> SpeechErrorModel {
    if status == STATUS_INVALID_ARGUMENT {
        SpeechErrorModel::InvalidArgument(m)
    } else if status == STATUS_NOT_AUTHORIZED {
        SpeechErrorModel::NotAuthorized(m)
    } else if status == STATUS_RECOGNIZER_UNAVAILABLE {
        SpeechErrorModel::RecognizerUnavailable(m)
    } else if status == STATUS_AUDIO_LOAD_FAILED {
        SpeechErrorModel::AudioLoadFailed(m)
    } else if status == STATUS_RECOGNITION_FAILED {
        SpeechErrorModel::RecognitionFailed(m)
    } else if status == STATUS_TIMED_OUT {
        SpeechErrorModel::TimedOut(m)
    } else {
        SpeechErrorModel::Unknown { code: status, message: m }
    }
}

/// The error for a failing native `status` that came with `message`.
pub fn error_from_status(status: i32, message: String) -> (e: SpeechError)
    ensures
        e@ == status_error(status, message@),
{
    if status == STATUS_INVALID_ARGUMENT {
        SpeechError::InvalidArgument(message)
    } else if status == STATUS_NOT_AUTHORIZED {
        SpeechError::NotAuthorized(message)
    } else if status == STATUS_RECOGNIZER_UNAVAILABLE {
        SpeechError::RecognizerUnavailable(message)
    } else if status == STATUS_AUDIO_LOAD_FAILED {
        SpeechError::AudioLoadFailed(message)
    } else if status == STATUS_RECOGNITION_FAILED {
        SpeechError::RecognitionFailed(message)
    } else if status == STATUS_TIMED_OUT {
        SpeechError::TimedOut(message)
    } else {
        SpeechError::Unknown { code: status, message }
    }
}

/// Replaces the message of `error` by `message`, keeping its variant and
/// every other field.
pub fn with_fallback_message(error: SpeechError, message: String) -> (e: SpeechError)
    ensures
        e@ == error@.with_message(message@),
{
    match error {
        SpeechError::NotAuthorized(_) => SpeechError::NotAuthorized(message),
        SpeechError::RecognizerUnavailable(_) => SpeechError::RecognizerUnavailable(message),
        SpeechError::AudioLoadFailed(_) => SpeechError::AudioLoadFailed(message),
        SpeechError::RecognitionFailed(_) => SpeechError::RecognitionFailed(message),
        SpeechError::TimedOut(_) => SpeechError::TimedOut(message),
        SpeechError::InvalidArgument(_) => SpeechError::InvalidArgument(message),
        SpeechError::Unknown { code, .. } => SpeechError::Unknown { code, message },
        SpeechError::Framework(framework) => SpeechError::Framework(
            SpeechFrameworkError {
                domain: framework.domain,
                code: framework.code,
                message,
                kind: framework.kind,
            },
        ),
    }
}

/// The error for a failing native call that answered `status` and, maybe,
/// a message. When the message decodes as a reported framework error,
/// `decoded` holds what it decoded to.
///
/// No message: the plain status error with an empty message. A message
/// that decodes: that framework error, classified by its domain and code.
/// Any other message: the status error carrying that message.
pub fn error_from_status_or_json(
    status: i32,
    message: Option<String>,
    decoded: Option<FrameworkErrorPayload>,
) -> (e: SpeechError)
    ensures
        message is None ==> e@ == status_error(status, Seq::empty()),
        message is Some && decoded is Some ==> e@ == framework_error_model(decoded->0),
        message is Some && decoded is None ==> e@ == status_error(status, message->0@),
{
    match message {
        None => error_from_status(status, String::new()),
        Some(message) => match decoded {
            Some(payload) => SpeechError::Framework(SpeechFrameworkError::from_payload(payload)),
            None => with_fallback_message(error_from_status(status, String::new()), message),
        },
    }
}

/// Replacing an error's message twice leaves only the second message.
pub proof fn lemma_fallback_message_last_wins(e: SpeechErrorModel, first: Seq<char>, second: Seq<char>)
    ensures
        e.with_message(first).with_message(second) == e.with_message(second),
{
}

/// A replaced message is the message the error then carries, and replacing
/// the message an error already carries changes nothing.
pub proof fn lemma_fallback_message_reads_back(e: SpeechErrorModel, m: Seq<char>)
    ensures
        e.with_message(m).message() == m,
        e.with_message(e.message()) == e,
{
}

/// The error of a status carries the message it was given, and every
/// failing status other than the six named ones is reported as unknown
/// with that status as its code.
pub proof fn lemma_status_error_message(status: i32, m: Seq<char>)
    ensures
        status_error(status, m).message() == m,
        status_error(status, Seq::empty()).with_message(m) == status_error(status, m),
        (status < STATUS_TIMED_OUT || status > STATUS_INVALID_ARGUMENT) ==> status_error(status, m)
            == (SpeechErrorModel::Unknown { code: status, message: m }),
{
}

} // verus!
