//! Verified core of a binding to Apple's Speech framework: the module
//! descriptors, option sets and analysis contexts that configure the
//! analyzer pipeline, the payloads handed to the native bridge, the decoding
//! of what the bridge reports back, and the crate's error values.
use vstd::prelude::*;

pub mod analyzer;
pub mod attributed;
pub mod context;
pub mod error;
pub mod language_model;
pub mod options;
pub mod output;
pub mod payload;
pub mod task;
pub mod text;

pub use analyzer::{
    SpeechAnalyzer, SpeechAnalyzerOptions, SpeechAttributes, SpeechDetectionOptions,
    SpeechDetector, SpeechModels, SpeechModule, SpeechModuleDescriptor, SpeechTranscriber,
    SpeechTranscriberOptions,
};
pub use context::{AnalysisContext, ContextualStringsTag, TagMap, UserDataTag};
pub use error::{
    FrameworkErrorPayload, SpeechError, SpeechFrameworkError, SpeechFrameworkErrorCode,
    SPEECH_ERROR_DOMAIN,
};
pub use language_model::SpeechLanguageModel;
pub use options::{
    SpeechAnalyzerModelRetention, SpeechAnalyzerPriority, SpeechDetectorSensitivityLevel,
    SpeechTranscriberPreset, SpeechTranscriberReportingOption,
    SpeechTranscriberResultAttributeOption, SpeechTranscriptionOption,
};
pub use task::{TaskErrorInfo, TaskState};

verus! {

} // verus!
