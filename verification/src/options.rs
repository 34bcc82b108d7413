//! The closed vocabularies that configure analyzer modules, each with the
//! wire name the native bridge expects.
use vstd::prelude::*;

verus! {

/// `SpeechTranscriber.Preset`.
#[derive(Debug, Clone, Copy, PartialEq, Eq, Hash, Structural)]
pub enum SpeechTranscriberPreset {
    Transcription,
    TranscriptionWithAlternatives,
    TimeIndexedTranscriptionWithAlternatives,
    ProgressiveTranscription,
    TimeIndexedProgressiveTranscription,
}

impl SpeechTranscriberPreset {
    /// The name the bridge knows this preset by.
    pub open spec fn wire_name(self) -> Seq<char> {
        match self {
            SpeechTranscriberPreset::Transcription => "transcription"@,
            SpeechTranscriberPreset::TranscriptionWithAlternatives => "transcriptionWithAlternatives"@,
            SpeechTranscriberPreset::TimeIndexedTranscriptionWithAlternatives =>
                "timeIndexedTranscriptionWithAlternatives"@,
            SpeechTranscriberPreset::ProgressiveTranscription => "progressiveTranscription"@,
            SpeechTranscriberPreset::TimeIndexedProgressiveTranscription =>
                "timeIndexedProgressiveTranscription"@,
        }
    }

    pub fn as_str(self) -> (s: &'static str)
        ensures
            s@ == self.wire_name(),
    {
        match self {
            SpeechTranscriberPreset::Transcription => "transcription",
            SpeechTranscriberPreset::TranscriptionWithAlternatives => "transcriptionWithAlternatives",
            SpeechTranscriberPreset::TimeIndexedTranscriptionWithAlternatives =>
                "timeIndexedTranscriptionWithAlternatives",
            SpeechTranscriberPreset::ProgressiveTranscription => "progressiveTranscription",
            SpeechTranscriberPreset::TimeIndexedProgressiveTranscription =>
                "timeIndexedProgressiveTranscription",
        }
    }
}

/// `SpeechTranscriber.TranscriptionOption`.
#[derive(Debug, Clone, Copy, PartialEq, Eq, Hash, Structural)]
pub enum SpeechTranscriptionOption {
    EtiquetteReplacements,
}

impl SpeechTranscriptionOption {
    /// The name the bridge knows this option by.
    pub open spec fn wire_name(self) -> Seq<char> {
        match self {
            SpeechTranscriptionOption::EtiquetteReplacements => "etiquetteReplacements"@,
        }
    }

    pub fn as_str(self) -> (s: &'static str)
        ensures
            s@ == self.wire_name(),
    {
        match self {
            SpeechTranscriptionOption::EtiquetteReplacements => "etiquetteReplacements",
        }
    }
}

/// `SpeechTranscriber.ReportingOption`.
#[derive(Debug, Clone, Copy, PartialEq, Eq, Hash, Structural)]
pub enum SpeechTranscriberReportingOption {
    VolatileResults,
    AlternativeTranscriptions,
    FastResults,
}

impl SpeechTranscriberReportingOption {
    /// The name the bridge knows this option by.
    pub open spec fn wire_name(self) -> Seq<char> {
        match self {
            SpeechTranscriberReportingOption::VolatileResults => "volatileResults"@,
            SpeechTranscriberReportingOption::AlternativeTranscriptions => "alternativeTranscriptions"@,
            SpeechTranscriberReportingOption::FastResults => "fastResults"@,
        }
    }

    pub fn as_str(self) -> (s: &'static str)
        ensures
            s@ == self.wire_name(),
    {
        match self {
            SpeechTranscriberReportingOption::VolatileResults => "volatileResults",
            SpeechTranscriberReportingOption::AlternativeTranscriptions => "alternativeTranscriptions",
            SpeechTranscriberReportingOption::FastResults => "fastResults",
        }
    }
}

/// `SpeechTranscriber.ResultAttributeOption`.
#[derive(Debug, Clone, Copy, PartialEq, Eq, Hash, Structural)]
pub enum SpeechTranscriberResultAttributeOption {
    AudioTimeRange,
    TranscriptionConfidence,
}

impl SpeechTranscriberResultAttributeOption {
    /// The name the bridge knows this option by.
    pub open spec fn wire_name(self) -> Seq<char> {
        match self {
            SpeechTranscriberResultAttributeOption::AudioTimeRange => "audioTimeRange"@,
            SpeechTranscriberResultAttributeOption::TranscriptionConfidence => "transcriptionConfidence"@,
        }
    }

    pub fn as_str(self) -> (s: &'static str)
        ensures
            s@ == self.wire_name(),
    {
        match self {
            SpeechTranscriberResultAttributeOption::AudioTimeRange => "audioTimeRange",
            SpeechTranscriberResultAttributeOption::TranscriptionConfidence => "transcriptionConfidence",
        }
    }
}

/// `SpeechDetector.SensitivityLevel`.
#[derive(Debug, Clone, Copy, PartialEq, Eq, Hash, Structural)]
pub enum SpeechDetectorSensitivityLevel {
    Low,
    Medium,
    High,
}

impl SpeechDetectorSensitivityLevel {
    /// The name the bridge knows this level by.
    pub open spec fn wire_name(self) -> Seq<char> {
        match self {
            SpeechDetectorSensitivityLevel::Low => "low"@,
            SpeechDetectorSensitivityLevel::Medium => "medium"@,
            SpeechDetectorSensitivityLevel::High => "high"@,
        }
    }

    pub fn as_str(self) -> (s: &'static str)
        ensures
            s@ == self.wire_name(),
    {
        match self {
            SpeechDetectorSensitivityLevel::Low => "low",
            SpeechDetectorSensitivityLevel::Medium => "medium",
            SpeechDetectorSensitivityLevel::High => "high",
        }
    }
}

/// `SpeechAnalyzer.Options` priority mapping.
#[derive(Debug, Clone, Copy, PartialEq, Eq, Hash, Structural)]
pub enum SpeechAnalyzerPriority {
    Background,
    Utility,
    Low,
    Medium,
    High,
    UserInitiated,
}

impl SpeechAnalyzerPriority {
    /// The name the bridge knows this priority by.
    pub open spec fn wire_name(self) -> Seq<char> {
        match self {
            SpeechAnalyzerPriority::Background => "background"@,
            SpeechAnalyzerPriority::Utility => "utility"@,
            SpeechAnalyzerPriority::Low => "low"@,
            SpeechAnalyzerPriority::Medium => "medium"@,
            SpeechAnalyzerPriority::High => "high"@,
            SpeechAnalyzerPriority::UserInitiated => "userInitiated"@,
        }
    }

    pub fn as_str(self) -> (s: &'static str)
        ensures
            s@ == self.wire_name(),
    {
        match self {
            SpeechAnalyzerPriority::Background => "background",
            SpeechAnalyzerPriority::Utility => "utility",
            SpeechAnalyzerPriority::Low => "low",
            SpeechAnalyzerPriority::Medium => "medium",
            SpeechAnalyzerPriority::High => "high",
            SpeechAnalyzerPriority::UserInitiated => "userInitiated",
        }
    }
}

/// `SpeechAnalyzer.Options.ModelRetention`.
#[derive(Debug, Clone, Copy, PartialEq, Eq, Hash, Structural)]
pub enum SpeechAnalyzerModelRetention {
    WhileInUse,
    Lingering,
    ProcessLifetime,
}

impl SpeechAnalyzerModelRetention {
    /// The name the bridge knows this policy by.
    pub open spec fn wire_name(self) -> Seq<char> {
        match self {
            SpeechAnalyzerModelRetention::WhileInUse => "whileInUse"@,
            SpeechAnalyzerModelRetention::Lingering => "lingering"@,
            SpeechAnalyzerModelRetention::ProcessLifetime => "processLifetime"@,
        }
    }

    pub fn as_str(self) -> (s: &'static str)
        ensures
            s@ == self.wire_name(),
    {
        match self {
            SpeechAnalyzerModelRetention::WhileInUse => "whileInUse",
            SpeechAnalyzerModelRetention::Lingering => "lingering",
            SpeechAnalyzerModelRetention::ProcessLifetime => "processLifetime",
        }
    }
}

/// Distinct presets have distinct wire names, so the bridge can tell them apart.
pub proof fn lemma_preset_names_distinct(a: SpeechTranscriberPreset, b: SpeechTranscriberPreset)
    ensures
        a.wire_name() == b.wire_name() ==> a == b,
{
    reveal_strlit("transcription");
    reveal_strlit("transcriptionWithAlternatives");
    reveal_strlit("timeIndexedTranscriptionWithAlternatives");
    reveal_strlit("progressiveTranscription");
    reveal_strlit("timeIndexedProgressiveTranscription");
    if a.wire_name() == b.wire_name() && a != b {
        assert(a.wire_name().len() == b.wire_name().len());
        assert(a.wire_name()[1] == b.wire_name()[1]);
    }
}

/// Distinct reporting options have distinct wire names.
pub proof fn lemma_reporting_names_distinct(
    a: SpeechTranscriberReportingOption,
    b: SpeechTranscriberReportingOption,
)
    ensures
        a.wire_name() == b.wire_name() ==> a == b,
{
    reveal_strlit("volatileResults");
    reveal_strlit("alternativeTranscriptions");
    reveal_strlit("fastResults");
    if a.wire_name() == b.wire_name() && a != b {
        assert(a.wire_name().len() == b.wire_name().len());
    }
}

/// Distinct result attribute options have distinct wire names.
pub proof fn lemma_attribute_names_distinct(
    a: SpeechTranscriberResultAttributeOption,
    b: SpeechTranscriberResultAttributeOption,
)
    ensures
        a.wire_name() == b.wire_name() ==> a == b,
{
    reveal_strlit("audioTimeRange");
    reveal_strlit("transcriptionConfidence");
    if a.wire_name() == b.wire_name() && a != b {
        assert(a.wire_name().len() == b.wire_name().len());
    }
}

/// Distinct sensitivity levels have distinct wire names.
pub proof fn lemma_sensitivity_names_distinct(
    a: SpeechDetectorSensitivityLevel,
    b: SpeechDetectorSensitivityLevel,
)
    ensures
        a.wire_name() == b.wire_name() ==> a == b,
{
    reveal_strlit("low");
    reveal_strlit("medium");
    reveal_strlit("high");
    if a.wire_name() == b.wire_name() && a != b {
        assert(a.wire_name().len() == b.wire_name().len());
    }
}

/// Distinct priorities have distinct wire names.
pub proof fn lemma_priority_names_distinct(a: SpeechAnalyzerPriority, b: SpeechAnalyzerPriority)
    ensures
        a.wire_name() == b.wire_name() ==> a == b,
{
    reveal_strlit("background");
    reveal_strlit("utility");
    reveal_strlit("low");
    reveal_strlit("medium");
    reveal_strlit("high");
    reveal_strlit("userInitiated");
    if a.wire_name() == b.wire_name() && a != b {
        assert(a.wire_name().len() == b.wire_name().len());
    }
}

/// Distinct retention policies have distinct wire names.
pub proof fn lemma_retention_names_distinct(
    a: SpeechAnalyzerModelRetention,
    b: SpeechAnalyzerModelRetention,
)
    ensures
        a.wire_name() == b.wire_name() ==> a == b,
{
    reveal_strlit("whileInUse");
    reveal_strlit("lingering");
    reveal_strlit("processLifetime");
    if a.wire_name() == b.wire_name() && a != b {
        assert(a.wire_name().len() == b.wire_name().len());
    }
}

/// A value that the bridge knows by a fixed name.
pub trait WireNamed: Copy {
    /// The name.
    spec fn wire_text(&self) -> Seq<char>;

    /// The name, as a string slice.
    fn wire_str(&self) -> (s: &'static str)
        ensures
            s@ == self.wire_text(),
    ;
}

impl WireNamed for SpeechTranscriptionOption {
    open spec fn wire_text(&self) -> Seq<char> {
        self.wire_name()
    }

    fn wire_str(&self) -> (s: &'static str) {
        self.as_str()
    }
}

impl WireNamed for SpeechTranscriberReportingOption {
    open spec fn wire_text(&self) -> Seq<char> {
        self.wire_name()
    }

    fn wire_str(&self) -> (s: &'static str) {
        self.as_str()
    }
}

impl WireNamed for SpeechTranscriberResultAttributeOption {
    open spec fn wire_text(&self) -> Seq<char> {
        self.wire_name()
    }

    fn wire_str(&self) -> (s: &'static str) {
        self.as_str()
    }
}

} // verus!
