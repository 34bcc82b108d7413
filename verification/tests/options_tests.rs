use speech::{
    SpeechAnalyzerModelRetention, SpeechAnalyzerPriority, SpeechDetectorSensitivityLevel,
    SpeechTranscriberPreset, SpeechTranscriberReportingOption,
    SpeechTranscriberResultAttributeOption, SpeechTranscriptionOption,
};

#[test]
fn preset_wire_names() {
    assert_eq!(SpeechTranscriberPreset::Transcription.as_str(), "transcription");
    assert_eq!(
        SpeechTranscriberPreset::TranscriptionWithAlternatives.as_str(),
        "transcriptionWithAlternatives"
    );
    assert_eq!(
        SpeechTranscriberPreset::TimeIndexedTranscriptionWithAlternatives.as_str(),
        "timeIndexedTranscriptionWithAlternatives"
    );
    assert_eq!(
        SpeechTranscriberPreset::ProgressiveTranscription.as_str(),
        "progressiveTranscription"
    );
    assert_eq!(
        SpeechTranscriberPreset::TimeIndexedProgressiveTranscription.as_str(),
        "timeIndexedProgressiveTranscription"
    );
}

#[test]
fn transcriber_option_wire_names() {
    assert_eq!(
        SpeechTranscriptionOption::EtiquetteReplacements.as_str(),
        "etiquetteReplacements"
    );
    assert_eq!(SpeechTranscriberReportingOption::VolatileResults.as_str(), "volatileResults");
    assert_eq!(
        SpeechTranscriberReportingOption::AlternativeTranscriptions.as_str(),
        "alternativeTranscriptions"
    );
    assert_eq!(SpeechTranscriberReportingOption::FastResults.as_str(), "fastResults");
    assert_eq!(SpeechTranscriberResultAttributeOption::AudioTimeRange.as_str(), "audioTimeRange");
    assert_eq!(
        SpeechTranscriberResultAttributeOption::TranscriptionConfidence.as_str(),
        "transcriptionConfidence"
    );
}

#[test]
fn detector_and_analyzer_wire_names() {
    assert_eq!(SpeechDetectorSensitivityLevel::Low.as_str(), "low");
    assert_eq!(SpeechDetectorSensitivityLevel::Medium.as_str(), "medium");
    assert_eq!(SpeechDetectorSensitivityLevel::High.as_str(), "high");
    assert_eq!(SpeechAnalyzerPriority::Background.as_str(), "background");
    assert_eq!(SpeechAnalyzerPriority::Utility.as_str(), "utility");
    assert_eq!(SpeechAnalyzerPriority::Low.as_str(), "low");
    assert_eq!(SpeechAnalyzerPriority::Medium.as_str(), "medium");
    assert_eq!(SpeechAnalyzerPriority::High.as_str(), "high");
    assert_eq!(SpeechAnalyzerPriority::UserInitiated.as_str(), "userInitiated");
    assert_eq!(SpeechAnalyzerModelRetention::WhileInUse.as_str(), "whileInUse");
    assert_eq!(SpeechAnalyzerModelRetention::Lingering.as_str(), "lingering");
    assert_eq!(SpeechAnalyzerModelRetention::ProcessLifetime.as_str(), "processLifetime");
}

#[test]
fn wire_names_are_distinct_within_each_vocabulary() {
    let presets = [
        SpeechTranscriberPreset::Transcription,
        SpeechTranscriberPreset::TranscriptionWithAlternatives,
        SpeechTranscriberPreset::TimeIndexedTranscriptionWithAlternatives,
        SpeechTranscriberPreset::ProgressiveTranscription,
        SpeechTranscriberPreset::TimeIndexedProgressiveTranscription,
    ];
    for a in presets {
        for b in presets {
            assert_eq!(a == b, a.as_str() == b.as_str());
        }
    }
    let priorities = [
        SpeechAnalyzerPriority::Background,
        SpeechAnalyzerPriority::Utility,
        SpeechAnalyzerPriority::Low,
        SpeechAnalyzerPriority::Medium,
        SpeechAnalyzerPriority::High,
        SpeechAnalyzerPriority::UserInitiated,
    ];
    for a in priorities {
        for b in priorities {
            assert_eq!(a == b, a.as_str() == b.as_str());
        }
    }
}
