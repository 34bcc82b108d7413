use speech::payload::{
    wire_names, AnalysisContextPayload, SpeechAnalyzerOptionsPayload, SpeechAnalyzerPayload,
    SpeechDetectorPayload, SpeechModulePayload, SpeechTranscriberPayload,
};
use speech::{
    AnalysisContext, ContextualStringsTag, SpeechAnalyzer, SpeechAnalyzerModelRetention,
    SpeechAnalyzerOptions, SpeechAnalyzerPriority, SpeechDetectionOptions, SpeechDetector,
    SpeechDetectorSensitivityLevel, SpeechModule, SpeechTranscriber, SpeechTranscriberOptions,
    SpeechTranscriberPreset, SpeechTranscriberReportingOption,
    SpeechTranscriberResultAttributeOption, UserDataTag,
};

fn strings(v: &[&str]) -> Vec<String> {
    v.iter().map(|s| s.to_string()).collect()
}

#[test]
fn preset_transcriber_payload() {
    let t = SpeechTranscriber::new(
        "en-US".to_string(),
        SpeechTranscriberPreset::TimeIndexedProgressiveTranscription,
    );
    let p = SpeechTranscriberPayload::from_transcriber(&t);
    assert_eq!(p.locale_identifier, "en-US");
    assert_eq!(p.preset.as_deref(), Some("timeIndexedProgressiveTranscription"));
    assert_eq!(p.transcription_options, None);
    assert_eq!(p.reporting_options, None);
    assert_eq!(p.attribute_options, None);
}

#[test]
fn custom_transcriber_payload_leaves_out_empty_lists() {
    let options = SpeechTranscriberOptions::new()
        .with_reporting_options(vec![
            SpeechTranscriberReportingOption::VolatileResults,
            SpeechTranscriberReportingOption::AlternativeTranscriptions,
        ])
        .with_attribute_options(vec![
            SpeechTranscriberResultAttributeOption::TranscriptionConfidence,
        ]);
    let t = SpeechTranscriber::with_options("de-DE".to_string(), options);
    let p = SpeechTranscriberPayload::from_transcriber(&t);
    assert_eq!(p.locale_identifier, "de-DE");
    assert_eq!(p.preset, None);
    assert_eq!(p.transcription_options, None);
    assert_eq!(
        p.reporting_options,
        Some(strings(&["volatileResults", "alternativeTranscriptions"]))
    );
    assert_eq!(p.attribute_options, Some(strings(&["transcriptionConfidence"])));
}

#[test]
fn empty_custom_transcriber_payload_has_nothing() {
    let t = SpeechTranscriber::with_options("ja-JP".to_string(), SpeechTranscriberOptions::new());
    let p = SpeechTranscriberPayload::from_transcriber(&t);
    assert_eq!(p.preset, None);
    assert_eq!(p.transcription_options, None);
    assert_eq!(p.reporting_options, None);
    assert_eq!(p.attribute_options, None);
}

#[test]
fn wire_names_of_lists() {
    let none: [SpeechTranscriberReportingOption; 0] = [];
    assert_eq!(wire_names(&none), None);
    assert_eq!(
        wire_names(&[
            SpeechTranscriberReportingOption::FastResults,
            SpeechTranscriberReportingOption::FastResults
        ]),
        Some(strings(&["fastResults", "fastResults"]))
    );
}

#[test]
fn detector_and_options_payloads() {
    let d = SpeechDetector::new(SpeechDetectionOptions::new(SpeechDetectorSensitivityLevel::High), false);
    let p = SpeechDetectorPayload::from_detector(&d);
    assert_eq!(p.sensitivity_level, "high");
    assert!(!p.report_results);
    let o = SpeechAnalyzerOptionsPayload::from_options(SpeechAnalyzerOptions::new(
        SpeechAnalyzerPriority::Background,
        SpeechAnalyzerModelRetention::Lingering,
    ));
    assert_eq!(o.priority, "background");
    assert_eq!(o.model_retention, "lingering");
}

#[test]
fn empty_context_payload_is_absent() {
    let p = AnalysisContextPayload::from_context(&AnalysisContext::new());
    assert_eq!(p.contextual_strings, None);
    assert_eq!(p.user_data, None);
}

#[test]
fn context_payload_lists_entries_in_tag_order() {
    let context = AnalysisContext::new()
        .with_contextual_strings(ContextualStringsTag::new("names".to_string()), strings(&["Ada"]))
        .with_contextual_strings(ContextualStringsTag::general(), strings(&["Verus", "Z3"]))
        .with_user_data(UserDataTag::new("b".to_string()), "2".to_string())
        .with_user_data(UserDataTag::new("a".to_string()), "1".to_string());
    let p = AnalysisContextPayload::from_context(&context);
    assert_eq!(
        p.contextual_strings,
        Some(vec![
            ("general".to_string(), strings(&["Verus", "Z3"])),
            ("names".to_string(), strings(&["Ada"])),
        ])
    );
    assert_eq!(
        p.user_data,
        Some(vec![("a".to_string(), "1".to_string()), ("b".to_string(), "2".to_string())])
    );
}

#[test]
fn module_payload_names_the_kind() {
    let t = SpeechTranscriber::new("en-GB".to_string(), SpeechTranscriberPreset::Transcription);
    let p = SpeechModulePayload::from_descriptor(&t.descriptor());
    assert_eq!(p.kind, t.descriptor().kind());
    assert_eq!(p.transcriber, Some(SpeechTranscriberPayload::from_transcriber(&t)));
    assert_eq!(p.detector, None);
    let d = SpeechDetector::default();
    let q = SpeechModulePayload::from_descriptor(&d.descriptor());
    assert_eq!(q.kind, "speechDetector");
    assert_eq!(q.transcriber, None);
    assert_eq!(q.detector, Some(SpeechDetectorPayload::from_detector(&d)));
}

#[test]
fn analyzer_payload_collects_everything() {
    let t = SpeechTranscriber::new("en-US".to_string(), SpeechTranscriberPreset::Transcription);
    let d = SpeechDetector::default();
    let analyzer = SpeechAnalyzer::new(vec![t.descriptor(), d.descriptor()])
        .with_options(SpeechAnalyzerOptions::default())
        .with_context(AnalysisContext::new().with_user_data(UserDataTag::new("u".to_string()), "v".to_string()));
    let p = SpeechAnalyzerPayload::from_analyzer(&analyzer);
    assert_eq!(p.modules.len(), 2);
    assert_eq!(p.modules[0].kind, "speechTranscriber");
    assert_eq!(p.modules[1].kind, "speechDetector");
    assert_eq!(
        p.options,
        Some(SpeechAnalyzerOptionsPayload { priority: "medium", model_retention: "whileInUse" })
    );
    assert_eq!(p.context.user_data, Some(vec![("u".to_string(), "v".to_string())]));
    assert_eq!(p.context.contextual_strings, None);
    let bare = SpeechAnalyzerPayload::from_analyzer(&SpeechAnalyzer::new(vec![]));
    assert!(bare.modules.is_empty());
    assert_eq!(bare.options, None);
}
