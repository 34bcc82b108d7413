use speech::output::{
    check_first_module_output, resolve_module_outputs, ModuleOutputEntry, SpeechModuleKind,
};
use speech::{
    SpeechAnalyzer, SpeechDetector, SpeechError, SpeechModule, SpeechTranscriber,
    SpeechTranscriberPreset,
};

fn entry(index: usize, kind: &str) -> ModuleOutputEntry {
    ModuleOutputEntry { module_index: index, kind: kind.to_string() }
}

#[test]
fn analyzer_without_modules_is_refused() {
    assert_eq!(
        SpeechAnalyzer::new(vec![]).require_modules(),
        Err(SpeechError::InvalidArgument("speech analyzer requires at least one module".to_string()))
    );
    assert_eq!(
        SpeechAnalyzer::new(vec![SpeechDetector::default().descriptor()]).require_modules(),
        Ok(())
    );
}

#[test]
fn outputs_resolve_to_their_modules() {
    let t = SpeechTranscriber::new("en-US".to_string(), SpeechTranscriberPreset::Transcription);
    let modules = vec![t.descriptor(), SpeechDetector::default().descriptor()];
    let resolved = resolve_module_outputs(
        &modules,
        &[entry(1, "speechDetector"), entry(0, "speechTranscriber"), entry(1, "speechTranscriber")],
    )
    .unwrap();
    assert_eq!(resolved.len(), 3);
    assert_eq!(resolved[0].module_index, 1);
    assert_eq!(resolved[0].module, modules[1]);
    assert_eq!(resolved[0].kind, SpeechModuleKind::SpeechDetector);
    assert_eq!(resolved[1].module, modules[0]);
    assert_eq!(resolved[1].kind, SpeechModuleKind::SpeechTranscriber);
    assert_eq!(resolved[2].kind, SpeechModuleKind::SpeechTranscriber);
    assert!(resolve_module_outputs(&modules, &[]).unwrap().is_empty());
}

#[test]
fn unknown_module_index_is_refused() {
    let modules = vec![SpeechDetector::default().descriptor()];
    assert_eq!(
        resolve_module_outputs(&modules, &[entry(0, "speechDetector"), entry(17, "speechDetector")]),
        Err(SpeechError::InvalidArgument(
            "speech analyzer output referenced unknown module index 17".to_string()
        ))
    );
    assert_eq!(
        resolve_module_outputs(&[], &[entry(0, "speechDetector")]),
        Err(SpeechError::InvalidArgument(
            "speech analyzer output referenced unknown module index 0".to_string()
        ))
    );
}

#[test]
fn unsupported_module_kind_is_refused() {
    let modules = vec![SpeechDetector::default().descriptor()];
    assert_eq!(
        resolve_module_outputs(&modules, &[entry(0, "speakerDiarizer")]),
        Err(SpeechError::InvalidArgument(
            "speech analyzer returned unsupported module kind speakerDiarizer".to_string()
        ))
    );
}

#[test]
fn first_bad_block_decides_the_error() {
    let modules = vec![SpeechDetector::default().descriptor()];
    assert_eq!(
        resolve_module_outputs(&modules, &[entry(0, "other"), entry(5, "speechDetector")]),
        Err(SpeechError::InvalidArgument(
            "speech analyzer returned unsupported module kind other".to_string()
        ))
    );
    assert_eq!(
        resolve_module_outputs(&modules, &[entry(3, "other")]),
        Err(SpeechError::InvalidArgument(
            "speech analyzer output referenced unknown module index 3".to_string()
        ))
    );
}

#[test]
fn first_output_checks() {
    assert_eq!(
        check_first_module_output(Some(SpeechModuleKind::SpeechTranscriber), SpeechModuleKind::SpeechTranscriber),
        Ok(())
    );
    assert_eq!(
        check_first_module_output(None, SpeechModuleKind::SpeechTranscriber),
        Err(SpeechError::RecognitionFailed("speech analyzer produced no transcriber output".to_string()))
    );
    assert_eq!(
        check_first_module_output(None, SpeechModuleKind::SpeechDetector),
        Err(SpeechError::RecognitionFailed("speech analyzer produced no detector output".to_string()))
    );
    assert_eq!(
        check_first_module_output(Some(SpeechModuleKind::SpeechDetector), SpeechModuleKind::SpeechTranscriber),
        Err(SpeechError::RecognitionFailed(
            "speech analyzer returned detector results for a speech transcriber".to_string()
        ))
    );
    assert_eq!(
        check_first_module_output(Some(SpeechModuleKind::SpeechTranscriber), SpeechModuleKind::SpeechDetector),
        Err(SpeechError::RecognitionFailed(
            "speech analyzer returned transcriber results for a speech detector".to_string()
        ))
    );
}

#[test]
fn descriptor_kind_names_resolve_to_their_kinds() {
    let t = SpeechTranscriber::new("en-US".to_string(), SpeechTranscriberPreset::Transcription);
    let modules = vec![t.descriptor(), SpeechDetector::default().descriptor()];
    let entries: Vec<ModuleOutputEntry> = modules
        .iter()
        .enumerate()
        .map(|(i, m)| entry(i, m.kind()))
        .collect();
    let resolved = resolve_module_outputs(&modules, &entries).unwrap();
    assert_eq!(resolved[0].kind, SpeechModuleKind::SpeechTranscriber);
    assert_eq!(resolved[1].kind, SpeechModuleKind::SpeechDetector);
}
