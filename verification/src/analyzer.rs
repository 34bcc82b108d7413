//! Analyzer modules and their configuration: the transcriber with its
//! preset or explicit options, the speech detector, the analyzer options,
//! the module descriptors and the analyzer that runs them.
use vstd::prelude::*;
use crate::context::{AnalysisContext, ContextModel};
use crate::options::{
    SpeechAnalyzerModelRetention, SpeechAnalyzerPriority, SpeechDetectorSensitivityLevel,
    SpeechTranscriberPreset, SpeechTranscriberReportingOption,
    SpeechTranscriberResultAttributeOption, SpeechTranscriptionOption,
};

verus! {

/// A copy of a vector of plain values.
fn copy_vec<T: Copy>(v: &Vec<T>) -> (r: Vec<T>)
    ensures
        r@ == v@,
{
    let mut r: Vec<T> = Vec::new();
    let mut i: usize = 0;
    while i < v.len()
        invariant
            i <= v@.len(),
            r@ == v@.subrange(0, i as int),
        decreases v@.len() - i,
    {
        r.push(v[i]);
        i = i + 1;
        assert(r@ =~= v@.subrange(0, i as int));
    }
    assert(r@ =~= v@);
    r
}

/// Namespace for Speech attributed-text metadata.
#[derive(Debug, Clone, Copy, Default, PartialEq, Eq, Hash)]
pub struct SpeechAttributes;

/// `SpeechModels` lifecycle helpers.
#[derive(Debug, Clone, Copy, Default, PartialEq, Eq, Hash)]
pub struct SpeechModels;

/// What a [`SpeechTranscriberOptions`] holds.
pub struct TranscriberOptionsModel {
    pub transcription: Seq<SpeechTranscriptionOption>,
    pub reporting: Seq<SpeechTranscriberReportingOption>,
    pub attributes: Seq<SpeechTranscriberResultAttributeOption>,
}

/// Explicit `SpeechTranscriber` configuration.
#[derive(Debug, PartialEq, Eq)]
pub struct SpeechTranscriberOptions {
    transcription: Vec<SpeechTranscriptionOption>,
    reporting: Vec<SpeechTranscriberReportingOption>,
    attributes: Vec<SpeechTranscriberResultAttributeOption>,
}

impl View for SpeechTranscriberOptions {
    type V = TranscriberOptionsModel;

    closed spec fn view(&self) -> TranscriberOptionsModel {
        TranscriberOptionsModel {
            transcription: self.transcription@,
            reporting: self.reporting@,
            attributes: self.attributes@,
        }
    }
}

impl SpeechTranscriberOptions {
    /// Options that select nothing.
    pub fn new() -> (o: Self)
        ensures
            o@.transcription == Seq::<SpeechTranscriptionOption>::empty(),
            o@.reporting == Seq::<SpeechTranscriberReportingOption>::empty(),
            o@.attributes == Seq::<SpeechTranscriberResultAttributeOption>::empty(),
    {
        SpeechTranscriberOptions {
            transcription: Vec::new(),
            reporting: Vec::new(),
            attributes: Vec::new(),
        }
    }

    pub fn transcription_options(&self) -> (s: &[SpeechTranscriptionOption])
        ensures
            s@ == self@.transcription,
    {
        self.transcription.as_slice()
    }

    pub fn with_transcription_options(self, transcription_options: Vec<SpeechTranscriptionOption>) -> (o: Self)
        ensures
            o@ == (TranscriberOptionsModel { transcription: transcription_options@, ..self@ }),
    {
        let mut o = self;
        o.set_transcription_options(transcription_options);
        o
    }

    pub fn set_transcription_options(&mut self, transcription_options: Vec<SpeechTranscriptionOption>)
        ensures
            final(self)@ == (TranscriberOptionsModel { transcription: transcription_options@, ..old(self)@ }),
    {
        self.transcription = transcription_options;
    }

    pub fn reporting_options(&self) -> (s: &[SpeechTranscriberReportingOption])
        ensures
            s@ == self@.reporting,
    {
        self.reporting.as_slice()
    }

    pub fn with_reporting_options(self, reporting_options: Vec<SpeechTranscriberReportingOption>) -> (o: Self)
        ensures
            o@ == (TranscriberOptionsModel { reporting: reporting_options@, ..self@ }),
    {
        let mut o = self;
        o.set_reporting_options(reporting_options);
        o
    }

    pub fn set_reporting_options(&mut self, reporting_options: Vec<SpeechTranscriberReportingOption>)
        ensures
            final(self)@ == (TranscriberOptionsModel { reporting: reporting_options@, ..old(self)@ }),
    {
        self.reporting = reporting_options;
    }

    pub fn attribute_options(&self) -> (s: &[SpeechTranscriberResultAttributeOption])
        ensures
            s@ == self@.attributes,
    {
        self.attributes.as_slice()
    }

    pub fn with_attribute_options(self, attribute_options: Vec<SpeechTranscriberResultAttributeOption>) -> (o: Self)
        ensures
            o@ == (TranscriberOptionsModel { attributes: attribute_options@, ..self@ }),
    {
        let mut o = self;
        o.set_attribute_options(attribute_options);
        o
    }

    pub fn set_attribute_options(&mut self, attribute_options: Vec<SpeechTranscriberResultAttributeOption>)
        ensures
            final(self)@ == (TranscriberOptionsModel { attributes: attribute_options@, ..old(self)@ }),
    {
        self.attributes = attribute_options;
    }
}

impl Clone for SpeechTranscriberOptions {
    fn clone(&self) -> (o: Self)
        ensures
            o@ == self@,
    {
        SpeechTranscriberOptions {
            transcription: copy_vec(&self.transcription),
            reporting: copy_vec(&self.reporting),
            attributes: copy_vec(&self.attributes),
        }
    }
}

impl Default for SpeechTranscriberOptions {
    fn default() -> (o: Self)
        ensures
            o@.transcription == Seq::<SpeechTranscriptionOption>::empty(),
            o@.reporting == Seq::<SpeechTranscriberReportingOption>::empty(),
            o@.attributes == Seq::<SpeechTranscriberResultAttributeOption>::empty(),
    {
        Self::new()
    }
}

#[derive(Debug, PartialEq, Eq)]
enum SpeechTranscriberConfiguration {
    Preset(SpeechTranscriberPreset),
    Custom(SpeechTranscriberOptions),
}

/// How a transcriber is configured: by a preset or by explicit options.
pub enum TranscriberConfigurationModel {
    Preset(SpeechTranscriberPreset),
    Custom(TranscriberOptionsModel),
}

/// What a [`SpeechTranscriber`] holds.
pub struct TranscriberModel {
    pub locale_identifier: Seq<char>,
    pub configuration: TranscriberConfigurationModel,
}

/// Safe wrapper around Speech.framework's analyzer-based `SpeechTranscriber`.
#[derive(Debug, PartialEq, Eq)]
pub struct SpeechTranscriber {
    locale_identifier: String,
    configuration: SpeechTranscriberConfiguration,
}

impl View for SpeechTranscriber {
    type V = TranscriberModel;

    closed spec fn view(&self) -> TranscriberModel {
        TranscriberModel {
            locale_identifier: self.locale_identifier@,
            configuration: match self.configuration {
                SpeechTranscriberConfiguration::Preset(p) => TranscriberConfigurationModel::Preset(p),
                SpeechTranscriberConfiguration::Custom(o) => TranscriberConfigurationModel::Custom(o@),
            },
        }
    }
}

impl SpeechTranscriber {
    /// A transcriber for `locale_identifier` configured by `preset`.
    pub fn new(locale_identifier: String, preset: SpeechTranscriberPreset) -> (t: Self)
        ensures
            t@ == (TranscriberModel {
                locale_identifier: locale_identifier@,
                configuration: TranscriberConfigurationModel::Preset(preset),
            }),
    {
        SpeechTranscriber {
            locale_identifier,
            configuration: SpeechTranscriberConfiguration::Preset(preset),
        }
    }

    /// A transcriber for `locale_identifier` configured by explicit options.
    pub fn with_options(locale_identifier: String, options: SpeechTranscriberOptions) -> (t: Self)
        ensures
            t@ == (TranscriberModel {
                locale_identifier: locale_identifier@,
                configuration: TranscriberConfigurationModel::Custom(options@),
            }),
    {
        SpeechTranscriber {
            locale_identifier,
            configuration: SpeechTranscriberConfiguration::Custom(options),
        }
    }

    pub fn locale_identifier(&self) -> (s: &str)
        ensures
            s@ == self@.locale_identifier,
    {
        self.locale_identifier.as_str()
    }

    /// The preset, when the transcriber is configured by one.
    pub fn preset(&self) -> (p: Option<SpeechTranscriberPreset>)
        ensures
            p == preset_of(self@),
    {
        match self.configuration {
            SpeechTranscriberConfiguration::Preset(preset) => Some(preset),
            SpeechTranscriberConfiguration::Custom(_) => None,
        }
    }

    /// The explicit options, when the transcriber is configured by them.
    pub fn options(&self) -> (o: Option<&SpeechTranscriberOptions>)
        ensures
            o is Some <==> options_of(self@) is Some,
            o matches Some(x) ==> options_of(self@) == Some(x@),
    {
        match &self.configuration {
            SpeechTranscriberConfiguration::Preset(_) => None,
            SpeechTranscriberConfiguration::Custom(options) => Some(options),
        }
    }
}

impl Clone for SpeechTranscriber {
    fn clone(&self) -> (t: Self)
        ensures
            t@ == self@,
    {
        let configuration = match &self.configuration {
            SpeechTranscriberConfiguration::Preset(preset) => SpeechTranscriberConfiguration::Preset(
                *preset,
            ),
            SpeechTranscriberConfiguration::Custom(options) => SpeechTranscriberConfiguration::Custom(
                options.clone(),
            ),
        };
        SpeechTranscriber { locale_identifier: self.locale_identifier.clone(), configuration }
    }
}

/// The preset a transcriber is configured by, if it is configured by one.
pub open spec fn preset_of(t: TranscriberModel) -> Option<SpeechTranscriberPreset> {
    match t.configuration {
        TranscriberConfigurationModel::Preset(p) => Some(p),
        TranscriberConfigurationModel::Custom(_) => None,
    }
}

/// The explicit options a transcriber is configured by, if it is configured by them.
pub open spec fn options_of(t: TranscriberModel) -> Option<TranscriberOptionsModel> {
    match t.configuration {
        TranscriberConfigurationModel::Preset(_) => None,
        TranscriberConfigurationModel::Custom(o) => Some(o),
    }
}

/// A transcriber is configured by a preset or by explicit options, never
/// by both and never by neither: exactly one of `preset()` and `options()`
/// answers.
pub proof fn lemma_preset_or_options(t: TranscriberModel)
    ensures
        preset_of(t) is Some <==> options_of(t) is None,
{
}

/// `SpeechDetector.DetectionOptions`.
#[derive(Debug, Clone, Copy, PartialEq, Eq, Hash, Structural)]
pub struct SpeechDetectionOptions {
    sensitivity_level: SpeechDetectorSensitivityLevel,
}

impl SpeechDetectionOptions {
    /// The level these options detect speech with.
    pub closed spec fn level(self) -> SpeechDetectorSensitivityLevel {
        self.sensitivity_level
    }

    pub fn new(sensitivity_level: SpeechDetectorSensitivityLevel) -> (o: Self)
        ensures
            o.level() == sensitivity_level,
    {
        SpeechDetectionOptions { sensitivity_level }
    }

    pub fn sensitivity_level(self) -> (l: SpeechDetectorSensitivityLevel)
        ensures
            l == self.level(),
    {
        self.sensitivity_level
    }
}

impl Default for SpeechDetectionOptions {
    /// Medium sensitivity.
    fn default() -> (o: Self)
        ensures
            o.level() == SpeechDetectorSensitivityLevel::Medium,
    {
        Self::new(SpeechDetectorSensitivityLevel::Medium)
    }
}

/// Safe wrapper around the analyzer-compatible `SpeechDetector` module.
#[derive(Debug, PartialEq, Eq, Structural)]
pub struct SpeechDetector {
    detection_options: SpeechDetectionOptions,
    report_results: bool,
}

impl SpeechDetector {
    /// The detection options of this detector.
    pub closed spec fn options_spec(self) -> SpeechDetectionOptions {
        self.detection_options
    }

    /// Whether this detector reports its results.
    pub closed spec fn reports(self) -> bool {
        self.report_results
    }

    pub fn new(detection_options: SpeechDetectionOptions, report_results: bool) -> (d: Self)
        ensures
            d.options_spec() == detection_options,
            d.reports() == report_results,
    {
        SpeechDetector { detection_options, report_results }
    }

    pub fn detection_options(&self) -> (o: SpeechDetectionOptions)
        ensures
            o == self.options_spec(),
    {
        self.detection_options
    }

    pub fn report_results(&self) -> (b: bool)
        ensures
            b == self.reports(),
    {
        self.report_results
    }
}

impl Clone for SpeechDetector {
    fn clone(&self) -> (d: Self)
        ensures
            d == *self,
    {
        SpeechDetector {
            detection_options: self.detection_options,
            report_results: self.report_results,
        }
    }
}

impl Default for SpeechDetector {
    /// Default detection options, reporting its results.
    fn default() -> (d: Self)
        ensures
            d.options_spec().level() == SpeechDetectorSensitivityLevel::Medium,
            d.reports(),
    {
        Self::new(SpeechDetectionOptions::default(), true)
    }
}

/// `SpeechAnalyzer.Options`.
#[derive(Debug, Clone, Copy, PartialEq, Eq, Hash, Structural)]
pub struct SpeechAnalyzerOptions {
    priority: SpeechAnalyzerPriority,
    model_retention: SpeechAnalyzerModelRetention,
}

impl SpeechAnalyzerOptions {
    /// The priority of these options.
    pub closed spec fn priority_spec(self) -> SpeechAnalyzerPriority {
        self.priority
    }

    /// The model retention of these options.
    pub closed spec fn retention_spec(self) -> SpeechAnalyzerModelRetention {
        self.model_retention
    }

    pub fn new(priority: SpeechAnalyzerPriority, model_retention: SpeechAnalyzerModelRetention) -> (o: Self)
        ensures
            o.priority_spec() == priority,
            o.retention_spec() == model_retention,
    {
        SpeechAnalyzerOptions { priority, model_retention }
    }

    pub fn priority(self) -> (p: SpeechAnalyzerPriority)
        ensures
            p == self.priority_spec(),
    {
        self.priority
    }

    pub fn model_retention(self) -> (r: SpeechAnalyzerModelRetention)
        ensures
            r == self.retention_spec(),
    {
        self.model_retention
    }
}

impl Default for SpeechAnalyzerOptions {
    /// Medium priority, models kept while in use.
    fn default() -> (o: Self)
        ensures
            o.priority_spec() == SpeechAnalyzerPriority::Medium,
            o.retention_spec() == SpeechAnalyzerModelRetention::WhileInUse,
    {
        Self::new(SpeechAnalyzerPriority::Medium, SpeechAnalyzerModelRetention::WhileInUse)
    }
}

/// What a [`SpeechModuleDescriptor`] describes.
pub enum ModuleModel {
    SpeechTranscriber(TranscriberModel),
    SpeechDetector(SpeechDetector),
}

impl ModuleModel {
    /// The name the bridge knows this kind of module by.
    pub open spec fn kind_name(self) -> Seq<char> {
        match self {
            ModuleModel::SpeechTranscriber(_) => "speechTranscriber"@,
            ModuleModel::SpeechDetector(_) => "speechDetector"@,
        }
    }
}

/// A module descriptor accepted by `SpeechAnalyzer` and `AssetInventory`.
#[derive(Debug, PartialEq, Eq)]
pub enum SpeechModuleDescriptor {
    SpeechTranscriber(SpeechTranscriber),
    SpeechDetector(SpeechDetector),
}

impl View for SpeechModuleDescriptor {
    type V = ModuleModel;

    open spec fn view(&self) -> ModuleModel {
        match self {
            SpeechModuleDescriptor::SpeechTranscriber(t) => ModuleModel::SpeechTranscriber(t@),
            SpeechModuleDescriptor::SpeechDetector(d) => ModuleModel::SpeechDetector(*d),
        }
    }
}

impl SpeechModuleDescriptor {
    /// The kind of module described.
    pub fn kind(&self) -> (s: &'static str)
        ensures
            s@ == self@.kind_name(),
    {
        match self {
            SpeechModuleDescriptor::SpeechTranscriber(_) => "speechTranscriber",
            SpeechModuleDescriptor::SpeechDetector(_) => "speechDetector",
        }
    }
}

impl Clone for SpeechModuleDescriptor {
    fn clone(&self) -> (d: Self)
        ensures
            d@ == self@,
    {
        match self {
            SpeechModuleDescriptor::SpeechTranscriber(t) => SpeechModuleDescriptor::SpeechTranscriber(
                t.clone(),
            ),
            SpeechModuleDescriptor::SpeechDetector(d) => SpeechModuleDescriptor::SpeechDetector(
                d.clone(),
            ),
        }
    }
}

/// Shared behavior for analyzer-compatible modules.
pub trait SpeechModule {
    /// The module this value describes.
    spec fn module_model(&self) -> ModuleModel;

    fn descriptor(&self) -> (d: SpeechModuleDescriptor)
        ensures
            d@ == self.module_model(),
    ;
}

impl SpeechModule for SpeechTranscriber {
    open spec fn module_model(&self) -> ModuleModel {
        ModuleModel::SpeechTranscriber(self@)
    }

    fn descriptor(&self) -> (d: SpeechModuleDescriptor) {
        SpeechModuleDescriptor::SpeechTranscriber(self.clone())
    }
}

impl SpeechModule for SpeechDetector {
    open spec fn module_model(&self) -> ModuleModel {
        ModuleModel::SpeechDetector(*self)
    }

    fn descriptor(&self) -> (d: SpeechModuleDescriptor) {
        SpeechModuleDescriptor::SpeechDetector(self.clone())
    }
}

impl From<SpeechTranscriber> for SpeechModuleDescriptor {
    fn from(value: SpeechTranscriber) -> (d: Self) {
        SpeechModuleDescriptor::SpeechTranscriber(value)
    }
}

impl vstd::std_specs::convert::FromSpecImpl<SpeechTranscriber> for SpeechModuleDescriptor {
    open spec fn obeys_from_spec() -> bool {
        true
    }

    open spec fn from_spec(v: SpeechTranscriber) -> Self {
        SpeechModuleDescriptor::SpeechTranscriber(v)
    }
}

impl From<SpeechDetector> for SpeechModuleDescriptor {
    fn from(value: SpeechDetector) -> (d: Self) {
        SpeechModuleDescriptor::SpeechDetector(value)
    }
}

impl vstd::std_specs::convert::FromSpecImpl<SpeechDetector> for SpeechModuleDescriptor {
    open spec fn obeys_from_spec() -> bool {
        true
    }

    open spec fn from_spec(v: SpeechDetector) -> Self {
        SpeechModuleDescriptor::SpeechDetector(v)
    }
}

/// What a [`SpeechAnalyzer`] holds.
pub struct AnalyzerModel {
    pub modules: Seq<ModuleModel>,
    pub options: Option<SpeechAnalyzerOptions>,
    pub context: ContextModel,
}

/// The models of a sequence of module descriptors.
pub open spec fn module_models(modules: Seq<SpeechModuleDescriptor>) -> Seq<ModuleModel> {
    modules.map_values(|m: SpeechModuleDescriptor| m@)
}

/// Safe wrapper around the analyzer pipeline introduced in macOS 26.
#[derive(Debug, Clone, PartialEq, Eq)]
pub struct SpeechAnalyzer {
    modules: Vec<SpeechModuleDescriptor>,
    options: Option<SpeechAnalyzerOptions>,
    context: AnalysisContext,
}

impl View for SpeechAnalyzer {
    type V = AnalyzerModel;

    open spec fn view(&self) -> AnalyzerModel {
        AnalyzerModel {
            modules: module_models(self.module_seq()),
            options: self.options_spec(),
            context: self.context_spec()@,
        }
    }
}

impl SpeechAnalyzer {
    /// The module descriptors, in order.
    pub closed spec fn module_seq(&self) -> Seq<SpeechModuleDescriptor> {
        self.modules@
    }

    /// The analyzer options, if set.
    pub closed spec fn options_spec(&self) -> Option<SpeechAnalyzerOptions> {
        self.options
    }

    /// The analysis context.
    pub closed spec fn context_spec(&self) -> AnalysisContext {
        self.context
    }

    /// An analyzer running `modules`, with no options and an empty context.
    pub fn new(modules: Vec<SpeechModuleDescriptor>) -> (a: Self)
        ensures
            a.module_seq() == modules@,
            a.options_spec() is None,
            a.context_spec().contextual_table().keys().len() == 0,
            a.context_spec().user_data_table().keys().len() == 0,
    {
        SpeechAnalyzer { modules, options: None, context: AnalysisContext::new() }
    }

    pub fn modules(&self) -> (s: &[SpeechModuleDescriptor])
        ensures
            s@ == self.module_seq(),
    {
        self.modules.as_slice()
    }

    pub fn set_modules(&mut self, modules: Vec<SpeechModuleDescriptor>)
        ensures
            final(self).module_seq() == modules@,
            final(self).options_spec() == old(self).options_spec(),
            final(self).context_spec() == old(self).context_spec(),
    {
        self.modules = modules;
    }

    pub fn options(&self) -> (o: Option<SpeechAnalyzerOptions>)
        ensures
            o == self.options_spec(),
    {
        self.options
    }

    pub fn with_options(self, options: SpeechAnalyzerOptions) -> (a: Self)
        ensures
            a.module_seq() == self.module_seq(),
            a.options_spec() == Some(options),
            a.context_spec() == self.context_spec(),
    {
        let mut a = self;
        a.set_options(options);
        a
    }

    pub fn set_options(&mut self, options: SpeechAnalyzerOptions)
        ensures
            final(self).module_seq() == old(self).module_seq(),
            final(self).options_spec() == Some(options),
            final(self).context_spec() == old(self).context_spec(),
    {
        self.options = Some(options);
    }

    pub fn context(&self) -> (c: &AnalysisContext)
        ensures
            *c == self.context_spec(),
    {
        &self.context
    }

    pub fn with_context(self, context: AnalysisContext) -> (a: Self)
        ensures
            a.module_seq() == self.module_seq(),
            a.options_spec() == self.options_spec(),
            a.context_spec() == context,
    {
        let mut a = self;
        a.set_context(context);
        a
    }

    pub fn set_context(&mut self, context: AnalysisContext)
        ensures
            final(self).module_seq() == old(self).module_seq(),
            final(self).options_spec() == old(self).options_spec(),
            final(self).context_spec() == context,
    {
        self.context = context;
    }
}

impl SpeechTranscriber {
    /// The analyzer that a one-module transcription runs: this transcriber
    /// alone, with `context`, and with `options` when given.
    pub fn analyzer_with_context(
        &self,
        context: AnalysisContext,
        options: Option<SpeechAnalyzerOptions>,
    ) -> (a: SpeechAnalyzer)
        ensures
            a@.modules == seq![ModuleModel::SpeechTranscriber(self@)],
            a.options_spec() == options,
            a.context_spec() == context,
    {
        let mut modules: Vec<SpeechModuleDescriptor> = Vec::new();
        modules.push(self.descriptor());
        let mut analyzer = SpeechAnalyzer::new(modules);
        analyzer.set_context(context);
        if let Some(options) = options {
            analyzer.set_options(options);
        }
        assert(analyzer@.modules =~= seq![ModuleModel::SpeechTranscriber(self@)]);
        analyzer
    }
}

impl SpeechDetector {
    /// The analyzer that a one-module detection runs: this detector alone,
    /// with `context`, and with `options` when given.
    pub fn analyzer_with_context(
        &self,
        context: AnalysisContext,
        options: Option<SpeechAnalyzerOptions>,
    ) -> (a: SpeechAnalyzer)
        ensures
            a@.modules == seq![ModuleModel::SpeechDetector(*self)],
            a.options_spec() == options,
            a.context_spec() == context,
    {
        let mut modules: Vec<SpeechModuleDescriptor> = Vec::new();
        modules.push(self.descriptor());
        let mut analyzer = SpeechAnalyzer::new(modules);
        analyzer.set_context(context);
        if let Some(options) = options {
            analyzer.set_options(options);
        }
        assert(analyzer@.modules =~= seq![ModuleModel::SpeechDetector(*self)]);
        analyzer
    }
}

/// Analyzer options are determined by their priority and retention.
pub proof fn lemma_analyzer_options_determined(a: SpeechAnalyzerOptions, b: SpeechAnalyzerOptions)
    ensures
        a.priority_spec() == b.priority_spec() && a.retention_spec() == b.retention_spec() ==> a == b,
{
}

/// A detector is determined by its sensitivity and whether it reports.
pub proof fn lemma_detector_determined(a: SpeechDetector, b: SpeechDetector)
    ensures
        a.options_spec().level() == b.options_spec().level() && a.reports() == b.reports() ==> a == b,
{
}

} // verus!
