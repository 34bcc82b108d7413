//! The configuration payloads that the native bridge is handed: one per
//! module, one for the analyzer options, one for the analysis context and
//! one for a whole analyzer. They hold the wire names of every setting and
//! are turned into JSON at the edge.
use vstd::prelude::*;
use crate::analyzer::{
    lemma_analyzer_options_determined, lemma_detector_determined, ModuleModel, SpeechAnalyzer, SpeechAnalyzerOptions, SpeechDetector, SpeechModuleDescriptor,
    SpeechTranscriber, TranscriberConfigurationModel, TranscriberModel, module_models,
};
use crate::context::{AnalysisContext, StringTag, TagMap, TagValue, strictly_ascending};
use crate::context::lemma_keyed_map_at;
use crate::options::{
    lemma_attribute_names_distinct, lemma_priority_names_distinct, lemma_reporting_names_distinct,
    lemma_retention_names_distinct, lemma_sensitivity_names_distinct, WireNamed,
};

verus! {

/// The views of a sequence of strings.
pub open spec fn strings_view(v: Seq<String>) -> Seq<Seq<char>> {
    v.map_values(|s: String| s@)
}

/// The view of an optional list of strings.
pub open spec fn opt_strings_view(v: Option<Vec<String>>) -> Option<Seq<Seq<char>>> {
    match v {
        Some(v) => Some(strings_view(v@)),
        None => None,
    }
}

/// A list of names as the bridge is sent it: absent when empty.
pub open spec fn listed(names: Seq<Seq<char>>) -> Option<Seq<Seq<char>>> {
    if names.len() == 0 {
        None
    } else {
        Some(names)
    }
}

/// The wire names of a sequence of settings.
pub open spec fn wire_texts<T: WireNamed>(s: Seq<T>) -> Seq<Seq<char>> {
    s.map_values(|x: T| x.wire_text())
}

/// The names of `items`, or nothing when there are none.
pub fn wire_names<T: WireNamed>(items: &[T]) -> (r: Option<Vec<String>>)
    ensures
        opt_strings_view(r) == listed(wire_texts(items@)),
{
    if items.len() == 0 {
        return None;
    }
    let mut names: Vec<String> = Vec::new();
    let mut i: usize = 0;
    while i < items.len()
        invariant
            i <= items@.len(),
            strings_view(names@) == wire_texts(items@).subrange(0, i as int),
        decreases items@.len() - i,
    {
        let item = items[i];
        let name = item.wire_str().to_owned();
        let ghost before = names@;
        names.push(name);
        proof {
            assert(name@ == items@[i as int].wire_text());
            assert(names@ == before.push(name));
            assert(strings_view(names@) =~= strings_view(before).push(name@));
            assert(wire_texts(items@).subrange(0, i + 1) =~= wire_texts(items@).subrange(
                0,
                i as int,
            ).push(items@[i as int].wire_text()));
        }
        i = i + 1;
    }
    assert(wire_texts(items@).subrange(0, i as int) =~= wire_texts(items@));
    Some(names)
}

/// What a [`SpeechTranscriberPayload`] carries.
pub struct TranscriberPayloadModel {
    pub locale_identifier: Seq<char>,
    pub preset: Option<Seq<char>>,
    pub transcription_options: Option<Seq<Seq<char>>>,
    pub reporting_options: Option<Seq<Seq<char>>>,
    pub attribute_options: Option<Seq<Seq<char>>>,
}

/// The configuration of a transcriber as the bridge is sent it.
#[derive(Debug, Clone, PartialEq)]
pub struct SpeechTranscriberPayload {
    pub locale_identifier: String,
    pub preset: Option<String>,
    pub transcription_options: Option<Vec<String>>,
    pub reporting_options: Option<Vec<String>>,
    pub attribute_options: Option<Vec<String>>,
}

impl View for SpeechTranscriberPayload {
    type V = TranscriberPayloadModel;

    open spec fn view(&self) -> TranscriberPayloadModel {
        TranscriberPayloadModel {
            locale_identifier: self.locale_identifier@,
            preset: match self.preset {
                Some(p) => Some(p@),
                None => None,
            },
            transcription_options: opt_strings_view(self.transcription_options),
            reporting_options: opt_strings_view(self.reporting_options),
            attribute_options: opt_strings_view(self.attribute_options),
        }
    }
}

/// The payload a transcriber is sent as: its locale and either its preset
/// name alone or the names of its explicit options, each list left out
/// when empty.
pub open spec fn transcriber_payload_model(t: TranscriberModel) -> TranscriberPayloadModel {
    match t.configuration {
        TranscriberConfigurationModel::Preset(p) => TranscriberPayloadModel {
            locale_identifier: t.locale_identifier,
            preset: Some(p.wire_name()),
            transcription_options: None,
            reporting_options: None,
            attribute_options: None,
        },
        TranscriberConfigurationModel::Custom(o) => TranscriberPayloadModel {
            locale_identifier: t.locale_identifier,
            preset: None,
            transcription_options: listed(wire_texts(o.transcription)),
            reporting_options: listed(wire_texts(o.reporting)),
            attribute_options: listed(wire_texts(o.attributes)),
        },
    }
}

impl SpeechTranscriberPayload {
    pub fn from_transcriber(value: &SpeechTranscriber) -> (p: Self)
        ensures
            p@ == transcriber_payload_model(value@),
    {
        let locale_identifier = value.locale_identifier().to_owned();
        match value.preset() {
            Some(preset) => SpeechTranscriberPayload {
                locale_identifier,
                preset: Some(preset.as_str().to_owned()),
                transcription_options: None,
                reporting_options: None,
                attribute_options: None,
            },
            None => {
                let options = value.options().unwrap();
                SpeechTranscriberPayload {
                    locale_identifier,
                    preset: None,
                    transcription_options: wire_names(options.transcription_options()),
                    reporting_options: wire_names(options.reporting_options()),
                    attribute_options: wire_names(options.attribute_options()),
                }
            },
        }
    }
}

/// What a [`SpeechDetectorPayload`] carries.
pub struct DetectorPayloadModel {
    pub sensitivity_level: Seq<char>,
    pub report_results: bool,
}

/// The configuration of a speech detector as the bridge is sent it.
#[derive(Debug, Clone, PartialEq)]
pub struct SpeechDetectorPayload {
    pub sensitivity_level: String,
    pub report_results: bool,
}

impl View for SpeechDetectorPayload {
    type V = DetectorPayloadModel;

    open spec fn view(&self) -> DetectorPayloadModel {
        DetectorPayloadModel {
            sensitivity_level: self.sensitivity_level@,
            report_results: self.report_results,
        }
    }
}

/// The payload a detector is sent as: its sensitivity name and whether it reports.
pub open spec fn detector_payload_model(d: SpeechDetector) -> DetectorPayloadModel {
    DetectorPayloadModel {
        sensitivity_level: d.options_spec().level().wire_name(),
        report_results: d.reports(),
    }
}

impl SpeechDetectorPayload {
    pub fn from_detector(value: &SpeechDetector) -> (p: Self)
        ensures
            p@ == detector_payload_model(*value),
    {
        SpeechDetectorPayload {
            sensitivity_level: value.detection_options().sensitivity_level().as_str().to_owned(),
            report_results: value.report_results(),
        }
    }
}

/// What a [`SpeechAnalyzerOptionsPayload`] carries.
pub struct OptionsPayloadModel {
    pub priority: Seq<char>,
    pub model_retention: Seq<char>,
}

/// Analyzer options as the bridge is sent them.
#[derive(Debug, Clone, Copy, PartialEq, Eq)]
pub struct SpeechAnalyzerOptionsPayload {
    pub priority: &'static str,
    pub model_retention: &'static str,
}

impl View for SpeechAnalyzerOptionsPayload {
    type V = OptionsPayloadModel;

    open spec fn view(&self) -> OptionsPayloadModel {
        OptionsPayloadModel { priority: self.priority@, model_retention: self.model_retention@ }
    }
}

/// The payload analyzer options are sent as: the two wire names.
pub open spec fn options_payload_model(o: SpeechAnalyzerOptions) -> OptionsPayloadModel {
    OptionsPayloadModel {
        priority: o.priority_spec().wire_name(),
        model_retention: o.retention_spec().wire_name(),
    }
}

impl SpeechAnalyzerOptionsPayload {
    pub fn from_options(value: SpeechAnalyzerOptions) -> (p: Self)
        ensures
            p@ == options_payload_model(value),
    {
        SpeechAnalyzerOptionsPayload {
            priority: value.priority().as_str(),
            model_retention: value.model_retention().as_str(),
        }
    }
}

/// The entries of a tag map, as pairs of tag text and value.
pub open spec fn table_entries<K: StringTag, V: TagValue>(m: TagMap<K, V>) -> Seq<(Seq<char>, V::V)> {
    Seq::new(m.keys().len(), |i: int| (m.keys()[i], m.values()[i]))
}

/// A list of entries as the bridge is sent it: absent when empty.
pub open spec fn listed_entries<W>(entries: Seq<(Seq<char>, W)>) -> Option<Seq<(Seq<char>, W)>> {
    if entries.len() == 0 {
        None
    } else {
        Some(entries)
    }
}

/// What an [`AnalysisContextPayload`] carries.
pub struct ContextPayloadModel {
    pub contextual_strings: Option<Seq<(Seq<char>, Seq<Seq<char>>)>>,
    pub user_data: Option<Seq<(Seq<char>, Seq<char>)>>,
}

/// An analysis context as the bridge is sent it: each table as its entries
/// in ascending tag order, left out when empty.
#[derive(Debug, Clone, PartialEq, Eq)]
pub struct AnalysisContextPayload {
    pub contextual_strings: Option<Vec<(String, Vec<String>)>>,
    pub user_data: Option<Vec<(String, String)>>,
}

/// The views of a list of entries.
pub open spec fn entries_view<V: DeepView>(v: Seq<(String, V)>) -> Seq<(Seq<char>, V::V)> {
    v.map_values(|e: (String, V)| (e.0@, e.1.deep_view()))
}

impl View for AnalysisContextPayload {
    type V = ContextPayloadModel;

    open spec fn view(&self) -> ContextPayloadModel {
        ContextPayloadModel {
            contextual_strings: match self.contextual_strings {
                Some(v) => Some(entries_view(v@)),
                None => None,
            },
            user_data: match self.user_data {
                Some(v) => Some(entries_view(v@)),
                None => None,
            },
        }
    }
}

/// The payload a context is sent as.
pub open spec fn context_payload_model(c: AnalysisContext) -> ContextPayloadModel {
    ContextPayloadModel {
        contextual_strings: listed_entries(table_entries(c.contextual_table())),
        user_data: listed_entries(table_entries(c.user_data_table())),
    }
}

/// The tags of a list of entries.
pub open spec fn entry_tags<W>(entries: Seq<(Seq<char>, W)>) -> Seq<Seq<char>> {
    entries.map_values(|e: (Seq<char>, W)| e.0)
}

/// The entries of `table`, or nothing when it is empty.
fn table_payload<K: StringTag, V: TagValue>(table: &TagMap<K, V>) -> (r: Option<Vec<(String, V)>>)
    ensures
        match r {
            Some(v) => Some(entries_view(v@)),
            None => None,
        } == listed_entries(table_entries(*table)),
        strictly_ascending(table.keys()),
{
    let entries = table.entries();
    if entries.len() == 0 {
        return None;
    }
    let mut out: Vec<(String, V)> = Vec::new();
    let mut i: usize = 0;
    while i < entries.len()
        invariant
            entries@ == table.entry_seq(),
            i <= entries@.len(),
            entries_view(out@) == table_entries(*table).subrange(0, i as int),
        decreases entries@.len() - i,
    {
        let tag = entries[i].0.text().to_owned();
        let value = entries[i].1.duplicate();
        let ghost before = out@;
        out.push((tag, value));
        proof {
            assert(entries_view(out@) =~= entries_view(before).push((tag@, value.deep_view())));
            assert(table_entries(*table).subrange(0, i + 1) =~= table_entries(*table).subrange(
                0,
                i as int,
            ).push(table_entries(*table)[i as int]));
        }
        i = i + 1;
    }
    assert(table_entries(*table).subrange(0, i as int) =~= table_entries(*table));
    Some(out)
}

impl AnalysisContextPayload {
    /// The payload of `value`. Each table is sent as its entries in
    /// ascending tag order, each tag once.
    pub fn from_context(value: &AnalysisContext) -> (p: Self)
        ensures
            p@ == context_payload_model(*value),
            p@.contextual_strings matches Some(e) ==> strictly_ascending(entry_tags(e)),
            p@.user_data matches Some(e) ==> strictly_ascending(entry_tags(e)),
    {
        let contextual_strings = table_payload(value.contextual_strings());
        let user_data = table_payload(value.user_data());
        assert(entry_tags(table_entries(value.contextual_table())) =~= value.contextual_table().keys());
        assert(entry_tags(table_entries(value.user_data_table())) =~= value.user_data_table().keys());
        AnalysisContextPayload { contextual_strings, user_data }
    }
}

/// What a [`SpeechModulePayload`] carries.
pub struct ModulePayloadModel {
    pub kind: Seq<char>,
    pub transcriber: Option<TranscriberPayloadModel>,
    pub detector: Option<DetectorPayloadModel>,
}

/// One module as the bridge is sent it: its kind name and the payload of
/// that kind of module.
#[derive(Debug, Clone, PartialEq)]
pub struct SpeechModulePayload {
    pub kind: String,
    pub transcriber: Option<SpeechTranscriberPayload>,
    pub detector: Option<SpeechDetectorPayload>,
}

impl View for SpeechModulePayload {
    type V = ModulePayloadModel;

    open spec fn view(&self) -> ModulePayloadModel {
        ModulePayloadModel {
            kind: self.kind@,
            transcriber: match self.transcriber {
                Some(t) => Some(t@),
                None => None,
            },
            detector: match self.detector {
                Some(d) => Some(d@),
                None => None,
            },
        }
    }
}

/// The payload a module is sent as.
pub open spec fn module_payload_model(m: ModuleModel) -> ModulePayloadModel {
    match m {
        ModuleModel::SpeechTranscriber(t) => ModulePayloadModel {
            kind: m.kind_name(),
            transcriber: Some(transcriber_payload_model(t)),
            detector: None,
        },
        ModuleModel::SpeechDetector(d) => ModulePayloadModel {
            kind: m.kind_name(),
            transcriber: None,
            detector: Some(detector_payload_model(d)),
        },
    }
}

impl SpeechModulePayload {
    pub fn from_descriptor(value: &SpeechModuleDescriptor) -> (p: Self)
        ensures
            p@ == module_payload_model(value@),
    {
        match value {
            SpeechModuleDescriptor::SpeechTranscriber(transcriber) => SpeechModulePayload {
                kind: value.kind().to_owned(),
                transcriber: Some(SpeechTranscriberPayload::from_transcriber(transcriber)),
                detector: None,
            },
            SpeechModuleDescriptor::SpeechDetector(detector) => SpeechModulePayload {
                kind: value.kind().to_owned(),
                transcriber: None,
                detector: Some(SpeechDetectorPayload::from_detector(detector)),
            },
        }
    }
}

/// The views of a list of module payloads.
pub open spec fn module_payloads_view(v: Seq<SpeechModulePayload>) -> Seq<ModulePayloadModel> {
    v.map_values(|p: SpeechModulePayload| p@)
}

/// The payloads of `modules`, in order.
pub fn module_payloads(modules: &[SpeechModuleDescriptor]) -> (r: Vec<SpeechModulePayload>)
    ensures
        module_payloads_view(r@) == module_models(modules@).map_values(
            |m: ModuleModel| module_payload_model(m),
        ),
{
    let mut out: Vec<SpeechModulePayload> = Vec::new();
    let mut i: usize = 0;
    while i < modules.len()
        invariant
            i <= modules@.len(),
            module_payloads_view(out@) == module_models(modules@).map_values(
                |m: ModuleModel| module_payload_model(m),
            ).subrange(0, i as int),
        decreases modules@.len() - i,
    {
        let payload = SpeechModulePayload::from_descriptor(&modules[i]);
        let ghost before = out@;
        out.push(payload);
        proof {
            assert(module_payloads_view(out@) =~= module_payloads_view(before).push(payload@));
            assert(module_models(modules@).map_values(|m: ModuleModel| module_payload_model(m)).subrange(
                0,
                i + 1,
            ) =~= module_models(modules@).map_values(
                |m: ModuleModel| module_payload_model(m),
            ).subrange(0, i as int).push(module_payload_model(modules@[i as int]@)));
        }
        i = i + 1;
    }
    assert(module_models(modules@).map_values(|m: ModuleModel| module_payload_model(m)).subrange(
        0,
        i as int,
    ) =~= module_models(modules@).map_values(|m: ModuleModel| module_payload_model(m)));
    out
}

/// What a [`SpeechAnalyzerPayload`] carries.
pub struct AnalyzerPayloadModel {
    pub modules: Seq<ModulePayloadModel>,
    pub options: Option<OptionsPayloadModel>,
    pub context: ContextPayloadModel,
}

/// A whole analyzer as the bridge is sent it.
#[derive(Debug, Clone, PartialEq)]
pub struct SpeechAnalyzerPayload {
    pub modules: Vec<SpeechModulePayload>,
    pub options: Option<SpeechAnalyzerOptionsPayload>,
    pub context: AnalysisContextPayload,
}

impl View for SpeechAnalyzerPayload {
    type V = AnalyzerPayloadModel;

    open spec fn view(&self) -> AnalyzerPayloadModel {
        AnalyzerPayloadModel {
            modules: module_payloads_view(self.modules@),
            options: match self.options {
                Some(o) => Some(o@),
                None => None,
            },
            context: self.context@,
        }
    }
}

/// The payload an analyzer is sent as: each module's payload in order, its
/// options if set, and its context.
pub open spec fn analyzer_payload_model(a: SpeechAnalyzer) -> AnalyzerPayloadModel {
    AnalyzerPayloadModel {
        modules: a@.modules.map_values(|m: ModuleModel| module_payload_model(m)),
        options: match a.options_spec() {
            Some(o) => Some(options_payload_model(o)),
            None => None,
        },
        context: context_payload_model(a.context_spec()),
    }
}

impl SpeechAnalyzerPayload {
    pub fn from_analyzer(value: &SpeechAnalyzer) -> (p: Self)
        ensures
            p@ == analyzer_payload_model(*value),
    {
        SpeechAnalyzerPayload {
            modules: module_payloads(value.modules()),
            options: match value.options() {
                Some(options) => Some(SpeechAnalyzerOptionsPayload::from_options(options)),
                None => None,
            },
            context: AnalysisContextPayload::from_context(value.context()),
        }
    }
}

/// The payload of a module names its kind as the descriptor does, and
/// carries the payload of that kind only.
pub proof fn lemma_module_payload_kind(m: ModuleModel)
    ensures
        module_payload_model(m).kind == m.kind_name(),
        module_payload_model(m).transcriber is Some <==> m is SpeechTranscriber,
        module_payload_model(m).detector is Some <==> m is SpeechDetector,
{
}

/// A transcriber's payload carries a preset name exactly when it is
/// configured by a preset, and then no option list.
pub proof fn lemma_transcriber_payload_shape(t: TranscriberModel)
    ensures
        transcriber_payload_model(t).locale_identifier == t.locale_identifier,
        transcriber_payload_model(t).preset is Some <==> t.configuration is Preset,
        transcriber_payload_model(t).preset is Some ==> {
            &&& transcriber_payload_model(t).transcription_options is None
            &&& transcriber_payload_model(t).reporting_options is None
            &&& transcriber_payload_model(t).attribute_options is None
        },
{
}

/// A list of names sent for a list of settings: nothing when there are no
/// settings, and otherwise the wire name of each setting, in order.
pub open spec fn names_sent_for<T: WireNamed>(sent: Option<Seq<Seq<char>>>, settings: Seq<T>) -> bool {
    if settings.len() == 0 {
        sent is None
    } else {
        &&& sent is Some
        &&& sent->0.len() == settings.len()
        &&& forall|i: int| 0 <= i < settings.len() ==> #[trigger] sent->0[i] == settings[i].wire_text()
    }
}

/// What a transcriber is sent as: its own locale; for a preset, that
/// preset's name and no option list; for explicit options, no preset and,
/// for each of the three option lists, the names of exactly the options
/// chosen, in order, or nothing when none were chosen.
pub proof fn lemma_transcriber_payload_law(t: TranscriberModel)
    ensures
        transcriber_payload_model(t).locale_identifier == t.locale_identifier,
        match t.configuration {
            TranscriberConfigurationModel::Preset(p) => {
                &&& transcriber_payload_model(t).preset == Some(p.wire_name())
                &&& transcriber_payload_model(t).transcription_options is None
                &&& transcriber_payload_model(t).reporting_options is None
                &&& transcriber_payload_model(t).attribute_options is None
            },
            TranscriberConfigurationModel::Custom(o) => {
                &&& transcriber_payload_model(t).preset is None
                &&& names_sent_for(transcriber_payload_model(t).transcription_options, o.transcription)
                &&& names_sent_for(transcriber_payload_model(t).reporting_options, o.reporting)
                &&& names_sent_for(transcriber_payload_model(t).attribute_options, o.attributes)
            },
        },
{
}

/// Transcribers configured by different explicit option lists are sent
/// different payloads.
pub proof fn lemma_transcriber_payload_separates_options(t1: TranscriberModel, t2: TranscriberModel)
    requires
        t1.configuration is Custom,
        t2.configuration is Custom,
        transcriber_payload_model(t1) == transcriber_payload_model(t2),
    ensures
        t1.locale_identifier == t2.locale_identifier,
        t1.configuration->Custom_0.reporting == t2.configuration->Custom_0.reporting,
        t1.configuration->Custom_0.attributes == t2.configuration->Custom_0.attributes,
        t1.configuration->Custom_0.transcription == t2.configuration->Custom_0.transcription,
{
    let o1 = t1.configuration->Custom_0;
    let o2 = t2.configuration->Custom_0;
    let p = transcriber_payload_model(t1);
    lemma_transcriber_payload_law(t1);
    lemma_transcriber_payload_law(t2);
    assert(o1.reporting.len() == o2.reporting.len());
    assert(o1.attributes.len() == o2.attributes.len());
    assert(o1.transcription.len() == o2.transcription.len());
    assert forall|i: int| 0 <= i < o1.reporting.len() implies o1.reporting[i] == o2.reporting[i] by {
        assert(p.reporting_options->0[i] == o1.reporting[i].wire_text());
        assert(p.reporting_options->0[i] == o2.reporting[i].wire_text());
        lemma_reporting_names_distinct(o1.reporting[i], o2.reporting[i]);
    }
    assert(o1.reporting =~= o2.reporting);
    assert forall|i: int| 0 <= i < o1.attributes.len() implies o1.attributes[i] == o2.attributes[i] by {
        assert(p.attribute_options->0[i] == o1.attributes[i].wire_text());
        assert(p.attribute_options->0[i] == o2.attributes[i].wire_text());
        lemma_attribute_names_distinct(o1.attributes[i], o2.attributes[i]);
    }
    assert(o1.attributes =~= o2.attributes);
    assert(o1.transcription =~= o2.transcription);
}

/// A detector is sent as its own sensitivity name and its own reporting
/// flag, so different detectors are sent different payloads.
pub proof fn lemma_detector_payload_law(d1: SpeechDetector, d2: SpeechDetector)
    ensures
        detector_payload_model(d1).sensitivity_level == d1.options_spec().level().wire_name(),
        detector_payload_model(d1).report_results == d1.reports(),
        d1 != d2 ==> detector_payload_model(d1) != detector_payload_model(d2),
{
    lemma_sensitivity_names_distinct(d1.options_spec().level(), d2.options_spec().level());
    lemma_detector_determined(d1, d2);
}

/// Analyzer options are sent as the wire names of their own priority and
/// retention, so different options are sent different payloads.
pub proof fn lemma_options_payload_law(o1: SpeechAnalyzerOptions, o2: SpeechAnalyzerOptions)
    ensures
        options_payload_model(o1).priority == o1.priority_spec().wire_name(),
        options_payload_model(o1).model_retention == o1.retention_spec().wire_name(),
        o1 != o2 ==> options_payload_model(o1) != options_payload_model(o2),
{
    lemma_priority_names_distinct(o1.priority_spec(), o2.priority_spec());
    lemma_retention_names_distinct(o1.retention_spec(), o2.retention_spec());
    lemma_analyzer_options_determined(o1, o2);
}

/// An analyzer is sent as its modules' payloads in order, the payload of
/// the options it was given (the wire names of their priority and
/// retention) exactly when it has options, and its context's payload.
pub proof fn lemma_analyzer_payload_law(a: SpeechAnalyzer)
    ensures
        analyzer_payload_model(a).modules.len() == a@.modules.len(),
        forall|i: int| 0 <= i < a@.modules.len() ==> (#[trigger] analyzer_payload_model(a).modules[i]).kind
            == a@.modules[i].kind_name(),
        forall|i: int| 0 <= i < a@.modules.len() ==> #[trigger] analyzer_payload_model(a).modules[i]
            == module_payload_model(a@.modules[i]),
        analyzer_payload_model(a).options is Some <==> a.options_spec() is Some,
        a.options_spec() matches Some(o) ==> {
            &&& analyzer_payload_model(a).options->0.priority == o.priority_spec().wire_name()
            &&& analyzer_payload_model(a).options->0.model_retention == o.retention_spec().wire_name()
        },
        analyzer_payload_model(a).context == context_payload_model(a.context_spec()),
{
    if let Some(o) = a.options_spec() {
        lemma_options_payload_law(o, o);
    }
}

/// A context table is sent as nothing exactly when it has no entry, each
/// table independently of the other; otherwise as every tag of the table,
/// in ascending order, each with the value the context holds for it.
pub proof fn lemma_context_payload_law(c: AnalysisContext)
    requires
        strictly_ascending(c.contextual_table().keys()),
        strictly_ascending(c.user_data_table().keys()),
    ensures
        context_payload_model(c).contextual_strings is None <==> c@.contextual_strings.dom().is_empty(),
        context_payload_model(c).user_data is None <==> c@.user_data.dom().is_empty(),
        context_payload_model(c).contextual_strings matches Some(e) ==> {
            &&& entry_tags(e) == c.contextual_table().keys()
            &&& forall|i: int| 0 <= i < e.len() ==> c@.contextual_strings.contains_key(#[trigger] e[i].0)
                && c@.contextual_strings[e[i].0] == e[i].1
        },
        context_payload_model(c).user_data matches Some(e) ==> {
            &&& entry_tags(e) == c.user_data_table().keys()
            &&& forall|i: int| 0 <= i < e.len() ==> c@.user_data.contains_key(#[trigger] e[i].0)
                && c@.user_data[e[i].0] == e[i].1
        },
{
    let ck = c.contextual_table().keys();
    let cv = c.contextual_table().values();
    let uk = c.user_data_table().keys();
    let uv = c.user_data_table().values();
    if ck.len() == 0 {
        assert(c@.contextual_strings.dom() =~= Set::<Seq<char>>::empty());
    } else {
        assert(c@.contextual_strings.contains_key(ck[0]));
        assert(entry_tags(table_entries(c.contextual_table())) =~= ck);
        assert forall|i: int| 0 <= i < ck.len() implies c@.contextual_strings.contains_key(
            #[trigger] table_entries(c.contextual_table())[i].0,
        ) && c@.contextual_strings[table_entries(c.contextual_table())[i].0]
            == table_entries(c.contextual_table())[i].1 by {
            lemma_keyed_map_at(ck, cv, i);
        }
    }
    if uk.len() == 0 {
        assert(c@.user_data.dom() =~= Set::<Seq<char>>::empty());
    } else {
        assert(c@.user_data.contains_key(uk[0]));
        assert(entry_tags(table_entries(c.user_data_table())) =~= uk);
        assert forall|i: int| 0 <= i < uk.len() implies c@.user_data.contains_key(
            #[trigger] table_entries(c.user_data_table())[i].0,
        ) && c@.user_data[table_entries(c.user_data_table())[i].0]
            == table_entries(c.user_data_table())[i].1 by {
            lemma_keyed_map_at(uk, uv, i);
        }
    }
}

} // verus!
