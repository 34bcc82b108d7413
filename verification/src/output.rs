//! What the native bridge reports after an analyzer run, decoded: which
//! module each block of results belongs to and what kind of results it
//! holds, and the checks a one-module run makes on them.
use vstd::prelude::*;
use crate::analyzer::{ModuleModel, SpeechAnalyzer, SpeechModuleDescriptor};
use crate::error::{SpeechError, SpeechErrorModel};
use crate::text::{concat_str, decimal_text, str_equal, usize_decimal};

verus! {

/// The two kinds of analyzer module.
#[derive(Debug, Clone, Copy, PartialEq, Eq, Hash, Structural)]
pub enum SpeechModuleKind {
    SpeechTranscriber,
    SpeechDetector,
}

/// The kind of module a model describes.
pub open spec fn kind_of_model(m: ModuleModel) -> SpeechModuleKind {
    match m {
        ModuleModel::SpeechTranscriber(_) => SpeechModuleKind::SpeechTranscriber,
        ModuleModel::SpeechDetector(_) => SpeechModuleKind::SpeechDetector,
    }
}

/// The kind that a kind name reported by the bridge stands for.
pub open spec fn kind_named(name: Seq<char>) -> Option<SpeechModuleKind> {
    if name == "speechTranscriber"@ {
        Some(SpeechModuleKind::SpeechTranscriber)
    } else if name == "speechDetector"@ {
        Some(SpeechModuleKind::SpeechDetector)
    } else {
        None
    }
}

/// An analyzer must run at least one module.
pub open spec fn no_modules_error() -> SpeechErrorModel {
    SpeechErrorModel::InvalidArgument("speech analyzer requires at least one module"@)
}

impl SpeechAnalyzer {
    /// Checks that the analyzer has a module to run.
    pub fn require_modules(&self) -> (r: Result<(), SpeechError>)
        ensures
            r is Ok <==> self@.modules.len() > 0,
            r matches Err(e) ==> e@ == no_modules_error(),
    {
        if self.modules().len() == 0 {
            Err(SpeechError::InvalidArgument("speech analyzer requires at least one module".to_owned()))
        } else {
            Ok(())
        }
    }
}

/// One block of results reported by the bridge: the index of the module
/// it belongs to and the kind of results it holds.
#[derive(Debug, Clone, PartialEq, Eq)]
pub struct ModuleOutputEntry {
    pub module_index: usize,
    pub kind: String,
}

/// A block of results matched to the module it belongs to.
#[derive(Debug, Clone, PartialEq, Eq)]
pub struct ResolvedModuleOutput {
    pub module_index: usize,
    pub module: SpeechModuleDescriptor,
    pub kind: SpeechModuleKind,
}

/// Why the block `(index, kind)` cannot be matched to one of `n` modules, if it cannot.
pub open spec fn entry_error(n: nat, index: usize, kind: Seq<char>) -> Option<SpeechErrorModel> {
    if index >= n {
        Some(
            SpeechErrorModel::InvalidArgument(
                "speech analyzer output referenced unknown module index "@ + decimal_text(
                    index as nat,
                ),
            ),
        )
    } else if kind_named(kind) is None {
        Some(SpeechErrorModel::InvalidArgument("speech analyzer returned unsupported module kind "@ + kind))
    } else {
        None
    }
}

/// Why a block of results cannot be matched to one of `modules`, if it cannot.
pub open spec fn entry_error_of(modules: Seq<SpeechModuleDescriptor>, e: ModuleOutputEntry) -> Option<SpeechErrorModel> {
    entry_error(modules.len(), e.module_index, e.kind@)
}

/// Matches each reported block of results to its module, in the order
/// reported. The first block that names no module of `modules`, or a kind
/// of results that is neither, is refused with its error.
pub fn resolve_module_outputs(
    modules: &[SpeechModuleDescriptor],
    entries: &[ModuleOutputEntry],
) -> (r: Result<Vec<ResolvedModuleOutput>, SpeechError>)
    ensures
        match r {
            Ok(v) => {
                &&& forall|i: int| 0 <= i < entries@.len() ==> entry_error_of(modules@, #[trigger] entries@[i]) is None
                &&& v@.len() == entries@.len()
                &&& forall|i: int| 0 <= i < entries@.len() ==> {
                    &&& (#[trigger] v@[i]).module_index == entries@[i].module_index
                    &&& v@[i].module@ == modules@[entries@[i].module_index as int]@
                    &&& Some(v@[i].kind) == kind_named(entries@[i].kind@)
                }
            },
            Err(e) => exists|i: int| {
                &&& 0 <= i < entries@.len()
                &&& entry_error_of(modules@, #[trigger] entries@[i]) == Some(e@)
                &&& forall|j: int| 0 <= j < i ==> entry_error_of(modules@, #[trigger] entries@[j]) is None
            },
        },
{
    let mut out: Vec<ResolvedModuleOutput> = Vec::new();
    let mut i: usize = 0;
    while i < entries.len()
        invariant
            i <= entries@.len(),
            out@.len() == i,
            forall|j: int| 0 <= j < i ==> entry_error_of(modules@, #[trigger] entries@[j]) is None,
            forall|j: int| 0 <= j < i ==> {
                &&& (#[trigger] out@[j]).module_index == entries@[j].module_index
                &&& out@[j].module@ == modules@[entries@[j].module_index as int]@
                &&& Some(out@[j].kind) == kind_named(entries@[j].kind@)
            },
        decreases entries@.len() - i,
    {
        let entry = &entries[i];
        let index = entry.module_index;
        if index >= modules.len() {
            let e = SpeechError::InvalidArgument(
                concat_str(
                    "speech analyzer output referenced unknown module index ",
                    usize_decimal(index).as_str(),
                ),
            );
            assert(entry_error_of(modules@, entries@[i as int]) == Some(e@));
            return Err(e);
        }
        let kind = if str_equal(entry.kind.as_str(), "speechTranscriber") {
            SpeechModuleKind::SpeechTranscriber
        } else if str_equal(entry.kind.as_str(), "speechDetector") {
            SpeechModuleKind::SpeechDetector
        } else {
            let e = SpeechError::InvalidArgument(
                concat_str("speech analyzer returned unsupported module kind ", entry.kind.as_str()),
            );
            assert(entry_error_of(modules@, entries@[i as int]) == Some(e@));
            return Err(e);
        };
        let resolved = ResolvedModuleOutput { module_index: index, module: modules[index].clone(), kind };
        out.push(resolved);
        i = i + 1;
    }
    Ok(out)
}

/// The error of a one-module run that reported no results.
pub open spec fn missing_output_error(expected: SpeechModuleKind) -> SpeechErrorModel {
    match expected {
        SpeechModuleKind::SpeechTranscriber => SpeechErrorModel::RecognitionFailed(
            "speech analyzer produced no transcriber output"@,
        ),
        SpeechModuleKind::SpeechDetector => SpeechErrorModel::RecognitionFailed(
            "speech analyzer produced no detector output"@,
        ),
    }
}

/// The error of a one-module run that reported the other kind of results.
pub open spec fn wrong_output_error(expected: SpeechModuleKind) -> SpeechErrorModel {
    match expected {
        SpeechModuleKind::SpeechTranscriber => SpeechErrorModel::RecognitionFailed(
            "speech analyzer returned detector results for a speech transcriber"@,
        ),
        SpeechModuleKind::SpeechDetector => SpeechErrorModel::RecognitionFailed(
            "speech analyzer returned transcriber results for a speech detector"@,
        ),
    }
}

/// Checks the first block of results of a one-module run, given its kind
/// if there is one, against the kind of module that ran.
pub fn check_first_module_output(first: Option<SpeechModuleKind>, expected: SpeechModuleKind) -> (r: Result<(), SpeechError>)
    ensures
        r is Ok <==> first == Some(expected),
        first is None ==> r is Err && r->Err_0@ == missing_output_error(expected),
        first matches Some(k) && k != expected ==> r is Err && r->Err_0@ == wrong_output_error(expected),
{
    match first {
        None => match expected {
            SpeechModuleKind::SpeechTranscriber => Err(
                SpeechError::RecognitionFailed("speech analyzer produced no transcriber output".to_owned()),
            ),
            SpeechModuleKind::SpeechDetector => Err(
                SpeechError::RecognitionFailed("speech analyzer produced no detector output".to_owned()),
            ),
        },
        Some(kind) => {
            if kind == expected {
                Ok(())
            } else {
                match expected {
                    SpeechModuleKind::SpeechTranscriber => Err(
                        SpeechError::RecognitionFailed(
                            "speech analyzer returned detector results for a speech transcriber".to_owned(),
                        ),
                    ),
                    SpeechModuleKind::SpeechDetector => Err(
                        SpeechError::RecognitionFailed(
                            "speech analyzer returned transcriber results for a speech detector".to_owned(),
                        ),
                    ),
                }
            }
        },
    }
}

/// The kind name a descriptor reports is read back as that module's kind,
/// so a block of results labelled by a module's own kind name always
/// resolves.
pub proof fn lemma_kind_name_round_trip(m: ModuleModel)
    ensures
        kind_named(m.kind_name()) == Some(kind_of_model(m)),
{
    reveal_strlit("speechTranscriber");
    reveal_strlit("speechDetector");
    assert("speechDetector"@.len() != "speechTranscriber"@.len());
}

} // verus!
