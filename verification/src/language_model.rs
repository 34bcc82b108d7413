//! Custom language models.
use vstd::prelude::*;

verus! {

/// Utilities for building custom `SFSpeechLanguageModel` assets.
#[derive(Debug, Clone, Copy, Default)]
pub struct SpeechLanguageModel;

} // verus!
