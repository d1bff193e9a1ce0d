//! What is asked of the analysis for a request.

use vstd::prelude::*;

verus! {

/// A tokenize request: the text to analyse. Any text is accepted, the empty
/// one too.
pub struct TokenizeRequest {
    pub text: String,
}

/// How finely the analysis splits compounds.
#[derive(Clone, Copy, Debug, PartialEq, Eq, Structural)]
pub enum SplitMode {
    /// The shortest units.
    A,
    /// Units of middle length.
    B,
    /// The longest units: a compound stays whole.
    C,
}

/// One call of the analysis: its text and its settings.
pub struct AnalysisCall {
    pub text: String,
    pub mode: SplitMode,
    /// Whether the analysis reports on its own work while it runs.
    pub debug: bool,
}

/// Says what is asked of the analysis for a request: the text as it came,
/// split into the longest units, with no extra reporting.
pub fn plan_analysis(request: TokenizeRequest) -> (call: AnalysisCall)
    ensures
        call.text == request.text,
        call.mode == SplitMode::C,
        !call.debug,
{
    AnalysisCall { text: request.text, mode: SplitMode::C, debug: false }
}

} // verus!
