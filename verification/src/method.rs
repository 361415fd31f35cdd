//! The scoring formulas a matching call can ask for.

use vstd::prelude::*;

verus! {

/// How the template is scored against each window of the input.
///
/// Lower scores are better matches for both methods; neither is normalised.
#[derive(Copy, Clone, Debug, PartialEq, Eq, Structural)]
pub enum MatchTemplateMethod {
    /// The sum over the template of `|input - template|`.
    SumOfAbsoluteDifferences,
    /// The sum over the template of `(input - template)^2`.
    SumOfSquaredDifferences,
}

impl MatchTemplateMethod {
    /// The kernel entry point that computes this method.
    pub open spec fn spec_entry_point(self) -> Seq<char> {
        match self {
            MatchTemplateMethod::SumOfAbsoluteDifferences => "main_sad"@,
            MatchTemplateMethod::SumOfSquaredDifferences => "main_ssd"@,
        }
    }

    /// Name of the kernel entry point that computes this method.
    pub fn entry_point(self) -> (name: &'static str)
        ensures
            name@ == self.spec_entry_point(),
    {
        match self {
            MatchTemplateMethod::SumOfAbsoluteDifferences => "main_sad",
            MatchTemplateMethod::SumOfSquaredDifferences => "main_ssd",
        }
    }
}

} // verus!
