//! The verdict that a plaintext checker hands back to a decoder.

use vstd::prelude::*;

verus! {

/// What a checker found out about one candidate text.
#[derive(Debug, PartialEq, Eq)]
pub struct CheckResult {
    /// Whether the checker recognised the text as plaintext.
    pub is_identified: bool,
    /// The name of the checker that gave the verdict.
    pub checker_name: &'static str,
    /// What the checker matched, in words.
    pub description: String,
}

/// The mathematical content of a [`CheckResult`].
pub struct CheckResultView {
    pub is_identified: bool,
    pub checker_name: Seq<char>,
    pub description: Seq<char>,
}

impl View for CheckResult {
    type V = CheckResultView;

    open spec fn view(&self) -> CheckResultView {
        CheckResultView {
            is_identified: self.is_identified,
            checker_name: self.checker_name@,
            description: self.description@,
        }
    }
}

} // verus!
