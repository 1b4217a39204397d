//! The record of one decoding attempt.

use vstd::prelude::*;
use crate::checkers::{CheckResult, CheckResultView};
use crate::decoders::interface::{Decoder, DecoderView};

verus! {

/// What one attempt of one decoder on one input came to: the candidate
/// plaintexts, if any survived, and what the checker said of them.
#[derive(Debug, PartialEq, Eq)]
pub struct CrackResult<'a> {
    /// Whether the checker recognised a candidate as plaintext.
    pub success: bool,
    /// The input, exactly as it was handed in.
    pub input_text: String,
    /// The candidate plaintexts in order, or `None` when decoding failed or
    /// the result was filtered out.
    pub unencrypted_text: Option<Vec<String>>,
    /// The descriptor of the decoder that made this record.
    pub source_descriptor: &'a Decoder,
    /// The name of the checker whose verdict was merged in; empty before.
    pub checker_name: &'static str,
    /// What the checker matched; empty before a verdict was merged in.
    pub checker_description: String,
}

/// The mathematical content of a [`CrackResult`].
pub struct CrackResultView {
    pub success: bool,
    pub input_text: Seq<char>,
    pub unencrypted_text: Option<Seq<Seq<char>>>,
    pub source_descriptor: DecoderView,
    pub checker_name: Seq<char>,
    pub checker_description: Seq<char>,
}

impl CrackResultView {
    /// The record at the start of an attempt: no candidate, no verdict.
    pub open spec fn fresh(decoder: DecoderView, text: Seq<char>) -> CrackResultView {
        CrackResultView {
            success: false,
            input_text: text,
            unencrypted_text: None,
            source_descriptor: decoder,
            checker_name: Seq::empty(),
            checker_description: Seq::empty(),
        }
    }

    /// The record with its candidates replaced.
    pub open spec fn with_candidates(self, candidates: Seq<Seq<char>>) -> CrackResultView {
        CrackResultView { unencrypted_text: Some(candidates), ..self }
    }

    /// The record after a checker's verdict was folded in: the verdict's
    /// three fields overwrite the record's, everything else stays.
    pub open spec fn merged(self, verdict: CheckResultView) -> CrackResultView {
        CrackResultView {
            success: verdict.is_identified,
            checker_name: verdict.checker_name,
            checker_description: verdict.description,
            ..self
        }
    }
}

impl<'a> View for CrackResult<'a> {
    type V = CrackResultView;

    open spec fn view(&self) -> CrackResultView {
        CrackResultView {
            success: self.success,
            input_text: self.input_text@,
            unencrypted_text: match self.unencrypted_text {
                Some(candidates) => Some(
                    Seq::new(candidates@.len(), |i: int| candidates@[i]@),
                ),
                None => None,
            },
            source_descriptor: self.source_descriptor@,
            checker_name: self.checker_name@,
            checker_description: self.checker_description@,
        }
    }
}

impl<'a> CrackResult<'a> {
    /// Starts the record of an attempt by `decoder_used` on `text`.
    pub fn new(decoder_used: &'a Decoder, text: String) -> (record: CrackResult<'a>)
        ensures
            record@ == CrackResultView::fresh(decoder_used@, text@),
    {
        let record = CrackResult {
            success: false,
            input_text: text,
            unencrypted_text: None,
            source_descriptor: decoder_used,
            checker_name: "",
            checker_description: String::new(),
        };
        proof {
            reveal_strlit("");
            assert(record.checker_name@ =~= Seq::<char>::empty());
        }
        record
    }

    /// Folds a checker's verdict into the record. The input, the decoder and
    /// the candidates stay as they are.
    pub fn update_checker(&mut self, checker_result: &CheckResult)
        ensures
            final(self)@ == old(self)@.merged(checker_result@),
    {
        self.checker_name = checker_result.checker_name;
        self.checker_description = checker_result.description.clone();
        self.success = checker_result.is_identified;
    }
}

/// Merging the same verdict a second time changes nothing.
pub proof fn lemma_merge_idempotent(record: CrackResultView, verdict: CheckResultView)
    ensures
        record.merged(verdict).merged(verdict) == record.merged(verdict),
{
}

/// A merge keeps the input, the decoder and the candidates.
pub proof fn lemma_merge_keeps_attempt(record: CrackResultView, verdict: CheckResultView)
    ensures
        record.merged(verdict).input_text == record.input_text,
        record.merged(verdict).source_descriptor == record.source_descriptor,
        record.merged(verdict).unencrypted_text == record.unencrypted_text,
{
}

} // verus!
