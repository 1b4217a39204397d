//! What every decoder plugin shares: its descriptor, the second half of an
//! attempt, and the interface that a scheduler sees.

use vstd::prelude::*;
use crate::checkers::CheckResult;
use crate::decoders::crack_results::{CrackResult, CrackResultView};
use crate::decoders::plausibility::{plausible, PlausibilityFilter};
use crate::decoders::text::option_text;

verus! {

/// A closed range of Shannon entropy, in thousandths of a bit.
#[derive(Clone, Copy, Debug, PartialEq, Eq)]
pub struct EntropyBand {
    pub low: u32,
    pub high: u32,
}

/// The descriptor of a decoder plugin: who it is, and what an attempt with
/// it is expected to cost and to yield. A scheduler ranks plugins by these
/// numbers without running them. Pure data: a plugin builds its descriptor
/// once and only ever lends it out.
///
/// Weights, probabilities and times are fixed-point numbers in thousandths:
/// a popularity of 800 stands for 0.8, a runtime of 10 for 0.01 seconds.
#[derive(Debug, PartialEq, Eq)]
pub struct Decoder {
    /// The scheme's unique name.
    pub name: &'static str,
    /// A description of the scheme, for people.
    pub description: &'static str,
    /// Where to read more about the scheme.
    pub link: &'static str,
    /// Category labels by which a scheduler filters and groups plugins.
    pub tags: Vec<&'static str>,
    /// How often the scheme turns up in real inputs; higher is tried earlier.
    pub popularity: u32,
    /// The expected duration of a successful attempt, in milliseconds.
    pub expected_runtime: u32,
    /// The probability that decoding succeeds when the scheme is the right one.
    pub expected_success: u32,
    /// The expected duration of a failing attempt, in milliseconds.
    pub failure_runtime: u32,
    /// The entropy band in which the scheme's valid inputs usually lie.
    pub normalised_entropy: EntropyBand,
}

/// The mathematical content of a [`Decoder`].
pub struct DecoderView {
    pub name: Seq<char>,
    pub description: Seq<char>,
    pub link: Seq<char>,
    pub tags: Seq<Seq<char>>,
    pub popularity: nat,
    pub expected_runtime: nat,
    pub expected_success: nat,
    pub failure_runtime: nat,
    pub normalised_entropy: (nat, nat),
}

impl DecoderView {
    /// A descriptor makes sense when it has a name, its success rate is a
    /// probability and its entropy band is not empty.
    pub open spec fn wf(self) -> bool {
        &&& self.name.len() > 0
        &&& self.expected_success <= 1000
        &&& self.normalised_entropy.0 <= self.normalised_entropy.1
    }
}

impl View for Decoder {
    type V = DecoderView;

    open spec fn view(&self) -> DecoderView {
        DecoderView {
            name: self.name@,
            description: self.description@,
            link: self.link@,
            tags: Seq::new(self.tags@.len(), |i: int| self.tags@[i]@),
            popularity: self.popularity as nat,
            expected_runtime: self.expected_runtime as nat,
            expected_success: self.expected_success as nat,
            failure_runtime: self.failure_runtime as nat,
            normalised_entropy: (
                self.normalised_entropy.low as nat,
                self.normalised_entropy.high as nat,
            ),
        }
    }
}

/// The plausibility filter with its tunable rule off: rejects an empty
/// decoding, which says nothing, and a decoding equal to the input, which
/// would send a search in circles.
pub fn check_string_success(decoded_text: &str, input_text: &str) -> (keep: bool)
    ensures
        keep == plausible(decoded_text@, input_text@),
{
    PlausibilityFilter::lenient().accepts(decoded_text, input_text)
}

/// The decoding that gets past the filter, if there is one.
pub open spec fn survivor(
    filter: PlausibilityFilter,
    decoded: Option<Seq<char>>,
    input: Seq<char>,
) -> Option<Seq<char>> {
    match decoded {
        Some(text) => if filter.plausible(text, input) {
            Some(text)
        } else {
            None
        },
        None => None,
    }
}

/// The candidates of an attempt: the survivor alone, or none.
pub open spec fn candidates(
    filter: PlausibilityFilter,
    decoded: Option<Seq<char>>,
    input: Seq<char>,
) -> Option<Seq<Seq<char>>> {
    match survivor(filter, decoded, input) {
        Some(candidate) => Some(seq![candidate]),
        None => None,
    }
}

/// Whether `record` is what an attempt on `text` comes to, when the codec
/// made `decoded` of it. Without a survivor the record is fresh and the
/// checker was never asked. With one, the record holds exactly that
/// candidate, and a verdict that the checker gave on it.
pub open spec fn cracked<F: Fn(&str) -> CheckResult>(
    decoder: DecoderView,
    filter: PlausibilityFilter,
    text: Seq<char>,
    decoded: Option<Seq<char>>,
    checker: F,
    record: CrackResultView,
) -> bool {
    match survivor(filter, decoded, text) {
        Some(candidate) => exists|asked: &str, verdict: CheckResult|
            #![trigger call_ensures(checker, (asked,), verdict)]
            {
                &&& asked@ == candidate
                &&& call_ensures(checker, (asked,), verdict)
                &&& record == CrackResultView::fresh(decoder, text).with_candidates(
                    seq![candidate],
                ).merged(verdict@)
            },
        None => record == CrackResultView::fresh(decoder, text),
    }
}

/// The second half of every attempt: filters what the codec made of `text`,
/// asks the checker about a survivor, and assembles the record.
pub fn judge<'a, F: Fn(&str) -> CheckResult>(
    decoder: &'a Decoder,
    filter: &PlausibilityFilter,
    text: &str,
    decoded_text: Option<String>,
    checker: F,
) -> (record: CrackResult<'a>)
    requires
        forall|asked: &str| filter.plausible(asked@, text@) ==> call_requires(checker, (asked,)),
    ensures
        cracked(decoder@, *filter, text@, option_text(decoded_text), checker, record@),
        record@.unencrypted_text == candidates(*filter, option_text(decoded_text), text@),
        record@.unencrypted_text matches Some(found) ==> forall|i: int|
            0 <= i < found.len() ==> found[i] != text@,
{
    let mut results = CrackResult::new(decoder, text.to_owned());
    let candidate = match decoded_text {
        Some(candidate) => candidate,
        None => {
            return results;
        },
    };
    if !filter.accepts(candidate.as_str(), text) {
        return results;
    }
    let checker_result = checker(candidate.as_str());
    results.unencrypted_text = Some(vec![candidate]);
    results.update_checker(&checker_result);
    assert(results@.unencrypted_text->0 =~= seq![candidate@]);
    results
}

/// A decoder plugin: one encoding scheme behind the interface that all
/// schemes share.
pub trait Crack {
    /// The plugin's descriptor, as plain data.
    spec fn descriptor(&self) -> DecoderView;

    /// What the scheme's codec makes of a text, before anything is filtered:
    /// `None` where the text is no instance of the scheme.
    spec fn decoding(text: Seq<char>) -> Option<Seq<char>>;

    /// Tries to read `text` as an instance of the scheme. Any text may be
    /// handed in. There is a candidate exactly when the codec accepts the
    /// text and its decoding passes the two fixed rules of the filter; only
    /// then is the checker asked, once, about that candidate.
    fn crack<'a, F: Fn(&str) -> CheckResult>(
        &'a self,
        text: &str,
        checker: F,
    ) -> (record: CrackResult<'a>)
        requires
            forall|asked: &str| plausible(asked@, text@) ==> call_requires(checker, (asked,)),
        ensures
            cracked(
                self.descriptor(),
                PlausibilityFilter::lenient(),
                text@,
                Self::decoding(text@),
                checker,
                record@,
            ),
            record@.unencrypted_text == candidates(
                PlausibilityFilter::lenient(),
                Self::decoding(text@),
                text@,
            ),
            text@.len() == 0 ==> record@.unencrypted_text is None,
            record@.unencrypted_text matches Some(found) ==> forall|i: int|
                0 <= i < found.len() ==> found[i] != text@,
    ;

    /// As [`Crack::crack`], with the filter's tunable rule set by the caller.
    fn crack_with_filter<'a, F: Fn(&str) -> CheckResult>(
        &'a self,
        text: &str,
        checker: F,
        filter: &PlausibilityFilter,
    ) -> (record: CrackResult<'a>)
        requires
            forall|asked: &str|
                filter.plausible(asked@, text@) ==> call_requires(checker, (asked,)),
        ensures
            cracked(self.descriptor(), *filter, text@, Self::decoding(text@), checker, record@),
            record@.unencrypted_text == candidates(*filter, Self::decoding(text@), text@),
            text@.len() == 0 ==> record@.unencrypted_text is None,
            record@.unencrypted_text matches Some(found) ==> forall|i: int|
                0 <= i < found.len() ==> found[i] != text@,
    ;

    /// The plugin's descriptor, which makes sense.
    fn get_decoder(&self) -> (decoder: &Decoder)
        ensures
            decoder@ == self.descriptor(),
            decoder@.wf(),
    ;

    /// The plugin's category labels.
    fn get_tags(&self) -> (tags: &Vec<&'static str>)
        ensures
            tags@.len() == self.descriptor().tags.len(),
            forall|i: int| 0 <= i < tags@.len() ==> tags@[i]@ == self.descriptor().tags[i],
    ;

    /// The plugin's name.
    fn get_name(&self) -> (name: &str)
        ensures
            name@ == self.descriptor().name,
    ;
}

} // verus!
