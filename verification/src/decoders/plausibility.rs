//! The plausibility filter: the cheap test that a decoding has to pass
//! before a checker is asked about it.
//!
//! Two rules are fixed: an empty decoding is dropped, and so is one that
//! equals the input. A third is tunable: the share of printable characters
//! that a decoding must reach.

use vstd::prelude::*;
use vstd::string::*;
use vstd::utf8::*;
use crate::decoders::text::same_text;

verus! {

/// Whether a character shows as text: the visible ASCII characters and the
/// space, tab and the two line ends, and everything from U+00A0 on but the
/// replacement character U+FFFD, which marks a byte that could not be read.
pub open spec fn is_printable(c: char) -> bool {
    ||| ' ' <= c <= '~'
    ||| c == '\t'
    ||| c == '\n'
    ||| c == '\r'
    ||| ('\u{a0}' <= c && c != '\u{fffd}')
}

/// The number of printable characters in a text.
pub open spec fn printable_count(text: Seq<char>) -> nat
    decreases text.len(),
{
    if text.len() == 0 {
        0
    } else {
        printable_count(text.drop_last()) + if is_printable(text.last()) {
            1nat
        } else {
            0nat
        }
    }
}

/// A text has no more characters than its UTF-8 encoding has bytes.
pub proof fn lemma_text_no_longer_than_bytes(text: Seq<char>)
    ensures
        text.len() <= encode_utf8(text).len(),
    decreases text.len(),
{
    if text.len() > 0 {
        lemma_text_no_longer_than_bytes(text.drop_first());
    }
}

/// Whether `c` is printable.
pub fn is_printable_char(c: char) -> (printable: bool)
    ensures
        printable == is_printable(c),
{
    (' ' <= c && c <= '~') || c == '\t' || c == '\n' || c == '\r' || ('\u{a0}' <= c && c
        != '\u{fffd}')
}

/// Counts the printable characters of a text, and all of its characters, in
/// one pass and without allocating.
pub fn count_printable(text: &str) -> (counts: (usize, usize))
    ensures
        counts.0 == printable_count(text@),
        counts.1 == text@.len(),
{
    let mut printable: usize = 0;
    let mut total: usize = 0;
    // A text has at most as many characters as bytes, so no count overflows.
    if text.as_bytes().len() == 0 {
        proof {
            lemma_text_no_longer_than_bytes(text@);
        }
        return (0, 0);
    }
    proof {
        lemma_text_no_longer_than_bytes(text@);
    }
    for c in chars: text.chars()
        invariant
            chars.seq() == text@,
            text@.len() <= usize::MAX,
            total == chars.index(),
            printable == printable_count(text@.take(chars.index() as int)),
            printable <= total,
    {
        proof {
            assert(text@.take(chars.index() + 1).drop_last() =~= text@.take(
                chars.index() as int,
            ));
        }
        if is_printable_char(c) {
            printable += 1;
        }
        total += 1;
    }
    assert(text@.take(text@.len() as int) =~= text@);
    (printable, total)
}

/// The plausibility filter with its tunable.
#[derive(Clone, Copy, Debug, PartialEq, Eq)]
pub struct PlausibilityFilter {
    /// How many of a thousand characters of a decoding must be printable, at
    /// the least. At 0 the rule is off; at 1000 every character must be
    /// printable.
    pub min_printable: u32,
}

impl PlausibilityFilter {
    /// Whether a decoding is worth keeping: it holds some text, that text is
    /// not the input handed back unchanged, and enough of it is printable.
    pub open spec fn plausible(self, decoded: Seq<char>, input: Seq<char>) -> bool {
        &&& decoded.len() > 0
        &&& decoded != input
        &&& printable_count(decoded) * 1000 >= self.min_printable * decoded.len()
    }

    /// The filter with the tunable rule off.
    pub open spec fn spec_lenient() -> PlausibilityFilter {
        PlausibilityFilter { min_printable: 0 }
    }

    /// The filter with the tunable rule off: only the two fixed rules hold.
    #[verifier::when_used_as_spec(spec_lenient)]
    pub fn lenient() -> (filter: PlausibilityFilter)
        ensures
            filter == PlausibilityFilter::spec_lenient(),
    {
        PlausibilityFilter { min_printable: 0 }
    }

    /// Runs the filter on a decoding of `input_text`. Takes time linear
    /// in the decoding and allocates nothing.
    pub fn accepts(&self, decoded_text: &str, input_text: &str) -> (keep: bool)
        ensures
            keep == self.plausible(decoded_text@, input_text@),
    {
        if decoded_text.is_empty() {
            return false;
        }
        if same_text(decoded_text, input_text) {
            return false;
        }
        if self.min_printable == 0 {
            return true;
        }
        let (printable, total) = count_printable(decoded_text);
        let needed: u128 = self.min_printable as u128;
        let length: u128 = total as u128;
        assert(needed * length <= 0xffff_ffff * 0xffff_ffff_ffff_ffff) by (nonlinear_arith)
            requires
                needed <= 0xffff_ffff,
                length <= 0xffff_ffff_ffff_ffff,
        ;
        (printable as u128) * 1000 >= needed * length
    }
}

/// The filter's two fixed rules.
pub open spec fn plausible(decoded: Seq<char>, input: Seq<char>) -> bool {
    decoded.len() > 0 && decoded != input
}

/// Whatever the tunable, the filter keeps no empty decoding and none that
/// equals the input.
pub proof fn lemma_filter_keeps_fixed_rules(
    filter: PlausibilityFilter,
    decoded: Seq<char>,
    input: Seq<char>,
)
    requires
        filter.plausible(decoded, input),
    ensures
        plausible(decoded, input),
{
}

} // verus!
