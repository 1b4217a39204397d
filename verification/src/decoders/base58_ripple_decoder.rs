//! The Base58 decoder plugin for the Ripple alphabet.

use vstd::prelude::*;
use vstd::utf8::*;
use crate::checkers::CheckResult;
use crate::decoders::crack_results::CrackResult;
use crate::decoders::interface::{
    candidates,
    judge,
    Crack,
    Decoder,
    DecoderView,
    EntropyBand,
};
use crate::decoders::plausibility::PlausibilityFilter;
use crate::decoders::text::{
    lemma_lossy_text_of_encoding,
    lemma_lossy_text_of_nothing,
    lossy_text,
    option_bytes,
    option_text,
    utf8_lossy,
};

verus! {

pub const BASE58_RIPPLE_NAME: &'static str = "base58_ripple";

pub const BASE58_RIPPLE_DESCRIPTION: &'static str =
    "Base58 is a group of binary-to-text encoding schemes that represent binary data (more specifically, a sequence of 8-bit bytes) in an ASCII string format by translating the data into a radix-32 representation.";

pub const BASE58_RIPPLE_LINK: &'static str = "https://en.wikipedia.org/wiki/Base58";

/// What the Base58 codec makes of `input` under the Ripple alphabet: the
/// bytes it decodes to, or `None` where it is refused.
pub uninterp spec fn base58_ripple_decoding(input: Seq<u8>) -> Option<Seq<u8>>;

/// What the Base58 plugin makes of a text: its bytes decoded, and the result
/// read as text.
pub open spec fn base58_ripple_text(text: Seq<char>) -> Option<Seq<char>> {
    match base58_ripple_decoding(encode_utf8(text)) {
        Some(bytes) => Some(lossy_text(bytes)),
        None => None,
    }
}

/// The descriptor of the Base58 plugin for the Ripple alphabet.
pub open spec fn base58_ripple_descriptor() -> DecoderView {
    DecoderView {
        name: BASE58_RIPPLE_NAME@,
        description: BASE58_RIPPLE_DESCRIPTION@,
        link: BASE58_RIPPLE_LINK@,
        tags: seq![
            "base58_ripple"@,
            "base58"@,
            "ripple"@,
            "cryptocurrency"@,
            "decoder"@,
            "base"@,
        ],
        popularity: 800,
        expected_runtime: 10,
        expected_success: 700,
        failure_runtime: 10,
        normalised_entropy: (1000, 10000),
    }
}

/// `bs58::decode` with `bs58::Alphabet::RIPPLE`, decoded into a fresh
/// vector, with the reason for a refusal dropped. Trusted: the result is a
/// function of the input alone, and an empty input decodes to no bytes.
#[verifier::external_body]
fn base58_ripple_decode(input: &[u8]) -> (decoded: Option<Vec<u8>>)
    ensures
        option_bytes(decoded) == base58_ripple_decoding(input@),
        input@.len() == 0 ==> option_bytes(decoded) == Some(Seq::<u8>::empty()),
{
    bs58::decode(input).with_alphabet(bs58::Alphabet::RIPPLE).into_vec().ok()
}

/// Decodes a Base58 text in the Ripple alphabet. `None` where the codec
/// refuses the text, as it does for a character outside the alphabet.
/// Decoded bytes that are no valid UTF-8 are repaired, not refused.
pub fn decode_base58_ripple_no_error_handling(text: &str) -> (decoded: Option<String>)
    ensures
        option_text(decoded) == base58_ripple_text(text@),
        text@.len() == 0 ==> option_text(decoded) == Some(Seq::<char>::empty()),
{
    proof {
        lemma_lossy_text_of_nothing();
    }
    match base58_ripple_decode(text.as_bytes()) {
        Some(bytes) => Some(utf8_lossy(bytes.as_slice())),
        None => None,
    }
}

/// Round trip: where the codec decodes a text to the UTF-8 bytes of a
/// plaintext, the plugin decodes the text to that plaintext, and an attempt
/// on the text has that plaintext as its one candidate, unless the filter
/// drops it.
pub proof fn lemma_base58_ripple_round_trip(
    filter: PlausibilityFilter,
    encoded: Seq<char>,
    plain: Seq<char>,
)
    requires
        base58_ripple_decoding(encode_utf8(encoded)) == Some(encode_utf8(plain)),
    ensures
        base58_ripple_text(encoded) == Some(plain),
        candidates(filter, base58_ripple_text(encoded), encoded) == if filter.plausible(plain, encoded) {
            Some(seq![plain])
        } else {
            None
        },
{
    lemma_lossy_text_of_encoding(plain);
}

/// The published descriptor makes sense.
pub proof fn lemma_base58_ripple_descriptor_wf()
    ensures
        base58_ripple_descriptor().wf(),
{
    reveal_strlit("base58_ripple");
}

/// The Base58 decoder plugin for the Ripple alphabet.
pub struct Base58RippleDecoder {
    decoder: Decoder,
}

impl Base58RippleDecoder {
    /// The descriptor that a plugin holds is the published one, from the
    /// moment the plugin is built.
    #[verifier::type_invariant]
    spec fn holds_descriptor(self) -> bool {
        self.decoder@ == base58_ripple_descriptor()
    }

    /// Builds the plugin with its descriptor. Decodes nothing.
    pub fn new() -> (plugin: Base58RippleDecoder)
        ensures
            plugin.descriptor() == base58_ripple_descriptor(),
            plugin.descriptor().wf(),
    {
        let decoder = Decoder {
            name: BASE58_RIPPLE_NAME,
            description: BASE58_RIPPLE_DESCRIPTION,
            link: BASE58_RIPPLE_LINK,
            tags: vec!["base58_ripple", "base58", "ripple", "cryptocurrency", "decoder", "base"],
            popularity: 800,
            expected_runtime: 10,
            expected_success: 700,
            failure_runtime: 10,
            normalised_entropy: EntropyBand { low: 1000, high: 10000 },
        };
        proof {
            lemma_base58_ripple_descriptor_wf();
            assert(decoder@.tags =~= base58_ripple_descriptor().tags);
        }
        Base58RippleDecoder { decoder }
    }
}

impl Crack for Base58RippleDecoder {
    closed spec fn descriptor(&self) -> DecoderView {
        self.decoder@
    }

    open spec fn decoding(text: Seq<char>) -> Option<Seq<char>> {
        base58_ripple_text(text)
    }

    fn crack<'a, F: Fn(&str) -> CheckResult>(
        &'a self,
        text: &str,
        checker: F,
    ) -> (record: CrackResult<'a>) {
        let decoded_text = decode_base58_ripple_no_error_handling(text);
        judge(&self.decoder, &PlausibilityFilter::lenient(), text, decoded_text, checker)
    }

    fn crack_with_filter<'a, F: Fn(&str) -> CheckResult>(
        &'a self,
        text: &str,
        checker: F,
        filter: &PlausibilityFilter,
    ) -> (record: CrackResult<'a>) {
        let decoded_text = decode_base58_ripple_no_error_handling(text);
        judge(&self.decoder, filter, text, decoded_text, checker)
    }

    fn get_decoder(&self) -> (decoder: &Decoder)
        ensures
            decoder@ == base58_ripple_descriptor(),
    {
        proof {
            use_type_invariant(self);
            lemma_base58_ripple_descriptor_wf();
        }
        &self.decoder
    }

    fn get_tags(&self) -> (tags: &Vec<&'static str>) {
        &self.decoder.tags
    }

    fn get_name(&self) -> (name: &str) {
        self.decoder.name
    }
}

} // verus!
