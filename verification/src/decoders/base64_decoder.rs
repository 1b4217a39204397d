//! The Base64 decoder plugin.

use vstd::prelude::*;
use vstd::utf8::*;
use crate::checkers::CheckResult;
use crate::decoders::crack_results::CrackResult;
use crate::decoders::interface::{
    candidates,
    judge,
    Crack,
    Decoder,
    DecoderView,
    EntropyBand,
};
use crate::decoders::plausibility::PlausibilityFilter;
use crate::decoders::text::{
    lemma_lossy_text_of_encoding,
    lemma_lossy_text_of_nothing,
    lossy_text,
    option_bytes,
    option_text,
    utf8_lossy,
};

verus! {

pub const BASE64_NAME: &'static str = "base64";

pub const BASE64_DESCRIPTION: &'static str =
    " Base64 is a group of binary-to-text encoding schemes that represent binary data (more specifically, a sequence of 8-bit bytes) in an ASCII string format by translating the data into a radix-64 representation.";

pub const BASE64_LINK: &'static str = "https://en.wikipedia.org/wiki/Base64";

/// What the standard Base64 codec makes of `input`: the bytes it decodes to,
/// or `None` where it is refused.
pub uninterp spec fn base64_standard_decoding(input: Seq<u8>) -> Option<Seq<u8>>;

/// What the Base64 plugin makes of a text: its bytes decoded, and the result
/// read as text.
pub open spec fn base64_text(text: Seq<char>) -> Option<Seq<char>> {
    match base64_standard_decoding(encode_utf8(text)) {
        Some(bytes) => Some(lossy_text(bytes)),
        None => None,
    }
}

/// The descriptor of the Base64 plugin.
pub open spec fn base64_descriptor() -> DecoderView {
    DecoderView {
        name: BASE64_NAME@,
        description: BASE64_DESCRIPTION@,
        link: BASE64_LINK@,
        tags: seq!["base64"@, "decoder"@, "baser"@],
        popularity: 1100,
        expected_runtime: 10,
        expected_success: 1000,
        failure_runtime: 10,
        normalised_entropy: (1000, 10000),
    }
}

/// `base64::decode`, which decodes with the standard alphabet and padding,
/// with the reason for a refusal dropped. Trusted: the result is a function
/// of the input alone, and an empty input decodes to no bytes.
#[verifier::external_body]
fn base64_standard_decode(input: &[u8]) -> (decoded: Option<Vec<u8>>)
    ensures
        option_bytes(decoded) == base64_standard_decoding(input@),
        input@.len() == 0 ==> option_bytes(decoded) == Some(Seq::<u8>::empty()),
{
    base64::decode(input).ok()
}

/// Round trip: where the codec decodes a text to the UTF-8 bytes of a
/// plaintext, the plugin decodes the text to that plaintext, and an attempt
/// on the text has that plaintext as its one candidate, unless the filter
/// drops it.
pub proof fn lemma_base64_round_trip(
    filter: PlausibilityFilter,
    encoded: Seq<char>,
    plain: Seq<char>,
)
    requires
        base64_standard_decoding(encode_utf8(encoded)) == Some(encode_utf8(plain)),
    ensures
        base64_text(encoded) == Some(plain),
        candidates(filter, base64_text(encoded), encoded) == if filter.plausible(plain, encoded) {
            Some(seq![plain])
        } else {
            None
        },
{
    lemma_lossy_text_of_encoding(plain);
}

/// The published descriptor makes sense.
pub proof fn lemma_base64_descriptor_wf()
    ensures
        base64_descriptor().wf(),
{
    reveal_strlit("base64");
}

/// The Base64 decoder plugin.
pub struct Base64Decoder {
    decoder: Decoder,
}

impl Base64Decoder {
    /// The descriptor that a plugin holds is the published one, from the
    /// moment the plugin is built.
    #[verifier::type_invariant]
    spec fn holds_descriptor(self) -> bool {
        self.decoder@ == base64_descriptor()
    }

    /// Builds the plugin with its descriptor. Decodes nothing.
    pub fn new() -> (plugin: Base64Decoder)
        ensures
            plugin.descriptor() == base64_descriptor(),
            plugin.descriptor().wf(),
    {
        let decoder = Decoder {
            name: BASE64_NAME,
            description: BASE64_DESCRIPTION,
            link: BASE64_LINK,
            tags: vec!["base64", "decoder", "baser"],
            popularity: 1100,
            expected_runtime: 10,
            expected_success: 1000,
            failure_runtime: 10,
            normalised_entropy: EntropyBand { low: 1000, high: 10000 },
        };
        proof {
            lemma_base64_descriptor_wf();
            assert(decoder@.tags =~= base64_descriptor().tags);
        }
        Base64Decoder { decoder }
    }

    /// Decodes a Base64 text. `None` where the codec refuses the text: for a
    /// character outside the alphabet, padding where none belongs, or a
    /// length that no encoding has. Decoded bytes that are no valid UTF-8
    /// are repaired, not refused.
    pub fn decode_base64_no_error_handling(text: &str) -> (decoded: Option<String>)
        ensures
            option_text(decoded) == base64_text(text@),
            text@.len() == 0 ==> option_text(decoded) == Some(Seq::<char>::empty()),
    {
        proof {
            lemma_lossy_text_of_nothing();
        }
        match base64_standard_decode(text.as_bytes()) {
            Some(bytes) => Some(utf8_lossy(bytes.as_slice())),
            None => None,
        }
    }
}

impl Crack for Base64Decoder {
    closed spec fn descriptor(&self) -> DecoderView {
        self.decoder@
    }

    open spec fn decoding(text: Seq<char>) -> Option<Seq<char>> {
        base64_text(text)
    }

    fn crack<'a, F: Fn(&str) -> CheckResult>(
        &'a self,
        text: &str,
        checker: F,
    ) -> (record: CrackResult<'a>) {
        let decoded_text = Base64Decoder::decode_base64_no_error_handling(text);
        judge(&self.decoder, &PlausibilityFilter::lenient(), text, decoded_text, checker)
    }

    fn crack_with_filter<'a, F: Fn(&str) -> CheckResult>(
        &'a self,
        text: &str,
        checker: F,
        filter: &PlausibilityFilter,
    ) -> (record: CrackResult<'a>) {
        let decoded_text = Base64Decoder::decode_base64_no_error_handling(text);
        judge(&self.decoder, filter, text, decoded_text, checker)
    }

    fn get_decoder(&self) -> (decoder: &Decoder)
        ensures
            decoder@ == base64_descriptor(),
    {
        proof {
            use_type_invariant(self);
            lemma_base64_descriptor_wf();
        }
        &self.decoder
    }

    fn get_tags(&self) -> (tags: &Vec<&'static str>) {
        &self.decoder.tags
    }

    fn get_name(&self) -> (name: &str) {
        self.decoder.name
    }
}

} // verus!
