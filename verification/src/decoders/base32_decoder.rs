//! The Base32 decoder plugin.
//!
//! Padding is not checked but stripped: a text with too few or too many `=`
//! decodes like the same text with none.

use data_encoding::BASE32_NOPAD;
use vstd::prelude::*;
use vstd::utf8::*;
use crate::checkers::CheckResult;
use crate::decoders::crack_results::CrackResult;
use crate::decoders::interface::{
    candidates,
    judge,
    Crack,
    Decoder,
    DecoderView,
    EntropyBand,
};
use crate::decoders::plausibility::PlausibilityFilter;
use crate::decoders::text::{
    bytes_without,
    lemma_encoding_without_ascii,
    lemma_lossy_text_of_encoding,
    lemma_lossy_text_of_nothing,
    lossy_text,
    option_bytes,
    option_text,
    text_without,
    utf8_lossy,
};

verus! {

pub const BASE32_NAME: &'static str = "Base32";

pub const BASE32_DESCRIPTION: &'static str =
    "Base32 is a group of binary-to-text encoding schemes that represent binary data (more specifically, a sequence of 8-bit bytes) in an ASCII string format by translating the data into a radix-32 representation.";

pub const BASE32_LINK: &'static str = "https://en.wikipedia.org/wiki/Base32";

/// The padding character.
pub const PADDING: char = '=';

/// The padding character as a byte of UTF-8.
pub const PADDING_BYTE: u8 = 0x3D;

/// The longest input that the codec takes, in bytes.
pub open spec fn longest_input() -> nat {
    (usize::MAX / 8) as nat
}

/// The text that is left when all padding is taken out.
pub open spec fn without_padding(text: Seq<char>) -> Seq<char> {
    text_without(text, PADDING)
}

/// What the unpadded Base32 codec of RFC 4648 makes of `input`: the bytes it
/// decodes to, or `None` where it is refused.
pub uninterp spec fn base32_nopad_decoding(input: Seq<u8>) -> Option<Seq<u8>>;

/// What the Base32 plugin makes of a text: the padding stripped, the rest
/// decoded, the bytes read as text. A text too long for the codec has no
/// decoding.
pub open spec fn base32_text(text: Seq<char>) -> Option<Seq<char>> {
    let input = encode_utf8(without_padding(text));
    if input.len() > longest_input() {
        None
    } else {
        match base32_nopad_decoding(input) {
            Some(bytes) => Some(lossy_text(bytes)),
            None => None,
        }
    }
}

/// The descriptor of the Base32 plugin.
pub open spec fn base32_descriptor() -> DecoderView {
    DecoderView {
        name: BASE32_NAME@,
        description: BASE32_DESCRIPTION@,
        link: BASE32_LINK@,
        tags: seq!["base32"@, "decoder"@, "base"@],
        popularity: 800,
        expected_runtime: 10,
        expected_success: 1000,
        failure_runtime: 10,
        normalised_entropy: (1000, 10000),
    }
}

/// `decode` of `data_encoding::BASE32_NOPAD`, with the reason for a refusal
/// dropped. Trusted: the result is a function of the input alone, and an
/// empty input decodes to no bytes. The call panics on an input longer than
/// an eighth of the address space, which the precondition keeps out.
#[verifier::external_body]
fn base32_nopad_decode(input: &[u8]) -> (decoded: Option<Vec<u8>>)
    requires
        input@.len() <= longest_input(),
    ensures
        option_bytes(decoded) == base32_nopad_decoding(input@),
        input@.len() == 0 ==> option_bytes(decoded) == Some(Seq::<u8>::empty()),
{
    BASE32_NOPAD.decode(input).ok()
}

/// Stripping is idempotent: what is stripped holds no padding.
pub proof fn lemma_without_padding_idempotent(text: Seq<char>)
    ensures
        without_padding(without_padding(text)) == without_padding(text),
    decreases text.len(),
{
    reveal(Seq::filter);
    if text.len() > 0 {
        lemma_without_padding_idempotent(text.drop_last());
        let rest = without_padding(text.drop_last());
        if text.last() != PADDING {
            assert(rest.push(text.last()).drop_last() =~= rest);
        }
    }
}

/// The UTF-8 bytes of `text` without its padding characters.
pub fn strip_padding(text: &str) -> (stripped: Vec<u8>)
    ensures
        stripped@ == encode_utf8(without_padding(text@)),
{
    let bytes = text.as_bytes();
    let mut stripped: Vec<u8> = Vec::new();
    let mut i: usize = 0;
    proof {
        reveal(Seq::filter);
        assert(bytes@.take(0) =~= Seq::<u8>::empty());
    }
    while i < bytes.len()
        invariant
            i <= bytes.len(),
            stripped@ == bytes_without(bytes@.take(i as int), PADDING_BYTE),
        decreases bytes.len() - i,
    {
        proof {
            reveal(Seq::filter);
            assert(bytes@.take(i + 1).drop_last() =~= bytes@.take(i as int));
        }
        if bytes[i] != PADDING_BYTE {
            stripped.push(bytes[i]);
        }
        i += 1;
    }
    proof {
        assert(bytes@.take(i as int) =~= bytes@);
        lemma_encoding_without_ascii(text@, PADDING);
    }
    stripped
}

/// Decodes a Base32 text, with or without padding. `None` where the codec
/// refuses the text without its padding, as it does for a character outside
/// the alphabet or a length that no encoding has, and where the text is too
/// long for the codec. Decoded bytes that are no valid UTF-8 are repaired,
/// not refused.
pub fn decode_base32_no_error_handling(text: &str) -> (decoded: Option<String>)
    ensures
        option_text(decoded) == base32_text(text@),
        text@.len() == 0 ==> option_text(decoded) == Some(Seq::<char>::empty()),
{
    let stripped = strip_padding(text);
    if stripped.len() > usize::MAX / 8 {
        return None;
    }
    proof {
        if text@.len() == 0 {
            reveal(Seq::filter);
            lemma_lossy_text_of_nothing();
        }
    }
    match base32_nopad_decode(stripped.as_slice()) {
        Some(bytes) => Some(utf8_lossy(bytes.as_slice())),
        None => None,
    }
}

/// Round trip: where the codec decodes a text to the UTF-8 bytes of a
/// plaintext, the plugin decodes the text to that plaintext, and an attempt
/// on the text has that plaintext as its one candidate, unless the filter
/// drops it.
pub proof fn lemma_base32_round_trip(
    filter: PlausibilityFilter,
    encoded: Seq<char>,
    plain: Seq<char>,
)
    requires
        encode_utf8(without_padding(encoded)).len() <= longest_input(),
        base32_nopad_decoding(encode_utf8(without_padding(encoded))) == Some(encode_utf8(plain)),
    ensures
        base32_text(encoded) == Some(plain),
        candidates(filter, base32_text(encoded), encoded) == if filter.plausible(plain, encoded) {
            Some(seq![plain])
        } else {
            None
        },
{
    lemma_lossy_text_of_encoding(plain);
}

/// The published descriptor makes sense.
pub proof fn lemma_base32_descriptor_wf()
    ensures
        base32_descriptor().wf(),
{
    reveal_strlit("Base32");
}

/// The Base32 decoder plugin.
pub struct Base32Decoder {
    decoder: Decoder,
}

impl Base32Decoder {
    /// The descriptor that a plugin holds is the published one, from the
    /// moment the plugin is built.
    #[verifier::type_invariant]
    spec fn holds_descriptor(self) -> bool {
        self.decoder@ == base32_descriptor()
    }

    /// Builds the plugin with its descriptor. Decodes nothing.
    pub fn new() -> (plugin: Base32Decoder)
        ensures
            plugin.descriptor() == base32_descriptor(),
            plugin.descriptor().wf(),
    {
        let decoder = Decoder {
            name: BASE32_NAME,
            description: BASE32_DESCRIPTION,
            link: BASE32_LINK,
            tags: vec!["base32", "decoder", "base"],
            popularity: 800,
            expected_runtime: 10,
            expected_success: 1000,
            failure_runtime: 10,
            normalised_entropy: EntropyBand { low: 1000, high: 10000 },
        };
        proof {
            lemma_base32_descriptor_wf();
            assert(decoder@.tags =~= base32_descriptor().tags);
        }
        Base32Decoder { decoder }
    }
}

impl Crack for Base32Decoder {
    closed spec fn descriptor(&self) -> DecoderView {
        self.decoder@
    }

    open spec fn decoding(text: Seq<char>) -> Option<Seq<char>> {
        base32_text(text)
    }

    fn crack<'a, F: Fn(&str) -> CheckResult>(
        &'a self,
        text: &str,
        checker: F,
    ) -> (record: CrackResult<'a>) {
        let decoded_text = decode_base32_no_error_handling(text);
        judge(&self.decoder, &PlausibilityFilter::lenient(), text, decoded_text, checker)
    }

    fn crack_with_filter<'a, F: Fn(&str) -> CheckResult>(
        &'a self,
        text: &str,
        checker: F,
        filter: &PlausibilityFilter,
    ) -> (record: CrackResult<'a>) {
        let decoded_text = decode_base32_no_error_handling(text);
        judge(&self.decoder, filter, text, decoded_text, checker)
    }

    fn get_decoder(&self) -> (decoder: &Decoder)
        ensures
            decoder@ == base32_descriptor(),
    {
        proof {
            use_type_invariant(self);
            lemma_base32_descriptor_wf();
        }
        &self.decoder
    }

    fn get_tags(&self) -> (tags: &Vec<&'static str>) {
        &self.decoder.tags
    }

    fn get_name(&self) -> (name: &str) {
        self.decoder.name
    }
}

} // verus!
