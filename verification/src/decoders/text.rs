//! Text as bytes: comparing two strings, and turning decoded bytes into text.

use vstd::prelude::*;
use vstd::string::*;
use vstd::utf8::*;

verus! {

/// Two texts with the same UTF-8 bytes are the same text.
pub proof fn lemma_same_bytes_same_text(a: Seq<char>, b: Seq<char>)
    requires
        encode_utf8(a) == encode_utf8(b),
    ensures
        a == b,
{
    encode_utf8_decode_utf8(a);
    encode_utf8_decode_utf8(b);
}

/// The test that a byte is not `byte`.
pub open spec fn other_byte(byte: u8) -> spec_fn(u8) -> bool {
    |b: u8| b != byte
}

/// The test that a character is not `c`.
pub open spec fn other_char(c: char) -> spec_fn(char) -> bool {
    |x: char| x != c
}

/// The bytes with every occurrence of one byte taken out.
pub open spec fn bytes_without(bytes: Seq<u8>, byte: u8) -> Seq<u8> {
    bytes.filter(other_byte(byte))
}

/// The text with every occurrence of one character taken out.
pub open spec fn text_without(text: Seq<char>, c: char) -> Seq<char> {
    text.filter(other_char(c))
}

/// A filter that every element passes changes nothing.
proof fn lemma_filter_keeps_all<A>(s: Seq<A>, pred: spec_fn(A) -> bool)
    requires
        forall|i: int| 0 <= i < s.len() ==> pred(s[i]),
    ensures
        s.filter(pred) == s,
    decreases s.len(),
{
    reveal(Seq::filter);
    if s.len() > 0 {
        lemma_filter_keeps_all(s.drop_last(), pred);
        assert(s.drop_last().push(s.last()) =~= s);
    }
}

/// An ASCII character is encoded as its own byte, and that byte occurs in
/// the encoding of no other character.
proof fn lemma_ascii_byte_is_its_own(scalar: u32, ascii: u8)
    requires
        is_scalar(scalar),
        ascii <= 0x7f,
    ensures
        scalar == ascii ==> encode_scalar(scalar) == seq![ascii],
        scalar != ascii ==> forall|i: int|
            0 <= i < encode_scalar(scalar).len() ==> encode_scalar(scalar)[i] != ascii,
{
    if has_width_1_encoding(scalar) {
        assert((scalar & 0x7F) as u8 == scalar) by (bit_vector)
            requires
                scalar <= 0x7F,
        ;
    } else {
        assert(forall|x: u8| #[trigger] (0x80u8 | x) >= 0x80) by (bit_vector);
        assert(forall|x: u8| #[trigger] (0xC0u8 | x) >= 0x80) by (bit_vector);
        assert(forall|x: u8| #[trigger] (0xE0u8 | x) >= 0x80) by (bit_vector);
        assert(forall|x: u8| #[trigger] (0xF0u8 | x) >= 0x80) by (bit_vector);
    }
}

/// Taking an ASCII character out of a text takes its byte out of the text's
/// encoding, and nothing else.
pub proof fn lemma_encoding_without_ascii(text: Seq<char>, c: char)
    requires
        c <= '\u{7f}',
    ensures
        bytes_without(encode_utf8(text), c as u8) == encode_utf8(text_without(text, c)),
    decreases text.len(),
{
    let keep_byte = other_byte(c as u8);
    let keep_char = other_char(c);
    reveal_with_fuel(Seq::filter, 2);
    if text.len() == 0 {
        assert(encode_utf8(text) =~= Seq::<u8>::empty());
    } else {
        let first = text[0];
        let rest = text.drop_first();
        let head = encode_scalar(first as u32);
        lemma_encoding_without_ascii(rest, c);
        char_is_scalar(first);
        char_u32_cast(first, first as u32);
        char_u32_cast(c, c as u32);
        lemma_ascii_byte_is_its_own(first as u32, c as u8);
        Seq::filter_distributes_over_add(head, encode_utf8(rest), keep_byte);
        assert(text =~= seq![first] + rest);
        Seq::filter_distributes_over_add(seq![first], rest, keep_char);
        assert(seq![first].drop_last() =~= Seq::<char>::empty());
        if first == c {
            assert(head.drop_last() =~= Seq::<u8>::empty());
            assert(head.filter(keep_byte) =~= Seq::<u8>::empty());
            assert(seq![first].filter(keep_char) =~= Seq::<char>::empty());
            assert(text.filter(keep_char) =~= rest.filter(keep_char));
            assert(encode_utf8(text).filter(keep_byte) =~= encode_utf8(rest).filter(keep_byte));
        } else {
            lemma_filter_keeps_all(head, keep_byte);
            assert(seq![first].filter(keep_char) =~= seq![first]);
            let kept = seq![first] + rest.filter(keep_char);
            assert(kept.drop_first() =~= rest.filter(keep_char));
            assert(encode_utf8(kept) == head + encode_utf8(rest.filter(keep_char)));
        }
    }
}

/// Whether two byte strings are equal, byte for byte.
pub fn same_bytes(a: &[u8], b: &[u8]) -> (same: bool)
    ensures
        same == (a@ == b@),
{
    if a.len() != b.len() {
        return false;
    }
    let mut i: usize = 0;
    while i < a.len()
        invariant
            i <= a.len(),
            a.len() == b.len(),
            forall|j: int| 0 <= j < i ==> a@[j] == b@[j],
        decreases a.len() - i,
    {
        if a[i] != b[i] {
            return false;
        }
        i += 1;
    }
    assert(a@ =~= b@);
    true
}

/// Whether two texts are equal, character for character. Runs in time
/// linear in the shorter text and allocates nothing.
pub fn same_text(a: &str, b: &str) -> (same: bool)
    ensures
        same == (a@ == b@),
{
    let same = same_bytes(a.as_bytes(), b.as_bytes());
    proof {
        if same {
            lemma_same_bytes_same_text(a@, b@);
        }
    }
    same
}

/// The bytes of an optional buffer.
pub open spec fn option_bytes(buffer: Option<Vec<u8>>) -> Option<Seq<u8>> {
    match buffer {
        Some(bytes) => Some(bytes@),
        None => None,
    }
}

/// The text of an optional string.
pub open spec fn option_text(text: Option<String>) -> Option<Seq<char>> {
    match text {
        Some(t) => Some(t@),
        None => None,
    }
}

/// What lossy conversion makes of bytes that are not valid UTF-8: the valid
/// stretches as they are, the rest replaced by U+FFFD.
pub uninterp spec fn utf8_repaired(bytes: Seq<u8>) -> Seq<char>;

/// The text that stands for decoded bytes: the text they encode where they
/// are valid UTF-8, and their repair where they are not.
pub open spec fn lossy_text(bytes: Seq<u8>) -> Seq<char> {
    if valid_utf8(bytes) {
        decode_utf8(bytes)
    } else {
        utf8_repaired(bytes)
    }
}

/// `String::from_utf8_lossy` of std, made into an owned string. Trusted:
/// valid UTF-8 comes back as the text it encodes; of other bytes the
/// contract only names the result.
#[verifier::external_body]
pub(crate) fn utf8_lossy(bytes: &[u8]) -> (text: String)
    ensures
        text@ == if valid_utf8(bytes@) {
            decode_utf8(bytes@)
        } else {
            utf8_repaired(bytes@)
        },
{
    String::from_utf8_lossy(bytes).into_owned()
}

/// Text survives the way to bytes and back.
pub proof fn lemma_lossy_text_of_encoding(text: Seq<char>)
    ensures
        lossy_text(encode_utf8(text)) == text,
{
    encode_utf8_valid_utf8(text);
    encode_utf8_decode_utf8(text);
}

/// No bytes, no text.
pub proof fn lemma_lossy_text_of_nothing()
    ensures
        lossy_text(Seq::<u8>::empty()) == Seq::<char>::empty(),
{
    assert(valid_utf8(Seq::<u8>::empty()));
    assert(decode_utf8(Seq::<u8>::empty()) =~= Seq::<char>::empty());
}

} // verus!
