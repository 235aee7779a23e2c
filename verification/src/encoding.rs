//! Base64 in the four dialects that browsers and clients send, and the one the server keeps.
use base64::Engine;
use vstd::prelude::*;

verus! {

/// The two alphabets: they differ in the last two symbols only.
#[derive(Debug, Clone, Copy, PartialEq, Eq, Structural)]
pub enum Alphabet {
    /// `+` and `/`.
    Standard,
    /// `-` and `_`.
    UrlSafe,
}

/// The symbol for a group of six bits.
pub open spec fn symbol(alphabet: Alphabet, group: int) -> char {
    if group < 26 {
        ('A' as int + group) as char
    } else if group < 52 {
        ('a' as int + group - 26) as char
    } else if group < 62 {
        ('0' as int + group - 52) as char
    } else if group == 62 {
        if alphabet == Alphabet::UrlSafe {
            '-'
        } else {
            '+'
        }
    } else {
        if alphabet == Alphabet::UrlSafe {
            '_'
        } else {
            '/'
        }
    }
}

/// The byte at `i`, and zero bits past the end.
pub open spec fn byte_at(bytes: Seq<u8>, i: int) -> int {
    if 0 <= i < bytes.len() {
        bytes[i] as int
    } else {
        0
    }
}

/// The `i`-th group of six bits: four groups to every three bytes.
pub open spec fn six_bits(bytes: Seq<u8>, i: int) -> int {
    let at = i / 4 * 3;
    if i % 4 == 0 {
        byte_at(bytes, at) / 4
    } else if i % 4 == 1 {
        byte_at(bytes, at) % 4 * 16 + byte_at(bytes, at + 1) / 16
    } else if i % 4 == 2 {
        byte_at(bytes, at + 1) % 16 * 4 + byte_at(bytes, at + 2) / 64
    } else {
        byte_at(bytes, at + 2) % 64
    }
}

/// The base64 text of `bytes` without padding: as many symbols as it takes to hold every bit.
pub open spec fn unpadded(alphabet: Alphabet, bytes: Seq<u8>) -> Seq<char> {
    Seq::new((bytes.len() * 4 + 2) / 3, |i: int| symbol(alphabet, six_bits(bytes, i)))
}

/// The `=` that bring a text of `len` symbols to a multiple of four.
pub open spec fn padding(len: nat) -> Seq<char> {
    Seq::new(((4 - len % 4) % 4) as nat, |i: int| '=')
}

/// The base64 text of `bytes`, padded or not.
pub open spec fn base64_text(alphabet: Alphabet, padded: bool, bytes: Seq<u8>) -> Seq<char> {
    let text = unpadded(alphabet, bytes);
    if padded {
        text + padding(text.len())
    } else {
        text
    }
}

/// `decoded` is what strict decoding gives for `text`: the bytes whose text it is, if any.
pub open spec fn decodes(
    alphabet: Alphabet,
    padded: bool,
    text: Seq<char>,
    decoded: Option<Seq<u8>>,
) -> bool {
    match decoded {
        Some(bytes) => text == base64_text(alphabet, padded, bytes),
        None => forall|bytes: Seq<u8>| text != #[trigger] base64_text(alphabet, padded, bytes),
    }
}

/// Calls `Engine::decode` of `base64` on the engine `URL_SAFE_NO_PAD`.
///
/// Claimed of it: it accepts exactly the unpadded URL-safe texts of byte strings, with no symbol
/// outside the alphabet, no `=` and no stray bits at the end, and gives the bytes back.
#[verifier::external_body]
fn decode_url_safe_no_pad(text: &str) -> (decoded: Option<Vec<u8>>)
    ensures
        decodes(Alphabet::UrlSafe, false, text@, decoded.deep_view()),
{
    base64::engine::general_purpose::URL_SAFE_NO_PAD.decode(text).ok()
}

/// Calls `Engine::decode` of `base64` on the engine `URL_SAFE`.
///
/// Claimed of it: it accepts exactly the URL-safe texts that are padded with `=` to a multiple of
/// four, with no stray bits at the end, and gives the bytes back.
#[verifier::external_body]
fn decode_url_safe(text: &str) -> (decoded: Option<Vec<u8>>)
    ensures
        decodes(Alphabet::UrlSafe, true, text@, decoded.deep_view()),
{
    base64::engine::general_purpose::URL_SAFE.decode(text).ok()
}

/// Calls `Engine::decode` of `base64` on the engine `STANDARD`.
///
/// Claimed of it: it accepts exactly the texts in the standard alphabet that are padded with `=`
/// to a multiple of four, with no stray bits at the end, and gives the bytes back.
#[verifier::external_body]
fn decode_standard(text: &str) -> (decoded: Option<Vec<u8>>)
    ensures
        decodes(Alphabet::Standard, true, text@, decoded.deep_view()),
{
    base64::engine::general_purpose::STANDARD.decode(text).ok()
}

/// Calls `Engine::decode` of `base64` on the engine `STANDARD_NO_PAD`.
///
/// Claimed of it: it accepts exactly the unpadded texts in the standard alphabet, with no `=` and
/// no stray bits at the end, and gives the bytes back.
#[verifier::external_body]
fn decode_standard_no_pad(text: &str) -> (decoded: Option<Vec<u8>>)
    ensures
        decodes(Alphabet::Standard, false, text@, decoded.deep_view()),
{
    base64::engine::general_purpose::STANDARD_NO_PAD.decode(text).ok()
}

/// Calls `Engine::encode` of `base64` on the engine `URL_SAFE_NO_PAD`.
///
/// Claimed of it: it gives the unpadded URL-safe text of the bytes. Its one panic, a text too long
/// for `usize`, needs more bytes than a slice can hold.
#[verifier::external_body]
fn encode_url_safe_no_pad(bytes: &[u8]) -> (text: String)
    ensures
        text@ == base64_text(Alphabet::UrlSafe, false, bytes@),
{
    base64::engine::general_purpose::URL_SAFE_NO_PAD.encode(bytes)
}

/// The bytes that `text` encodes in one of the four dialects: URL-safe or standard alphabet, padded
/// or not.
pub open spec fn encodes(text: Seq<char>, bytes: Seq<u8>) -> bool {
    exists|alphabet: Alphabet, padded: bool|
        text == #[trigger] base64_text(alphabet, padded, bytes)
}

/// `text` is base64 in none of the four dialects.
pub open spec fn not_base64(text: Seq<char>) -> bool {
    forall|bytes: Seq<u8>| !#[trigger] encodes(text, bytes)
}

/// `text` in the dialect that the server keeps, if it is base64 at all: unpadded, URL-safe.
pub open spec fn normalized(text: Seq<char>) -> Option<Seq<char>> {
    if not_base64(text) {
        None
    } else {
        let bytes = choose|bytes: Seq<u8>| encodes(text, bytes);
        Some(base64_text(Alphabet::UrlSafe, false, bytes))
    }
}

/// A symbol tells its six bits.
proof fn lemma_symbol_injective(a: Alphabet, b: Alphabet, x: int, y: int)
    requires
        0 <= x < 64,
        0 <= y < 64,
        symbol(a, x) == symbol(b, y),
    ensures
        x == y,
{
}

/// No symbol is the padding character.
proof fn lemma_symbol_is_not_padding(alphabet: Alphabet, group: int)
    requires
        0 <= group < 64,
    ensures
        symbol(alphabet, group) != '=',
{
}

proof fn lemma_six_bits_range(bytes: Seq<u8>, i: int)
    requires
        i >= 0,
    ensures
        0 <= six_bits(bytes, i) < 64,
{
}

/// The bytes can be read off the groups of six bits.
proof fn lemma_bytes_from_groups(a: Seq<u8>, b: Seq<u8>, k: int)
    requires
        a.len() == b.len(),
        0 <= k < a.len(),
        forall|i: int|
            0 <= i < (a.len() * 4 + 2) / 3 ==> #[trigger] six_bits(a, i) == six_bits(b, i),
    ensures
        a[k] == b[k],
{
    let q = k / 3;
    let n = (a.len() * 4 + 2) / 3;
    if k % 3 == 0 {
        let i = q * 4;
        assert(i / 4 * 3 == k && (i + 1) / 4 * 3 == k);
        assert(six_bits(a, i) == six_bits(b, i));
        assert(six_bits(a, i + 1) == six_bits(b, i + 1));
    } else if k % 3 == 1 {
        let i = q * 4 + 1;
        assert(i / 4 * 3 + 1 == k && (i + 1) / 4 * 3 + 1 == k);
        assert(six_bits(a, i) == six_bits(b, i));
        assert(six_bits(a, i + 1) == six_bits(b, i + 1));
    } else {
        let i = q * 4 + 2;
        assert(i / 4 * 3 + 2 == k && (i + 1) / 4 * 3 + 2 == k);
        assert(six_bits(a, i) == six_bits(b, i));
        assert(six_bits(a, i + 1) == six_bits(b, i + 1));
    }
}

/// The symbols of a base64 text stand before its first `=`: as many as the bytes call for.
proof fn lemma_symbol_count(alphabet: Alphabet, padded: bool, bytes: Seq<u8>)
    ensures
        ({
            let text = base64_text(alphabet, padded, bytes);
            let n = (bytes.len() * 4 + 2) / 3;
            &&& n <= text.len()
            &&& forall|i: int| 0 <= i < n ==> #[trigger] text[i] == symbol(
                alphabet,
                six_bits(bytes, i),
            )
            &&& forall|i: int| 0 <= i < n ==> #[trigger] text[i] != '='
            &&& forall|i: int| n <= i < text.len() ==> #[trigger] text[i] == '='
        }),
{
    let text = base64_text(alphabet, padded, bytes);
    let n = (bytes.len() * 4 + 2) / 3;
    assert forall|i: int| 0 <= i < n implies #[trigger] text[i] != '=' by {
        lemma_six_bits_range(bytes, i);
        lemma_symbol_is_not_padding(alphabet, six_bits(bytes, i));
    }
}

/// A base64 text stands for one byte string only, whatever the dialect: no two byte strings share
/// a text, not even across alphabets and with padding on one side.
pub proof fn law_text_determines_bytes(text: Seq<char>, a: Seq<u8>, b: Seq<u8>)
    requires
        encodes(text, a),
        encodes(text, b),
    ensures
        a == b,
{
    let (alphabet_a, padded_a) = choose|alphabet: Alphabet, padded: bool|
        text == #[trigger] base64_text(alphabet, padded, a);
    let (alphabet_b, padded_b) = choose|alphabet: Alphabet, padded: bool|
        text == #[trigger] base64_text(alphabet, padded, b);
    lemma_symbol_count(alphabet_a, padded_a, a);
    lemma_symbol_count(alphabet_b, padded_b, b);
    let n = (a.len() * 4 + 2) / 3;
    let m = (b.len() * 4 + 2) / 3;
    if n < m {
        assert(text[n as int] != '=');
        assert(n < text.len());
        assert(text[n as int] == '=');
    }
    if m < n {
        assert(text[m as int] != '=');
        assert(text[m as int] == '=');
    }
    assert(a.len() == b.len());
    assert forall|i: int| 0 <= i < n implies #[trigger] six_bits(a, i) == six_bits(b, i) by {
        lemma_six_bits_range(a, i);
        lemma_six_bits_range(b, i);
        assert(text[i] == symbol(alphabet_a, six_bits(a, i)));
        assert(text[i] == symbol(alphabet_b, six_bits(b, i)));
        lemma_symbol_injective(alphabet_a, alphabet_b, six_bits(a, i), six_bits(b, i));
    }
    assert forall|k: int| 0 <= k < a.len() implies a[k] == b[k] by {
        lemma_bytes_from_groups(a, b, k);
    }
    assert(a =~= b);
}

/// What a text of known bytes normalizes to.
proof fn lemma_normalized_of(text: Seq<char>, bytes: Seq<u8>)
    requires
        encodes(text, bytes),
    ensures
        normalized(text) == Some(base64_text(Alphabet::UrlSafe, false, bytes)),
{
    let chosen = choose|bytes: Seq<u8>| encodes(text, bytes);
    law_text_determines_bytes(text, bytes, chosen);
}

/// Normalizing once is enough: what is normalized stays as it is.
pub proof fn law_normalizing_is_idempotent(text: Seq<char>)
    ensures
        normalized(text) matches Some(kept) ==> normalized(kept) == Some(kept),
{
    if let Some(kept) = normalized(text) {
        let bytes = choose|bytes: Seq<u8>| encodes(text, bytes);
        assert(kept == base64_text(Alphabet::UrlSafe, false, bytes));
        assert(encodes(kept, bytes));
        lemma_normalized_of(kept, bytes);
    }
}

/// All four dialects of the same bytes normalize to one text.
pub proof fn law_dialects_agree(
    a: Alphabet,
    padded_a: bool,
    b: Alphabet,
    padded_b: bool,
    bytes: Seq<u8>,
)
    ensures
        normalized(base64_text(a, padded_a, bytes)) == normalized(base64_text(b, padded_b, bytes)),
        normalized(base64_text(a, padded_a, bytes)) is Some,
{
    assert(encodes(base64_text(a, padded_a, bytes), bytes));
    assert(encodes(base64_text(b, padded_b, bytes), bytes));
    lemma_normalized_of(base64_text(a, padded_a, bytes), bytes);
    lemma_normalized_of(base64_text(b, padded_b, bytes), bytes);
}

/// A normalized text holds letters, digits, `-` and `_` only: no padding and nothing that has a
/// meaning in a URL.
pub proof fn law_normalized_is_url_safe(text: Seq<char>, i: int)
    requires
        normalized(text) is Some,
        0 <= i < normalized(text)->0.len(),
    ensures
        ({
            let c = normalized(text)->0[i];
            'A' <= c <= 'Z' || 'a' <= c <= 'z' || '0' <= c <= '9' || c == '-' || c == '_'
        }),
{
    let bytes = choose|bytes: Seq<u8>| encodes(text, bytes);
    lemma_six_bits_range(bytes, i);
}

/// The bytes whose unpadded URL-safe text is `text`, if it is one.
pub open spec fn base64url_bytes(text: Seq<char>) -> Option<Seq<u8>> {
    if exists|bytes: Seq<u8>| text == #[trigger] base64_text(Alphabet::UrlSafe, false, bytes) {
        Some(choose|bytes: Seq<u8>| text == #[trigger] base64_text(Alphabet::UrlSafe, false, bytes))
    } else {
        None
    }
}

/// Decoding gives back what was encoded.
pub proof fn law_encoded_decodes(bytes: Seq<u8>)
    ensures
        base64url_bytes(base64_text(Alphabet::UrlSafe, false, bytes)) == Some(bytes),
{
    let text = base64_text(Alphabet::UrlSafe, false, bytes);
    let chosen = choose|bytes: Seq<u8>| text == #[trigger] base64_text(
        Alphabet::UrlSafe,
        false,
        bytes,
    );
    assert(encodes(text, bytes));
    assert(encodes(text, chosen));
    law_text_determines_bytes(text, bytes, chosen);
}

/// A normalized text decodes, to the bytes that the text it came from encodes.
pub proof fn law_normalized_decodes(text: Seq<char>)
    ensures
        normalized(text) matches Some(kept) ==> {
            &&& base64url_bytes(kept) matches Some(bytes)
            &&& encodes(text, bytes)
        },
{
    if normalized(text) is Some {
        let bytes = choose|bytes: Seq<u8>| encodes(text, bytes);
        law_encoded_decodes(bytes);
    }
}

/// The bytes of an unpadded URL-safe text.
pub fn decode_base64url(text: &str) -> (decoded: Option<Vec<u8>>)
    ensures
        decoded.deep_view() == base64url_bytes(text@),
{
    let decoded = decode_url_safe_no_pad(text);
    proof {
        if decoded is Some {
            assert(decoded->0.deep_view() =~= decoded->0@);
            law_encoded_decodes(decoded->0@);
        }
    }
    decoded
}

/// Brings base64 in any of the four dialects to unpadded URL-safe base64.
///
/// A text that is base64 in none of them gives `None`.
pub fn normalize_base64url(value: &str) -> (kept: Option<String>)
    ensures
        kept.deep_view() == normalized(value@),
{
    let decoded = match decode_url_safe_no_pad(value) {
        Some(bytes) => Some(bytes),
        None => match decode_url_safe(value) {
            Some(bytes) => Some(bytes),
            None => match decode_standard(value) {
                Some(bytes) => Some(bytes),
                None => decode_standard_no_pad(value),
            },
        },
    };
    match decoded {
        Some(bytes) => {
            proof {
                assert(bytes.deep_view() =~= bytes@);
                assert(encodes(value@, bytes@));
                lemma_normalized_of(value@, bytes@);
            }
            Some(encode_url_safe_no_pad(bytes.as_slice()))
        },
        None => {
            assert forall|bytes: Seq<u8>| !#[trigger] encodes(value@, bytes) by {
                if encodes(value@, bytes) {
                    let (alphabet, padded) = choose|alphabet: Alphabet, padded: bool|
                        value@ == #[trigger] base64_text(alphabet, padded, bytes);
                }
            }
            None
        },
    }
}

} // verus!
