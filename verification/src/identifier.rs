//! UUIDs as text.
use vstd::prelude::*;

verus! {

/// Whether `c` is a hexadecimal digit, in either case.
pub open spec fn is_hex(c: char) -> bool {
    '0' <= c <= '9' || 'a' <= c <= 'f' || 'A' <= c <= 'F'
}

/// An ASCII letter in lower case; any other character as it is.
pub open spec fn lower(c: char) -> char {
    if 'A' <= c <= 'Z' {
        (c as int + 32) as char
    } else {
        c
    }
}

/// `text` with its ASCII letters in lower case.
pub open spec fn lowered(text: Seq<char>) -> Seq<char> {
    Seq::new(text.len(), |i: int| lower(text[i]))
}

/// A position where a hyphenated UUID has its hyphens.
pub open spec fn is_hyphen_place(i: int) -> bool {
    i == 8 || i == 13 || i == 18 || i == 23
}

/// A hyphenated UUID: hexadecimal digits in groups of 8, 4, 4, 4 and 12.
pub open spec fn is_hyphenated(text: Seq<char>) -> bool {
    &&& text.len() == 36
    &&& forall|i: int|
        0 <= i < 36 ==> if is_hyphen_place(i) {
            #[trigger] text[i] == '-'
        } else {
            is_hex(text[i])
        }
}

/// 32 hexadecimal digits with the four hyphens put in.
pub open spec fn hyphenated(digits: Seq<char>) -> Seq<char> {
    let hyphen = seq!['-'];
    digits.subrange(0, 8) + hyphen + digits.subrange(8, 12) + hyphen + digits.subrange(12, 16)
        + hyphen + digits.subrange(16, 20) + hyphen + digits.subrange(20, 32)
}

/// The UUID that `text` writes, as lower-case hyphenated text. It may be written as 32 digits, or
/// hyphenated, bare or in braces or behind `urn:uuid:` in any case.
pub open spec fn uuid_text(text: Seq<char>) -> Option<Seq<char>> {
    if text.len() == 32 && forall|i: int| 0 <= i < 32 ==> is_hex(#[trigger] text[i]) {
        Some(lowered(hyphenated(text)))
    } else if is_hyphenated(text) {
        Some(lowered(text))
    } else if text.len() == 38 && text[0] == '{' && text[37] == '}' && is_hyphenated(
        text.subrange(1, 37),
    ) {
        Some(lowered(text.subrange(1, 37)))
    } else if text.len() == 45 && lowered(text.take(9)) == "urn:uuid:"@ && is_hyphenated(
        text.skip(9),
    ) {
        Some(lowered(text.skip(9)))
    } else {
        None
    }
}

/// The text of a random UUID: hyphenated, in lower case, of version 4 and the RFC 4122 variant.
pub open spec fn is_random_uuid(text: Seq<char>) -> bool {
    &&& is_hyphenated(text)
    &&& lowered(text) == text
    &&& text[14] == '4'
    &&& text[19] == '8' || text[19] == '9' || text[19] == 'a' || text[19] == 'b'
}

/// Calls `Uuid::parse_str` of `uuid`, and `to_string` on what it gives.
///
/// Claimed of them: the four ways of writing a UUID are accepted and nothing else, and the UUID is
/// written back hyphenated in lower case.
#[verifier::external_body]
pub(crate) fn parse_uuid(text: &str) -> (uuid: Option<String>)
    ensures
        uuid.deep_view() == uuid_text(text@),
{
    uuid::Uuid::parse_str(text).ok().map(|uuid| uuid.to_string())
}

/// Calls `Uuid::new_v4` of `uuid`, and `to_string` on what it gives.
///
/// Claimed of them: the text is that of some version 4 UUID. Which one is left to chance, and no
/// clause speaks of it. The call panics only on a system that cannot give random bytes.
#[verifier::external_body]
fn random_uuid() -> (uuid: String)
    ensures
        is_random_uuid(uuid@),
{
    uuid::Uuid::new_v4().to_string()
}

/// A fresh row id: the text of a random UUID.
pub fn new_row_id() -> (id: String)
    ensures
        is_random_uuid(id@),
{
    random_uuid()
}

/// The text of a UUID in lower case is read as itself.
pub proof fn law_canonical_uuid_is_kept(text: Seq<char>)
    requires
        is_hyphenated(text),
        lowered(text) == text,
    ensures
        uuid_text(text) == Some(text),
{
}

/// Whatever way a UUID was written, its text is hyphenated, in lower case, and reads as itself.
pub proof fn law_uuid_text_is_canonical(text: Seq<char>)
    ensures
        uuid_text(text) matches Some(uuid) ==> {
            &&& is_hyphenated(uuid)
            &&& lowered(uuid) == uuid
            &&& uuid_text(uuid) == Some(uuid)
        },
{
    if let Some(uuid) = uuid_text(text) {
        if text.len() == 32 {
            let put = hyphenated(text);
            assert(put.len() == 36);
            assert forall|i: int| 0 <= i < 36 implies if is_hyphen_place(i) {
                #[trigger] put[i] == '-'
            } else {
                is_hex(put[i])
            } by {
                if i < 8 {
                    assert(put[i] == text[i]);
                } else if 8 < i < 13 {
                    assert(put[i] == text[i - 1]);
                } else if 13 < i < 18 {
                    assert(put[i] == text[i - 2]);
                } else if 18 < i < 23 {
                    assert(put[i] == text[i - 3]);
                } else if 23 < i {
                    assert(put[i] == text[i - 4]);
                }
            }
        }
        assert(is_hyphenated(uuid)) by {
            assert forall|i: int| 0 <= i < 36 implies if is_hyphen_place(i) {
                #[trigger] uuid[i] == '-'
            } else {
                is_hex(uuid[i])
            } by {
                if text.len() == 32 {
                    assert(uuid[i] == lower(hyphenated(text)[i]));
                } else if text.len() == 36 {
                    assert(uuid[i] == lower(text[i]));
                } else if text.len() == 38 {
                    assert(uuid[i] == lower(text.subrange(1, 37)[i]));
                } else {
                    assert(uuid[i] == lower(text.skip(9)[i]));
                }
            }
        }
        assert(lowered(uuid) =~= uuid);
    }
}

} // verus!
