//! Identifiers of records: random UUIDs in their hyphenated, lower-case form.

use vstd::prelude::*;

verus! {

/// Whether `c` is a hexadecimal digit as a UUID is written: `0`-`9`, `a`-`f`.
pub open spec fn is_lower_hex(c: char) -> bool {
    ('0' <= c && c <= '9') || ('a' <= c && c <= 'f')
}

/// The places of the four hyphens in the 36 characters of a UUID.
pub open spec fn is_hyphen_place(i: int) -> bool {
    i == 8 || i == 13 || i == 18 || i == 23
}

/// Whether the character `c` may stand at place `i` of a UUID.
pub open spec fn fits_place(i: int, c: char) -> bool {
    if is_hyphen_place(i) {
        c == '-'
    } else {
        is_lower_hex(c)
    }
}

/// Whether `text` is a UUID written as `xxxxxxxx-xxxx-xxxx-xxxx-xxxxxxxxxxxx`,
/// each `x` a hexadecimal digit in lower case.
pub open spec fn uuid_text(text: Seq<char>) -> bool {
    &&& text.len() == 36
    &&& forall|i: int| 0 <= i < 36 ==> fits_place(i, #[trigger] text[i])
}

/// Whether `text` is a random UUID (version 4, RFC variant): the digit after
/// the second hyphen is `4`, the digit after the third is `8`, `9`, `a` or `b`.
pub open spec fn random_uuid_text(text: Seq<char>) -> bool {
    &&& uuid_text(text)
    &&& text[14] == '4'
    &&& (text[19] == '8' || text[19] == '9' || text[19] == 'a' || text[19] == 'b')
}

/// Calls `uuid::Uuid::new_v4` and writes the identifier out with its `Display`
/// impl.
///
/// Trusted: whatever the random source yields, the text has the hyphenated
/// lower-case form, and the version and variant digits of a random UUID.
/// Nothing is said of the other 122 bits: two calls may return anything, the
/// same text included. `uuid` gives up where the system has no random bytes
/// to offer.
#[verifier::external_body]
fn random_uuid() -> (id: String)
    ensures
        random_uuid_text(id@),
{
    uuid::Uuid::new_v4().to_string()
}

/// A fresh identifier: 122 random bits as a UUID. That it differs from every
/// identifier handed out before is a matter of chance, and overwhelmingly
/// likely; it is not part of the contract.
pub fn allocate() -> (id: String)
    ensures
        random_uuid_text(id@),
{
    random_uuid()
}

/// Decides [`fits_place`] for a place within a UUID.
fn char_fits_place(i: usize, c: char) -> (fits: bool)
    requires
        i < 36,
    ensures
        fits == fits_place(i as int, c),
{
    if i == 8 || i == 13 || i == 18 || i == 23 {
        c == '-'
    } else {
        ('0' <= c && c <= '9') || ('a' <= c && c <= 'f')
    }
}

/// Decides [`uuid_text`].
pub fn is_uuid(text: &str) -> (valid: bool)
    ensures
        valid == uuid_text(text@),
{
    if text.unicode_len() != 36 {
        return false;
    }
    let mut i: usize = 0;
    while i < 36
        invariant
            i <= 36,
            text@.len() == 36,
            forall|j: int| 0 <= j < i ==> fits_place(j, #[trigger] text@[j]),
        decreases 36 - i,
    {
        if !char_fits_place(i, text.get_char(i)) {
            return false;
        }
        i += 1;
    }
    true
}

/// Decides [`random_uuid_text`].
pub fn is_random_uuid(text: &str) -> (valid: bool)
    ensures
        valid == random_uuid_text(text@),
{
    if !is_uuid(text) {
        return false;
    }
    let version = text.get_char(14);
    let variant = text.get_char(19);
    version == '4' && (variant == '8' || variant == '9' || variant == 'a' || variant == 'b')
}

} // verus!
