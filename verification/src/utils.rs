//! Random identifiers in the textual form of a version 4 UUID.

use crate::error::Error;
use vstd::prelude::*;

verus! {

/// The sixteen digits in which an identifier is written.
pub open spec fn hex_digits() -> Seq<char> {
    seq!['0', '1', '2', '3', '4', '5', '6', '7', '8', '9', 'a', 'b', 'c', 'd', 'e', 'f']
}

/// The sixteen bytes of a random UUID that is made from `bytes`: the variant
/// of RFC 4122 in the two high bits of byte 8, the version 4 in the high half
/// of byte 6, and the 122 other bits as they come.
pub open spec fn random_uuid_bytes(bytes: Seq<u8>) -> Seq<u8> {
    bytes.update(8, (bytes[8] & 0x3f) | 0x80).update(6, (bytes[6] & 0x0f) | 0x40)
}

/// The `k`-th of the 32 digits of `bytes`, high half of each byte first.
pub open spec fn hex_digit_at(bytes: Seq<u8>, k: int) -> char {
    if k % 2 == 0 {
        hex_digits()[bytes[k / 2] as int / 16]
    } else {
        hex_digits()[bytes[k / 2] as int % 16]
    }
}

/// How many of the four hyphens stand before place `i` of an identifier.
pub open spec fn hyphens_before(i: int) -> int {
    if i < 8 {
        0
    } else if i < 13 {
        1
    } else if i < 18 {
        2
    } else if i < 23 {
        3
    } else {
        4
    }
}

/// There is a hyphen at place `i` of an identifier.
pub open spec fn hyphen_at(i: int) -> bool {
    i == 8 || i == 13 || i == 18 || i == 23
}

/// Sixteen bytes in lower-case digits, in groups of 8, 4, 4, 4 and 12 with a
/// hyphen between two groups.
pub open spec fn hyphenated(bytes: Seq<u8>) -> Seq<char> {
    Seq::new(
        36,
        |i: int|
            if hyphen_at(i) {
                '-'
            } else {
                hex_digit_at(bytes, i - hyphens_before(i))
            },
    )
}

/// The identifier that is made from sixteen random bytes.
pub open spec fn uuid_text(bytes: Seq<u8>) -> Seq<char> {
    hyphenated(random_uuid_bytes(bytes))
}

/// `text` has the form of a random UUID: 36 places, hyphens at four of them,
/// lower-case digits at the others, the version 4 and the variant of RFC 4122.
pub open spec fn is_random_uuid_text(text: Seq<char>) -> bool {
    &&& text.len() == 36
    &&& forall|i: int| 0 <= i < 36 && hyphen_at(i) ==> text[i] == '-'
    &&& forall|i: int| 0 <= i < 36 && !hyphen_at(i) ==> hex_digits().contains(#[trigger] text[i])
    &&& text[14] == '4'
    &&& text[19] == '8' || text[19] == '9' || text[19] == 'a' || text[19] == 'b'
}

/// `getrandom::getrandom`: fills `dest` with bytes from the system's source of
/// randomness and says whether it could. Nothing is known of the bytes, in
/// either case, nor of when the source fails.
#[verifier::external_body]
fn fill_random(dest: &mut [u8; 16]) -> (filled: bool) {
    getrandom::getrandom(dest).is_ok()
}

/// The builder of the `uuid` crate, used as for a random UUID: it takes the
/// bytes as they are, `set_variant` with RFC 4122 puts `10` into the two high
/// bits of byte 8, `set_version` with `Random` puts 4 into the high half of
/// byte 6, and the UUID's `to_string` writes the sixteen bytes hyphenated, in
/// lower case.
#[verifier::external_body]
fn random_uuid(bytes: [u8; 16]) -> (text: String)
    ensures
        text@ == uuid_text(bytes@),
{
    let mut builder = uuid::Builder::from_bytes(bytes);
    builder.set_variant(uuid::Variant::RFC4122).set_version(uuid::Version::Random);
    builder.into_uuid().to_string()
}

/// The identifier that is made from sixteen random bytes.
pub fn uuid_from_bytes(bytes: [u8; 16]) -> (id: String)
    ensures
        id@ == uuid_text(bytes@),
{
    random_uuid(bytes)
}

/// The identifier for a buffer that the source of randomness was asked to
/// fill: the identifier made from the buffer if it was filled, and
/// `Error::Entropy`, whatever the buffer holds, if it was not.
pub fn uuid_from_fill(filled: bool, bytes: [u8; 16]) -> (id: Result<String, Error>)
    ensures
        id is Err <==> !filled,
        filled ==> (id matches Ok(text) && text@ == uuid_text(bytes@)),
        !filled ==> (id matches Err(failure) && failure is Entropy),
{
    if filled {
        Ok(uuid_from_bytes(bytes))
    } else {
        Err(Error::Entropy)
    }
}

/// A fresh random identifier, or `Error::Entropy` where the system gives no
/// random bytes. Whatever the source does, the outcome is that of
/// [`uuid_from_fill`] for its answer and for the buffer as it left it, so an
/// identifier has the form of a random UUID.
pub fn uuid_str() -> (id: Result<String, Error>)
    ensures
        id matches Ok(text) ==> is_random_uuid_text(text@) && exists|bytes: Seq<u8>|
            bytes.len() == 16 && text@ == #[trigger] uuid_text(bytes),
        id matches Err(failure) ==> failure is Entropy,
{
    let mut bytes = [0u8; 16];
    let filled = fill_random(&mut bytes);
    proof {
        lemma_uuid_text_is_well_formed(bytes@);
    }
    uuid_from_fill(filled, bytes)
}

/// A byte with the version stamped in starts with the digit 4, and one with
/// the variant stamped in starts with 8, 9, a or b.
proof fn lemma_stamped_digits(version: u8, variant: u8)
    ensures
        ((version & 0x0f) | 0x40) / 16 == 4,
        8 <= ((variant & 0x3f) | 0x80) / 16 <= 11,
{
    assert(((version & 0x0f) | 0x40) / 16 == 4) by (bit_vector);
    assert(8 <= ((variant & 0x3f) | 0x80) / 16 <= 11) by (bit_vector);
}

/// Every identifier has the form of a random UUID, whatever bytes it is made
/// from.
pub proof fn lemma_uuid_text_is_well_formed(bytes: Seq<u8>)
    requires
        bytes.len() == 16,
    ensures
        is_random_uuid_text(uuid_text(bytes)),
{
    let stamped = random_uuid_bytes(bytes);
    let text = uuid_text(bytes);
    lemma_stamped_digits(bytes[6], bytes[8]);
    assert forall|i: int| 0 <= i < 36 && !hyphen_at(i) implies hex_digits().contains(
        #[trigger] text[i],
    ) by {
        let k = i - hyphens_before(i);
        let byte = stamped[k / 2] as int;
        let nibble = if k % 2 == 0 {
            byte / 16
        } else {
            byte % 16
        };
        assert(0 <= nibble < 16);
        assert(text[i] == hex_digits()[nibble]);
    }
    assert(text[14] == hex_digits()[stamped[6] as int / 16]);
    assert(text[19] == hex_digits()[stamped[8] as int / 16]);
}

/// Writing an identifier loses nothing: two identifiers are the same text only
/// if they were made from the same bytes, up to the six bits that the version
/// and the variant overwrite. Two draws collide only where the source of
/// randomness repeats itself in the 122 bits that are left.
pub proof fn lemma_uuid_text_is_injective(a: Seq<u8>, b: Seq<u8>)
    requires
        a.len() == 16,
        b.len() == 16,
    ensures
        uuid_text(a) == uuid_text(b) <==> random_uuid_bytes(a) == random_uuid_bytes(b),
{
    let x = random_uuid_bytes(a);
    let y = random_uuid_bytes(b);
    if uuid_text(a) == uuid_text(b) {
        assert forall|j: int| 0 <= j < 16 implies x[j] == y[j] by {
            let high = 2 * j;
            let low = 2 * j + 1;
            let i = high + (if high < 8 {
                0int
            } else if high < 12 {
                1
            } else if high < 16 {
                2
            } else if high < 20 {
                3
            } else {
                4
            });
            assert(!hyphen_at(i) && !hyphen_at(i + 1));
            assert(i - hyphens_before(i) == high);
            assert(i + 1 - hyphens_before(i + 1) == low);
            assert(uuid_text(a)[i] == hex_digit_at(x, high));
            assert(uuid_text(b)[i] == hex_digit_at(y, high));
            assert(uuid_text(a)[i + 1] == hex_digit_at(x, low));
            assert(uuid_text(b)[i + 1] == hex_digit_at(y, low));
            lemma_hex_digits_differ(x[j] as int / 16, y[j] as int / 16);
            lemma_hex_digits_differ(x[j] as int % 16, y[j] as int % 16);
        }
        assert(x =~= y);
    }
}

/// No two of the sixteen digits are the same character.
proof fn lemma_hex_digits_differ(m: int, n: int)
    requires
        0 <= m < 16,
        0 <= n < 16,
        hex_digits()[m] == hex_digits()[n],
    ensures
        m == n,
{
}

} // verus!
