//! 128-bit identifier values: generation, canonical text and parsing.
use vstd::prelude::*;

verus! {

/// Bits that fix the version (4) and the RFC 4122 variant of a random identifier.
pub const V4_MASK: u128 = 0xF000C000000000000000;

/// The values of the bits under `V4_MASK` in a random identifier.
pub const V4_BITS: u128 = 0x40008000000000000000;

/// A value carries the version-4 / RFC 4122 marker bits.
pub open spec fn is_v4(v: u128) -> bool {
    v & V4_MASK == V4_BITS
}

/// The `i`-th hexadecimal digit of `v`, counting from the most significant.
pub open spec fn nibble(v: u128, i: int) -> int {
    (v as int / pow16((31 - i) as nat)) % 16
}

/// Sixteen to the power `n`.
pub open spec fn pow16(n: nat) -> int
    decreases n,
{
    if n == 0 {
        1
    } else {
        16 * pow16((n - 1) as nat)
    }
}

/// Lower-case hexadecimal digit for `d` in `0..16`.
pub open spec fn hex_char(d: int) -> char {
    if d < 10 {
        (('0' as int) + d) as char
    } else {
        (('a' as int) + d - 10) as char
    }
}

/// Position of a hyphen in the canonical 8-4-4-4-12 form.
pub open spec fn is_hyphen_pos(k: int) -> bool {
    k == 8 || k == 13 || k == 18 || k == 23
}

/// Index of the digit shown at position `k` (not a hyphen) of the canonical form.
pub open spec fn digit_index(k: int) -> int {
    if k < 8 {
        k
    } else if k < 13 {
        k - 1
    } else if k < 18 {
        k - 2
    } else if k < 23 {
        k - 3
    } else {
        k - 4
    }
}

/// Canonical hyphenated lower-case hexadecimal text of a 128-bit value.
pub open spec fn hyphenated_text(v: u128) -> Seq<char> {
    Seq::new(36, |k: int| if is_hyphen_pos(k) { '-' } else { hex_char(nibble(v, digit_index(k))) })
}

/// What `uuid::Uuid::parse_str` yields on a text, as a 128-bit value.
pub uninterp spec fn parsed_uuid(s: Seq<char>) -> Option<u128>;

/// A value with the version-4 marker bits is never the all-zero value.
pub proof fn lemma_v4_not_nil(v: u128)
    requires
        is_v4(v),
    ensures
        v != 0,
{
    assert(v & 0xF000C000000000000000u128 == 0x40008000000000000000u128 ==> v != 0)
        by (bit_vector);
}

/// Relies on `uuid::Uuid::new_v4` and `Uuid::as_u128`: random bits with the
/// version nibble set to 4 and the variant bits set to `10`.
#[verifier::external_body]
pub(crate) fn random_v4() -> (r: u128)
    ensures
        is_v4(r),
{
    uuid::Uuid::new_v4().as_u128()
}

/// Relies on `uuid::Uuid`'s hyphenated `Display`: 8-4-4-4-12 lower-case hex digits.
#[verifier::external_body]
pub(crate) fn render_uuid(v: u128) -> (r: String)
    ensures
        r@ == hyphenated_text(v),
{
    uuid::Uuid::from_u128(v).hyphenated().to_string()
}

/// Relies on `uuid::Uuid::parse_str`; it accepts the canonical hyphenated form.
#[verifier::external_body]
pub(crate) fn parse_uuid(s: &str) -> (r: Option<u128>)
    ensures
        r == parsed_uuid(s@),
        forall|v: u128| s@ == hyphenated_text(v) ==> r == Some(v),
{
    match uuid::Uuid::parse_str(s) {
        Ok(u) => Some(u.as_u128()),
        Err(_) => None,
    }
}

} // verus!
