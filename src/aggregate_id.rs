//! Typed aggregate identifiers: a 128-bit value shown as `"{PREFIX}-{uuid}"`.
use vstd::prelude::*;
use vstd::arithmetic::power2::pow2;
use vstd::string::*;

verus! {

/// The lower-case hex digit of `n`, for `0 <= n < 16`.
pub open spec fn hex_digit(n: int) -> char {
    seq!['0', '1', '2', '3', '4', '5', '6', '7', '8', '9', 'a', 'b', 'c', 'd', 'e', 'f'][n]
}

/// The `k`-th hex digit of `v`, counting from the most significant (`0 <= k < 32`).
pub open spec fn nibble(v: u128, k: int) -> int {
    (v as int / pow2((4 * (31 - k)) as nat) as int) % 16
}

/// How many hyphens stand before position `p` of the hyphenated text.
pub open spec fn hyphens_before(p: int) -> int {
    if p < 8 {
        0
    } else if p < 13 {
        1
    } else if p < 18 {
        2
    } else if p < 23 {
        3
    } else {
        4
    }
}

/// The hyphenated text of a 128-bit identifier: its 32 lower-case hex digits,
/// most significant first, in groups of 8, 4, 4, 4 and 12 joined by `-`.
pub open spec fn uuid_text(v: u128) -> Seq<char> {
    Seq::new(
        36,
        |p: int|
            if p == 8 || p == 13 || p == 18 || p == 23 {
                '-'
            } else {
                hex_digit(nibble(v, p - hyphens_before(p)))
            },
    )
}

/// A version-4 identifier: version nibble `4` and variant bits `10`.
pub open spec fn is_v4(v: u128) -> bool {
    &&& (v >> 76u128) & 0xfu128 == 4
    &&& (v >> 62u128) & 0x3u128 == 2
}

/// The textual form of an identifier with the given type prefix.
pub open spec fn id_text(prefix: Seq<char>, raw: u128) -> Seq<char> {
    prefix + seq!['-'] + uuid_text(raw)
}

/// Relies on uuid's `Uuid::new_v4`: 128 random bits with the version nibble
/// set to 4 and the variant bits to `10`; `as_u128` reads them back big-endian.
#[verifier::external_body]
pub(crate) fn random_v4() -> (r: u128)
    ensures
        is_v4(r),
{
    uuid::Uuid::new_v4().as_u128()
}

/// Relies on uuid's `Uuid::from_u128` and the `Display` of `Uuid`, which
/// writes the value in the lower-case hyphenated form.
#[verifier::external_body]
pub(crate) fn hyphenated(v: u128) -> (r: String)
    ensures
        r@ == uuid_text(v),
{
    uuid::Uuid::from_u128(v).to_string()
}

/// Renders `"{prefix}-{uuid}"`.
pub fn render_id(prefix: &str, raw: u128) -> (r: String)
    ensures
        r@ == id_text(prefix@, raw),
{
    let mut s = prefix.to_owned();
    proof {
        reveal_strlit("-");
    }
    s.append("-");
    let t = hyphenated(raw);
    s.append(t.as_str());
    s
}

/// What every aggregate identifier offers: a fixed type prefix per kind and
/// a 128-bit value, shown together as `"{PREFIX}-{uuid}"`.
pub trait AggregateId: Sized {
    /// The fixed prefix of this kind of identifier.
    spec fn prefix() -> Seq<char>;

    /// The 128-bit value.
    spec fn raw(&self) -> u128;

    /// The type prefix.
    fn type_prefix(&self) -> (r: String)
        ensures
            r@ == Self::prefix(),
    ;

    /// The hyphenated text of the value.
    fn value(&self) -> (r: String)
        ensures
            r@ == uuid_text(self.raw()),
    ;

    /// A fresh random value for a new identifier.
    fn generate_id() -> (r: u128)
        ensures
            is_v4(r),
    ;

    /// The full textual form `"{PREFIX}-{uuid}"`.
    fn display(&self) -> (r: String)
        ensures
            r@ == id_text(Self::prefix(), self.raw()),
    ;
}

} // verus!
