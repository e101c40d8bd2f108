//! Exact fixed-point amounts.
//!
//! An [`Amount`] holds the raw bits of a signed fixed-point number with 64
//! integer and 64 fractional bits, the layout of `fixed::types::I64F64`.
//! Sums, differences and comparisons of amounts are exact integer operations
//! on those bits; only the decimal text form goes through the `fixed` crate.

use vstd::prelude::*;

verus! {

/// A signed fixed-point amount of money, stored as its raw bits: the value
/// is `bits / 2^64`.
#[derive(Debug, Clone, Copy, PartialEq, Eq, Structural)]
pub struct Amount {
    pub bits: i128,
}

impl View for Amount {
    type V = int;

    /// The amount, counted in units of `2^-64`.
    open spec fn view(&self) -> int {
        self.bits as int
    }
}

/// Whether an integer fits the raw bits of an [`Amount`].
pub open spec fn in_bits_range(v: int) -> bool {
    i128::MIN <= v <= i128::MAX
}

impl Amount {
    /// The amount whose raw bits are `bits`.
    pub fn from_bits(bits: i128) -> (r: Amount)
        ensures
            r@ == bits as int,
    {
        Amount { bits }
    }

    /// The raw bits of the amount.
    pub fn to_bits(self) -> (r: i128)
        ensures
            r as int == self@,
    {
        self.bits
    }

    /// The amount zero.
    pub fn zero() -> (r: Amount)
        ensures
            r@ == 0,
    {
        Amount { bits: 0 }
    }

    /// The exact sum of two amounts.
    pub fn add(self, other: Amount) -> (r: Amount)
        requires
            in_bits_range(self@ + other@),
        ensures
            r@ == self@ + other@,
    {
        Amount { bits: self.bits + other.bits }
    }

    /// The exact difference of two amounts.
    pub fn sub(self, other: Amount) -> (r: Amount)
        requires
            in_bits_range(self@ - other@),
        ensures
            r@ == self@ - other@,
    {
        Amount { bits: self.bits - other.bits }
    }

    /// The sum of two amounts, or `None` where it leaves the range of amounts.
    pub fn checked_add(self, other: Amount) -> (r: Option<Amount>)
        ensures
            r matches Some(s) ==> s@ == self@ + other@,
            r is None <==> !in_bits_range(self@ + other@),
    {
        match self.bits.checked_add(other.bits) {
            Some(bits) => Some(Amount { bits }),
            None => None,
        }
    }

    /// The difference of two amounts, or `None` where it leaves the range of
    /// amounts.
    pub fn checked_sub(self, other: Amount) -> (r: Option<Amount>)
        ensures
            r matches Some(s) ==> s@ == self@ - other@,
            r is None <==> !in_bits_range(self@ - other@),
    {
        match self.bits.checked_sub(other.bits) {
            Some(bits) => Some(Amount { bits }),
            None => None,
        }
    }

    /// Whether `self` is at most `other`.
    pub fn le(self, other: Amount) -> (r: bool)
        ensures
            r == (self@ <= other@),
    {
        self.bits <= other.bits
    }
}

/// What `fixed`'s decimal parser makes of a text, as raw bits.
pub uninterp spec fn parsed_bits(s: Seq<char>) -> Option<i128>;

/// What `fixed`'s decimal formatter writes for raw bits, with four
/// fractional digits.
pub uninterp spec fn decimal_text(bits: i128) -> Seq<char>;

/// Relies on `<I64F64 as FromStr>::from_str`: the parsed value, rounded to
/// the nearest representable one, or an error; the result depends on the
/// text alone.
#[verifier::external_body]
fn parse_bits(s: &str) -> (r: Option<i128>)
    ensures
        r == parsed_bits(s@),
{
    <fixed::types::I64F64 as std::str::FromStr>::from_str(s).ok().map(|v| v.to_bits())
}

/// Relies on `Display` of `I64F64` with a precision of four: the decimal text
/// with exactly four fractional digits; the result depends on the bits alone.
#[verifier::external_body]
fn format_bits(bits: i128) -> (r: String)
    ensures
        r@ == decimal_text(bits),
{
    format!("{:.4}", fixed::types::I64F64::from_bits(bits))
}

/// Parses a decimal text into an amount; `None` where the text is not a
/// decimal number in the range of amounts.
pub fn deserialize_amount(s: &str) -> (r: Option<Amount>)
    ensures
        r == (match parsed_bits(s@) {
            Some(bits) => Some(Amount { bits }),
            None => None::<Amount>,
        }),
{
    match parse_bits(s) {
        Some(bits) => Some(Amount { bits }),
        None => None,
    }
}

/// Writes an amount as decimal text with exactly four fractional digits.
pub fn serialize_amount(amount: &Amount) -> (r: String)
    ensures
        r@ == decimal_text(amount.bits),
{
    format_bits(amount.bits)
}

} // verus!
