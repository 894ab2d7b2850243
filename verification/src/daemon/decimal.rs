//! Decimal numbers as the crate `rust_decimal` holds them: an integer
//! and the number of its digits that stand behind the point.

use vstd::prelude::*;

verus! {

/// The number `mantissa / 10^scale`.
#[derive(Clone, Copy, Debug, PartialEq, Eq, Structural)]
pub struct Decimal {
    pub mantissa: i128,
    pub scale: u32,
}

/// What rounding to a number of decimal places, half to even, makes of
/// `mantissa / 10^scale`: the new mantissa and scale.
pub uninterp spec fn rounded_to(mantissa: int, scale: nat, places: nat) -> (int, nat);

/// The usual text of `mantissa / 10^scale`, such as `1000.12`.
pub uninterp spec fn decimal_text(mantissa: int, scale: nat) -> Seq<char>;

/// Calls `Decimal::round_dp`. Trusted: the result is the number that
/// [`rounded_to`] names, and it is representable again. The requirement keeps
/// out what `Decimal::from_i128_with_scale` panics on.
#[verifier::external_body]
pub(crate) fn round_dp(value: Decimal, places: u32) -> (rounded: Decimal)
    requires
        value.is_representable(),
    ensures
        (rounded.mantissa as int, rounded.scale as nat) == rounded_to(
            value.mantissa as int,
            value.scale as nat,
            places as nat,
        ),
        rounded.is_representable(),
{
    let number = rust_decimal::Decimal::from_i128_with_scale(value.mantissa, value.scale);
    let rounded = number.round_dp(places);
    Decimal { mantissa: rounded.mantissa(), scale: rounded.scale() }
}

/// Calls `Decimal::to_string`. Trusted: the result is the text that
/// [`decimal_text`] names.
#[verifier::external_body]
pub(crate) fn to_text(value: Decimal) -> (text: String)
    requires
        value.is_representable(),
    ensures
        text@ == decimal_text(value.mantissa as int, value.scale as nat),
{
    rust_decimal::Decimal::from_i128_with_scale(value.mantissa, value.scale).to_string()
}

impl Decimal {
    /// The largest scale that `rust_decimal` can hold.
    pub const MAX_SCALE: u32 = 28;

    /// Whether `rust_decimal` can hold the number: at most 28 decimal
    /// places, and a mantissa of at most 96 bits.
    pub open spec fn is_representable(&self) -> bool {
        &&& self.scale <= 28
        &&& -0x1_0000_0000_0000_0000_0000_0000 < self.mantissa < 0x1_0000_0000_0000_0000_0000_0000
    }

    /// The number `mantissa / 10^scale`, or `None` where `scale` exceeds 28.
    pub fn new(mantissa: i64, scale: u32) -> (number: Option<Decimal>)
        ensures
            number == if scale <= 28 {
                Some(Decimal { mantissa: mantissa as i128, scale })
            } else {
                None
            },
            number matches Some(n) ==> n.is_representable(),
    {
        if scale <= Self::MAX_SCALE {
            Some(Decimal { mantissa: mantissa as i128, scale })
        } else {
            None
        }
    }

    /// The number `mantissa / 10^scale`, or `None` where `rust_decimal`
    /// cannot hold it.
    pub fn from_parts(mantissa: i128, scale: u32) -> (number: Option<Decimal>)
        ensures
            number == if (Decimal { mantissa, scale }).is_representable() {
                Some(Decimal { mantissa, scale })
            } else {
                None
            },
    {
        if scale <= Self::MAX_SCALE && -0x1_0000_0000_0000_0000_0000_0000 < mantissa && mantissa
            < 0x1_0000_0000_0000_0000_0000_0000 {
            Some(Decimal { mantissa, scale })
        } else {
            None
        }
    }

    /// Whether the number is greater than zero.
    pub fn is_positive(&self) -> (positive: bool)
        ensures
            positive == (self.mantissa > 0),
    {
        self.mantissa > 0
    }

    /// The number rounded to `places` decimal places, half to even.
    pub fn round(&self, places: u32) -> (rounded: Decimal)
        requires
            self.is_representable(),
        ensures
            (rounded.mantissa as int, rounded.scale as nat) == rounded_to(
                self.mantissa as int,
                self.scale as nat,
                places as nat,
            ),
            rounded.is_representable(),
    {
        round_dp(*self, places)
    }

    /// The number as text.
    pub fn text(&self) -> (text: String)
        requires
            self.is_representable(),
        ensures
            text@ == decimal_text(self.mantissa as int, self.scale as nat),
    {
        to_text(*self)
    }
}

} // verus!
