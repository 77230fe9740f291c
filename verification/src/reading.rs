//! What a report says once decoded, and the three ways a driver hands it on.
//!
//! A scale sends an integer mantissa and a power of ten. Nothing here rounds:
//! a value is kept as the integers it was sent as, together with the divisor
//! that the chosen path applies, so that every contract is exact and the
//! caller decides when to go over to floating point.

use vstd::prelude::*;

verus! {

/// Thousandths in one: the divisor that leaves a value as it is.
pub const UNCHANGED: u32 = 1_000;

/// The divisor of the kilogram path for a reading in kilograms, in
/// thousandths: one hundred.
pub const KILOGRAM_SCALE: u32 = 100_000;

/// The divisor of the pound path for a reading in pounds, in thousandths:
/// sixteen.
pub const POUND_SCALE: u32 = 16_000;

/// The divisor that takes a reading in kilograms to pounds, in thousandths:
/// 453.592.
pub const KILOGRAM_TO_POUND: u32 = 453_592;

/// The number as the scale sent it: `mantissa` times ten to the `exponent`.
#[derive(Clone, Copy, Debug, PartialEq, Eq, Structural)]
pub struct Magnitude {
    pub mantissa: u16,
    pub exponent: i8,
}

/// A decoded measurement, tagged with the unit the scale reported it in.
#[derive(Clone, Copy, Debug, PartialEq, Eq, Structural)]
pub enum DymoUnit {
    Kilograms(Magnitude),
    Pounds(Magnitude),
}

/// A magnitude divided by `divisor_thousandths / 1000`.
#[derive(Clone, Copy, Debug, PartialEq, Eq, Structural)]
pub struct Quantity {
    pub magnitude: Magnitude,
    pub divisor_thousandths: u32,
}

/// The unit of a force.
#[derive(Clone, Copy, Debug, PartialEq, Eq, Structural)]
pub enum ForceUnit {
    KilogramForce,
    PoundForce,
}

/// A force: an amount and the unit it is in.
#[derive(Clone, Copy, Debug, PartialEq, Eq, Structural)]
pub struct ForceReading {
    pub unit: ForceUnit,
    pub amount: Quantity,
}

/// Ten to the power `n`.
pub open spec fn pow10(n: nat) -> nat
    decreases n,
{
    if n == 0 {
        1
    } else {
        10 * pow10((n - 1) as nat)
    }
}

impl Magnitude {
    /// Numerator of the exact value `mantissa * 10^exponent`.
    pub open spec fn numerator(self) -> nat {
        if self.exponent >= 0 {
            self.mantissa as nat * pow10(self.exponent as nat)
        } else {
            self.mantissa as nat
        }
    }

    /// Denominator of the exact value `mantissa * 10^exponent`.
    pub open spec fn denominator(self) -> nat {
        if self.exponent >= 0 {
            1
        } else {
            pow10((-self.exponent) as nat)
        }
    }
}

impl DymoUnit {
    /// The number that the scale sent, whatever its unit.
    pub open spec fn magnitude(self) -> Magnitude {
        match self {
            DymoUnit::Kilograms(m) => m,
            DymoUnit::Pounds(m) => m,
        }
    }

    /// The kilogram path: a reading in kilograms is divided by one hundred,
    /// one in pounds is passed on as the scale sent it.
    pub open spec fn kilograms(self) -> Quantity {
        match self {
            DymoUnit::Kilograms(m) => Quantity { magnitude: m, divisor_thousandths: KILOGRAM_SCALE },
            DymoUnit::Pounds(m) => Quantity { magnitude: m, divisor_thousandths: UNCHANGED },
        }
    }

    /// The pound path: a reading in kilograms is divided by 453.592, one in
    /// pounds by sixteen.
    pub open spec fn pounds(self) -> Quantity {
        match self {
            DymoUnit::Kilograms(m) => Quantity { magnitude: m, divisor_thousandths: KILOGRAM_TO_POUND },
            DymoUnit::Pounds(m) => Quantity { magnitude: m, divisor_thousandths: POUND_SCALE },
        }
    }

    /// The force path: a reading in kilograms is divided by 453.592 and
    /// taken as kilograms-force, one in pounds is taken as pounds-force as
    /// it stands.
    pub open spec fn force(self) -> ForceReading {
        match self {
            DymoUnit::Kilograms(m) => ForceReading {
                unit: ForceUnit::KilogramForce,
                amount: Quantity { magnitude: m, divisor_thousandths: KILOGRAM_TO_POUND },
            },
            DymoUnit::Pounds(m) => ForceReading {
                unit: ForceUnit::PoundForce,
                amount: Quantity { magnitude: m, divisor_thousandths: UNCHANGED },
            },
        }
    }

    /// The reading on the kilogram path.
    pub fn to_kilograms(self) -> (q: Quantity)
        ensures
            q == self.kilograms(),
    {
        match self {
            DymoUnit::Kilograms(m) => Quantity { magnitude: m, divisor_thousandths: KILOGRAM_SCALE },
            DymoUnit::Pounds(m) => Quantity { magnitude: m, divisor_thousandths: UNCHANGED },
        }
    }

    /// The reading on the pound path.
    pub fn to_pounds(self) -> (q: Quantity)
        ensures
            q == self.pounds(),
    {
        match self {
            DymoUnit::Kilograms(m) => Quantity { magnitude: m, divisor_thousandths: KILOGRAM_TO_POUND },
            DymoUnit::Pounds(m) => Quantity { magnitude: m, divisor_thousandths: POUND_SCALE },
        }
    }

    /// The reading as a force.
    pub fn to_force(self) -> (f: ForceReading)
        ensures
            f == self.force(),
    {
        match self {
            DymoUnit::Kilograms(m) => ForceReading {
                unit: ForceUnit::KilogramForce,
                amount: Quantity { magnitude: m, divisor_thousandths: KILOGRAM_TO_POUND },
            },
            DymoUnit::Pounds(m) => ForceReading {
                unit: ForceUnit::PoundForce,
                amount: Quantity { magnitude: m, divisor_thousandths: UNCHANGED },
            },
        }
    }
}

impl Quantity {
    /// Numerator of the exact value: the magnitude's, times one thousand.
    pub open spec fn numerator(self) -> nat {
        self.magnitude.numerator() * 1000
    }

    /// Denominator of the exact value: the magnitude's, times the divisor.
    pub open spec fn denominator(self) -> nat {
        self.magnitude.denominator() * self.divisor_thousandths as nat
    }
}

/// The kilogram path and the pound path of one reading carry the number
/// that the scale sent and differ in the divisor alone: a hundred against
/// 453.592 for a reading in kilograms, one against sixteen for a reading in
/// pounds. So the exact values stand in the ratio of the two divisors.
pub proof fn lemma_paths_differ_by_divisor(reading: DymoUnit)
    ensures
        reading.kilograms().magnitude == reading.magnitude(),
        reading.pounds().magnitude == reading.magnitude(),
        reading.kilograms().numerator() == reading.pounds().numerator(),
        reading is Kilograms ==> reading.kilograms().denominator() * 453_592
            == reading.pounds().denominator() * 100_000,
        reading is Pounds ==> reading.kilograms().denominator() * 16 == reading.pounds().denominator(),
{
    let d = reading.magnitude().denominator();
    assert(d * 100_000 * 453_592 == d * 453_592 * 100_000) by (nonlinear_arith);
    assert(d * 1_000 * 16 == d * 16_000) by (nonlinear_arith);
}

/// The force path of a reading in kilograms gives the amount of the pound
/// path, and that of a reading in pounds gives the number as it was sent.
pub proof fn lemma_force_amount(reading: DymoUnit)
    ensures
        reading is Kilograms ==> reading.force().unit == ForceUnit::KilogramForce
            && reading.force().amount == reading.pounds(),
        reading is Pounds ==> reading.force().unit == ForceUnit::PoundForce
            && reading.force().amount.magnitude == reading.magnitude()
            && reading.force().amount.divisor_thousandths == UNCHANGED,
{
}

} // verus!
