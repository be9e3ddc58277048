//! The conversion table: for each ordered pair of units that it lists, the
//! exact formula that expresses a value of the first unit in the second.
//!
//! A distance recorded as a daily total converts to a speed by dividing it,
//! in meters, by the 86400 seconds of a day.
//!
//! The table is not closed under composition: two units linked only through
//! a third have no entry, and converting between them fails.
use vstd::prelude::*;

use crate::text::joined;
use crate::units::{name_of, Units};

verus! {

/// A constant of a conversion formula.
#[derive(Clone, Copy, Debug, PartialEq, Eq, Structural)]
pub enum Constant {
    /// The decimal number `digits / 10^scale`.
    Decimal { digits: u64, scale: u32 },
    /// The ratio of a circle's circumference to its diameter.
    Pi,
}

/// One arithmetic step of a conversion formula, applied to the running value.
#[derive(Clone, Copy, Debug, PartialEq, Eq, Structural)]
pub enum Step {
    Multiply(Constant),
    Divide(Constant),
    Add(Constant),
    Subtract(Constant),
}

/// A conversion formula: its steps are applied to the value from first to
/// last. No steps at all leave the value as it is.
pub struct Conversion {
    pub steps: Vec<Step>,
}

impl View for Conversion {
    type V = Seq<Step>;

    open spec fn view(&self) -> Seq<Step> {
        self.steps@
    }
}

pub open spec fn decimal(digits: u64, scale: u32) -> Constant {
    Constant::Decimal { digits, scale }
}

/// The direct conversions, as formulas, keyed by the ordered pair of units.
pub open spec fn conversion_table(from: Units, to: Units) -> Option<Seq<Step>> {
    match (from, to) {
        (Units::Celsius, Units::Fahrenheit) => Some(seq![Step::Multiply(decimal(9, 0)), Step::Divide(decimal(5, 0)), Step::Add(decimal(32, 0))]),
        (Units::Fahrenheit, Units::Celsius) => Some(seq![Step::Subtract(decimal(32, 0)), Step::Multiply(decimal(5, 0)), Step::Divide(decimal(9, 0))]),
        (Units::Millimeters, Units::Centimeters) => Some(seq![Step::Divide(decimal(10, 0))]),
        (Units::Centimeters, Units::Millimeters) => Some(seq![Step::Multiply(decimal(10, 0))]),
        (Units::Meters, Units::Kilometers) => Some(seq![Step::Divide(decimal(1000, 0))]),
        (Units::Kilometers, Units::Meters) => Some(seq![Step::Multiply(decimal(1000, 0))]),
        (Units::Inches, Units::Feet) => Some(seq![Step::Divide(decimal(12, 0))]),
        (Units::Feet, Units::Inches) => Some(seq![Step::Multiply(decimal(12, 0))]),
        (Units::Yards, Units::Meters) => Some(seq![Step::Multiply(decimal(9144, 4))]),
        (Units::Meters, Units::Yards) => Some(seq![Step::Divide(decimal(9144, 4))]),
        (Units::Miles, Units::Kilometers) => Some(seq![Step::Multiply(decimal(160934, 5))]),
        (Units::Kilometers, Units::Miles) => Some(seq![Step::Divide(decimal(160934, 5))]),
        (Units::Langley, Units::MegaJoulesPerSquareMeter) => Some(seq![Step::Multiply(decimal(4184, 5))]),
        (Units::MegaJoulesPerSquareMeter, Units::Langley) => Some(seq![Step::Divide(decimal(4184, 5))]),
        (Units::WattsPerSquareMeter, Units::MegaJoulesPerSquareMeter) => Some(seq![Step::Divide(decimal(3600000, 0))]),
        (Units::MegaJoulesPerSquareMeter, Units::WattsPerSquareMeter) => Some(seq![Step::Multiply(decimal(3600000, 0))]),
        (Units::KiloPascals, Units::Pascals) => Some(seq![Step::Multiply(decimal(1000, 0))]),
        (Units::Pascals, Units::KiloPascals) => Some(seq![Step::Divide(decimal(1000, 0))]),
        (Units::Degrees, Units::Radians) => Some(seq![Step::Multiply(Constant::Pi), Step::Divide(decimal(180, 0))]),
        (Units::Radians, Units::Degrees) => Some(seq![Step::Multiply(decimal(180, 0)), Step::Divide(Constant::Pi)]),
        (Units::MetersPerSecond, Units::MilesPerHour) => Some(seq![Step::Multiply(decimal(223694, 5))]),
        (Units::MilesPerHour, Units::MetersPerSecond) => Some(seq![Step::Divide(decimal(223694, 5))]),
        (Units::Miles, Units::MetersPerSecond) => Some(
            seq![Step::Multiply(decimal(160934, 2)), Step::Divide(decimal(86400, 0))],
        ),
        (Units::Meters, Units::MetersPerSecond) => Some(seq![Step::Divide(decimal(86400, 0))]),
        (Units::Kilometers, Units::MetersPerSecond) => Some(
            seq![Step::Multiply(decimal(1000, 0)), Step::Divide(decimal(86400, 0))],
        ),
        (Units::Acres, Units::SquareMeters) => Some(seq![Step::Multiply(decimal(404686, 2))]),
        (Units::SquareMeters, Units::Acres) => Some(seq![Step::Divide(decimal(404686, 2))]),
        (Units::Hectares, Units::SquareMeters) => Some(seq![Step::Multiply(decimal(10000, 0))]),
        (Units::SquareMeters, Units::Hectares) => Some(seq![Step::Divide(decimal(10000, 0))]),
        (Units::SquareFeet, Units::SquareMeters) => Some(seq![Step::Divide(decimal(107639, 4))]),
        (Units::SquareMeters, Units::SquareFeet) => Some(seq![Step::Multiply(decimal(107639, 4))]),
        (Units::Hectares, Units::Acres) => Some(seq![Step::Multiply(decimal(247105, 5))]),
        (Units::Acres, Units::Hectares) => Some(seq![Step::Divide(decimal(247105, 5))]),
        _ => None,
    }
}

/// The message given for a pair of units that the table does not list.
pub open spec fn unsupported_message(from: Units, to: Units) -> Seq<char> {
    "Unsupported conversion from "@ + name_of(from) + " to "@ + name_of(to)
}

impl Units {
    /// The formula that converts a value of this unit into `to_unit`. Only a
    /// pair that the table lists directly succeeds; every other pair, a unit
    /// and itself included, fails with a message that names both units.
    pub fn conversion(&self, to_unit: &Units) -> (r: Result<Conversion, String>)
        ensures
            conversion_table(*self, *to_unit) is Some <==> r is Ok,
            r is Ok ==> r->Ok_0@ == conversion_table(*self, *to_unit)->0,
            r is Err ==> r->Err_0@ == unsupported_message(*self, *to_unit),
    {
        let steps = match (self, to_unit) {
            (Units::Celsius, Units::Fahrenheit) => vec![Step::Multiply(Constant::Decimal { digits: 9, scale: 0 }), Step::Divide(Constant::Decimal { digits: 5, scale: 0 }), Step::Add(Constant::Decimal { digits: 32, scale: 0 })],
            (Units::Fahrenheit, Units::Celsius) => vec![Step::Subtract(Constant::Decimal { digits: 32, scale: 0 }), Step::Multiply(Constant::Decimal { digits: 5, scale: 0 }), Step::Divide(Constant::Decimal { digits: 9, scale: 0 })],
            (Units::Millimeters, Units::Centimeters) => vec![Step::Divide(Constant::Decimal { digits: 10, scale: 0 })],
            (Units::Centimeters, Units::Millimeters) => vec![Step::Multiply(Constant::Decimal { digits: 10, scale: 0 })],
            (Units::Meters, Units::Kilometers) => vec![Step::Divide(Constant::Decimal { digits: 1000, scale: 0 })],
            (Units::Kilometers, Units::Meters) => vec![Step::Multiply(Constant::Decimal { digits: 1000, scale: 0 })],
            (Units::Inches, Units::Feet) => vec![Step::Divide(Constant::Decimal { digits: 12, scale: 0 })],
            (Units::Feet, Units::Inches) => vec![Step::Multiply(Constant::Decimal { digits: 12, scale: 0 })],
            (Units::Yards, Units::Meters) => vec![Step::Multiply(Constant::Decimal { digits: 9144, scale: 4 })],
            (Units::Meters, Units::Yards) => vec![Step::Divide(Constant::Decimal { digits: 9144, scale: 4 })],
            (Units::Miles, Units::Kilometers) => vec![Step::Multiply(Constant::Decimal { digits: 160934, scale: 5 })],
            (Units::Kilometers, Units::Miles) => vec![Step::Divide(Constant::Decimal { digits: 160934, scale: 5 })],
            (Units::Langley, Units::MegaJoulesPerSquareMeter) => vec![Step::Multiply(Constant::Decimal { digits: 4184, scale: 5 })],
            (Units::MegaJoulesPerSquareMeter, Units::Langley) => vec![Step::Divide(Constant::Decimal { digits: 4184, scale: 5 })],
            (Units::WattsPerSquareMeter, Units::MegaJoulesPerSquareMeter) => vec![Step::Divide(Constant::Decimal { digits: 3600000, scale: 0 })],
            (Units::MegaJoulesPerSquareMeter, Units::WattsPerSquareMeter) => vec![Step::Multiply(Constant::Decimal { digits: 3600000, scale: 0 })],
            (Units::KiloPascals, Units::Pascals) => vec![Step::Multiply(Constant::Decimal { digits: 1000, scale: 0 })],
            (Units::Pascals, Units::KiloPascals) => vec![Step::Divide(Constant::Decimal { digits: 1000, scale: 0 })],
            (Units::Degrees, Units::Radians) => vec![Step::Multiply(Constant::Pi), Step::Divide(Constant::Decimal { digits: 180, scale: 0 })],
            (Units::Radians, Units::Degrees) => vec![Step::Multiply(Constant::Decimal { digits: 180, scale: 0 }), Step::Divide(Constant::Pi)],
            (Units::MetersPerSecond, Units::MilesPerHour) => vec![Step::Multiply(Constant::Decimal { digits: 223694, scale: 5 })],
            (Units::MilesPerHour, Units::MetersPerSecond) => vec![Step::Divide(Constant::Decimal { digits: 223694, scale: 5 })],
            (Units::Miles, Units::MetersPerSecond) => vec![
                Step::Multiply(Constant::Decimal { digits: 160934, scale: 2 }),
                Step::Divide(Constant::Decimal { digits: 86400, scale: 0 }),
            ],
            (Units::Meters, Units::MetersPerSecond) => vec![Step::Divide(Constant::Decimal { digits: 86400, scale: 0 })],
            (Units::Kilometers, Units::MetersPerSecond) => vec![
                Step::Multiply(Constant::Decimal { digits: 1000, scale: 0 }),
                Step::Divide(Constant::Decimal { digits: 86400, scale: 0 }),
            ],
            (Units::Acres, Units::SquareMeters) => vec![Step::Multiply(Constant::Decimal { digits: 404686, scale: 2 })],
            (Units::SquareMeters, Units::Acres) => vec![Step::Divide(Constant::Decimal { digits: 404686, scale: 2 })],
            (Units::Hectares, Units::SquareMeters) => vec![Step::Multiply(Constant::Decimal { digits: 10000, scale: 0 })],
            (Units::SquareMeters, Units::Hectares) => vec![Step::Divide(Constant::Decimal { digits: 10000, scale: 0 })],
            (Units::SquareFeet, Units::SquareMeters) => vec![Step::Divide(Constant::Decimal { digits: 107639, scale: 4 })],
            (Units::SquareMeters, Units::SquareFeet) => vec![Step::Multiply(Constant::Decimal { digits: 107639, scale: 4 })],
            (Units::Hectares, Units::Acres) => vec![Step::Multiply(Constant::Decimal { digits: 247105, scale: 5 })],
            (Units::Acres, Units::Hectares) => vec![Step::Divide(Constant::Decimal { digits: 247105, scale: 5 })],
            _ => {
                let head = joined("Unsupported conversion from ", self.name());
                let tail = joined(" to ", to_unit.name());
                return Err(joined(head.as_str(), tail.as_str()));
            },
        };
        proof {
            assert(steps@ =~= conversion_table(*self, *to_unit)->0);
        }
        Ok(Conversion { steps })
    }
}

} // verus!
