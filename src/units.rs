//! The unit taxonomy: every recognised unit, the abbreviations accepted for
//! it, and the table of direct conversions between pairs of units.
use vstd::prelude::*;

use crate::text::{joined, same_text};

verus! {

/// A physical unit in which a station may record a value.
#[derive(Clone, Copy, Debug, PartialEq, Eq, Structural)]
pub enum Units {
    Celsius,
    Fahrenheit,
    Millimeters,
    Centimeters,
    Meters,
    Kilometers,
    Inches,
    Feet,
    Yards,
    Miles,
    Langley,
    MegaJoulesPerSquareMeter,
    WattsPerSquareMeter,
    Pascals,
    KiloPascals,
    Degrees,
    Radians,
    MetersPerSecond,
    MilesPerHour,
    Acres,
    Hectares,
    SquareFeet,
    SquareMeters,
    Percent,
}

/// The display abbreviation of a unit.
pub open spec fn abbreviation_of(u: Units) -> Seq<char> {
    match u {
        Units::Celsius => "°C"@,
        Units::Fahrenheit => "°F"@,
        Units::Millimeters => "mm"@,
        Units::Centimeters => "cm"@,
        Units::Meters => "m"@,
        Units::Kilometers => "km"@,
        Units::Inches => "in"@,
        Units::Feet => "ft"@,
        Units::Yards => "yd"@,
        Units::Miles => "mi"@,
        Units::Langley => "L"@,
        Units::MegaJoulesPerSquareMeter => "MJ/m²"@,
        Units::WattsPerSquareMeter => "W/m²"@,
        Units::Pascals => "Pa"@,
        Units::KiloPascals => "kPa"@,
        Units::Degrees => "°"@,
        Units::Radians => "rad"@,
        Units::MetersPerSecond => "m/s"@,
        Units::MilesPerHour => "mph"@,
        Units::Acres => "acres"@,
        Units::Hectares => "ha"@,
        Units::SquareFeet => "ft²"@,
        Units::SquareMeters => "m²"@,
        Units::Percent => "%"@,
    }
}

/// The human-readable name of a unit.
pub open spec fn name_of(u: Units) -> Seq<char> {
    match u {
        Units::Celsius => "Celsius"@,
        Units::Fahrenheit => "Fahrenheit"@,
        Units::Millimeters => "Millimeters"@,
        Units::Centimeters => "Centimeters"@,
        Units::Meters => "Meters"@,
        Units::Kilometers => "Kilometers"@,
        Units::Inches => "Inches"@,
        Units::Feet => "Feet"@,
        Units::Yards => "Yards"@,
        Units::Miles => "Miles"@,
        Units::Langley => "Langley"@,
        Units::MegaJoulesPerSquareMeter => "MegaJoules/Meter²"@,
        Units::WattsPerSquareMeter => "Watts"@,
        Units::Pascals => "Pascals"@,
        Units::KiloPascals => "KiloPascals"@,
        Units::Degrees => "Degrees"@,
        Units::Radians => "Radians"@,
        Units::MetersPerSecond => "Meters/Second"@,
        Units::MilesPerHour => "Miles/Hour"@,
        Units::Acres => "Acres"@,
        Units::Hectares => "Hectares"@,
        Units::SquareFeet => "Square Feet"@,
        Units::SquareMeters => "Square Meters"@,
        Units::Percent => "Percent"@,
    }
}

/// The unit that an accepted input abbreviation stands for; matching is on
/// the exact text.
pub open spec fn unit_for(s: Seq<char>) -> Option<Units> {
    if s == "°C"@ {
        Some(Units::Celsius)
    } else if s == "C"@ {
        Some(Units::Celsius)
    } else if s == "c"@ {
        Some(Units::Celsius)
    } else if s == "°F"@ {
        Some(Units::Fahrenheit)
    } else if s == "F"@ {
        Some(Units::Fahrenheit)
    } else if s == "f"@ {
        Some(Units::Fahrenheit)
    } else if s == "mm"@ {
        Some(Units::Millimeters)
    } else if s == "cm"@ {
        Some(Units::Centimeters)
    } else if s == "m"@ {
        Some(Units::Meters)
    } else if s == "km"@ {
        Some(Units::Kilometers)
    } else if s == "KM"@ {
        Some(Units::Kilometers)
    } else if s == "in"@ {
        Some(Units::Inches)
    } else if s == "ft"@ {
        Some(Units::Feet)
    } else if s == "yd"@ {
        Some(Units::Yards)
    } else if s == "mi"@ {
        Some(Units::Miles)
    } else if s == "L"@ {
        Some(Units::Langley)
    } else if s == "MJ/m²"@ {
        Some(Units::MegaJoulesPerSquareMeter)
    } else if s == "mj/m²"@ {
        Some(Units::MegaJoulesPerSquareMeter)
    } else if s == "mj/m2"@ {
        Some(Units::MegaJoulesPerSquareMeter)
    } else if s == "mj/m^2"@ {
        Some(Units::MegaJoulesPerSquareMeter)
    } else if s == "mJ/m^2"@ {
        Some(Units::MegaJoulesPerSquareMeter)
    } else if s == "W/m²"@ {
        Some(Units::WattsPerSquareMeter)
    } else if s == "w/m²"@ {
        Some(Units::WattsPerSquareMeter)
    } else if s == "W/m-2"@ {
        Some(Units::WattsPerSquareMeter)
    } else if s == "w/m-2"@ {
        Some(Units::WattsPerSquareMeter)
    } else if s == "Pa"@ {
        Some(Units::Pascals)
    } else if s == "pa"@ {
        Some(Units::Pascals)
    } else if s == "kpa"@ {
        Some(Units::KiloPascals)
    } else if s == "kPa"@ {
        Some(Units::KiloPascals)
    } else if s == "KPA"@ {
        Some(Units::KiloPascals)
    } else if s == "KPa"@ {
        Some(Units::KiloPascals)
    } else if s == "°"@ {
        Some(Units::Degrees)
    } else if s == "deg"@ {
        Some(Units::Degrees)
    } else if s == "rad"@ {
        Some(Units::Radians)
    } else if s == "m/s"@ {
        Some(Units::MetersPerSecond)
    } else if s == "mph"@ {
        Some(Units::MilesPerHour)
    } else if s == "acres"@ {
        Some(Units::Acres)
    } else if s == "ha"@ {
        Some(Units::Hectares)
    } else if s == "ft²"@ {
        Some(Units::SquareFeet)
    } else if s == "sq ft"@ {
        Some(Units::SquareFeet)
    } else if s == "ft2"@ {
        Some(Units::SquareFeet)
    } else if s == "m²"@ {
        Some(Units::SquareMeters)
    } else if s == "sq m"@ {
        Some(Units::SquareMeters)
    } else if s == "m2"@ {
        Some(Units::SquareMeters)
    } else if s == "%"@ {
        Some(Units::Percent)
    } else if s == "percent"@ {
        Some(Units::Percent)
    } else if s == "Percent"@ {
        Some(Units::Percent)
    } else if s == "degC"@ {
        Some(Units::Celsius)
    } else if s == "degF"@ {
        Some(Units::Fahrenheit)
    } else {
        None
    }
}

impl Units {
    /// The display abbreviation of this unit.
    pub fn to_abbreviation(&self) -> (r: &'static str)
        ensures
            r@ == abbreviation_of(*self),
    {
        match self {
            Units::Celsius => "°C",
            Units::Fahrenheit => "°F",
            Units::Millimeters => "mm",
            Units::Centimeters => "cm",
            Units::Meters => "m",
            Units::Kilometers => "km",
            Units::Inches => "in",
            Units::Feet => "ft",
            Units::Yards => "yd",
            Units::Miles => "mi",
            Units::Langley => "L",
            Units::MegaJoulesPerSquareMeter => "MJ/m²",
            Units::WattsPerSquareMeter => "W/m²",
            Units::Pascals => "Pa",
            Units::KiloPascals => "kPa",
            Units::Degrees => "°",
            Units::Radians => "rad",
            Units::MetersPerSecond => "m/s",
            Units::MilesPerHour => "mph",
            Units::Acres => "acres",
            Units::Hectares => "ha",
            Units::SquareFeet => "ft²",
            Units::SquareMeters => "m²",
            Units::Percent => "%",
        }
    }

    /// Resolves an input abbreviation; any text outside the accepted set is
    /// refused with `Invalid unit: <text>`.
    pub fn from_abbreviation(abbreviation: &str) -> (r: Result<Units, String>)
        ensures
            unit_for(abbreviation@) is Some ==> r == Ok::<Units, String>(unit_for(abbreviation@)->0),
            unit_for(abbreviation@) is None ==> r is Err && r->Err_0@ == "Invalid unit: "@
                + abbreviation@,
    {
        if same_text(abbreviation, "°C") {
            Ok(Units::Celsius)
        } else if same_text(abbreviation, "C") {
            Ok(Units::Celsius)
        } else if same_text(abbreviation, "c") {
            Ok(Units::Celsius)
        } else if same_text(abbreviation, "°F") {
            Ok(Units::Fahrenheit)
        } else if same_text(abbreviation, "F") {
            Ok(Units::Fahrenheit)
        } else if same_text(abbreviation, "f") {
            Ok(Units::Fahrenheit)
        } else if same_text(abbreviation, "mm") {
            Ok(Units::Millimeters)
        } else if same_text(abbreviation, "cm") {
            Ok(Units::Centimeters)
        } else if same_text(abbreviation, "m") {
            Ok(Units::Meters)
        } else if same_text(abbreviation, "km") {
            Ok(Units::Kilometers)
        } else if same_text(abbreviation, "KM") {
            Ok(Units::Kilometers)
        } else if same_text(abbreviation, "in") {
            Ok(Units::Inches)
        } else if same_text(abbreviation, "ft") {
            Ok(Units::Feet)
        } else if same_text(abbreviation, "yd") {
            Ok(Units::Yards)
        } else if same_text(abbreviation, "mi") {
            Ok(Units::Miles)
        } else if same_text(abbreviation, "L") {
            Ok(Units::Langley)
        } else if same_text(abbreviation, "MJ/m²") {
            Ok(Units::MegaJoulesPerSquareMeter)
        } else if same_text(abbreviation, "mj/m²") {
            Ok(Units::MegaJoulesPerSquareMeter)
        } else if same_text(abbreviation, "mj/m2") {
            Ok(Units::MegaJoulesPerSquareMeter)
        } else if same_text(abbreviation, "mj/m^2") {
            Ok(Units::MegaJoulesPerSquareMeter)
        } else if same_text(abbreviation, "mJ/m^2") {
            Ok(Units::MegaJoulesPerSquareMeter)
        } else if same_text(abbreviation, "W/m²") {
            Ok(Units::WattsPerSquareMeter)
        } else if same_text(abbreviation, "w/m²") {
            Ok(Units::WattsPerSquareMeter)
        } else if same_text(abbreviation, "W/m-2") {
            Ok(Units::WattsPerSquareMeter)
        } else if same_text(abbreviation, "w/m-2") {
            Ok(Units::WattsPerSquareMeter)
        } else if same_text(abbreviation, "Pa") {
            Ok(Units::Pascals)
        } else if same_text(abbreviation, "pa") {
            Ok(Units::Pascals)
        } else if same_text(abbreviation, "kpa") {
            Ok(Units::KiloPascals)
        } else if same_text(abbreviation, "kPa") {
            Ok(Units::KiloPascals)
        } else if same_text(abbreviation, "KPA") {
            Ok(Units::KiloPascals)
        } else if same_text(abbreviation, "KPa") {
            Ok(Units::KiloPascals)
        } else if same_text(abbreviation, "°") {
            Ok(Units::Degrees)
        } else if same_text(abbreviation, "deg") {
            Ok(Units::Degrees)
        } else if same_text(abbreviation, "rad") {
            Ok(Units::Radians)
        } else if same_text(abbreviation, "m/s") {
            Ok(Units::MetersPerSecond)
        } else if same_text(abbreviation, "mph") {
            Ok(Units::MilesPerHour)
        } else if same_text(abbreviation, "acres") {
            Ok(Units::Acres)
        } else if same_text(abbreviation, "ha") {
            Ok(Units::Hectares)
        } else if same_text(abbreviation, "ft²") {
            Ok(Units::SquareFeet)
        } else if same_text(abbreviation, "sq ft") {
            Ok(Units::SquareFeet)
        } else if same_text(abbreviation, "ft2") {
            Ok(Units::SquareFeet)
        } else if same_text(abbreviation, "m²") {
            Ok(Units::SquareMeters)
        } else if same_text(abbreviation, "sq m") {
            Ok(Units::SquareMeters)
        } else if same_text(abbreviation, "m2") {
            Ok(Units::SquareMeters)
        } else if same_text(abbreviation, "%") {
            Ok(Units::Percent)
        } else if same_text(abbreviation, "percent") {
            Ok(Units::Percent)
        } else if same_text(abbreviation, "Percent") {
            Ok(Units::Percent)
        } else if same_text(abbreviation, "degC") {
            Ok(Units::Celsius)
        } else if same_text(abbreviation, "degF") {
            Ok(Units::Fahrenheit)
        } else {
            Err(joined("Invalid unit: ", abbreviation))
        }
    }

    /// The human-readable name of this unit.
    pub fn name(&self) -> (r: &'static str)
        ensures
            r@ == name_of(*self),
    {
        match self {
            Units::Celsius => "Celsius",
            Units::Fahrenheit => "Fahrenheit",
            Units::Millimeters => "Millimeters",
            Units::Centimeters => "Centimeters",
            Units::Meters => "Meters",
            Units::Kilometers => "Kilometers",
            Units::Inches => "Inches",
            Units::Feet => "Feet",
            Units::Yards => "Yards",
            Units::Miles => "Miles",
            Units::Langley => "Langley",
            Units::MegaJoulesPerSquareMeter => "MegaJoules/Meter²",
            Units::WattsPerSquareMeter => "Watts",
            Units::Pascals => "Pascals",
            Units::KiloPascals => "KiloPascals",
            Units::Degrees => "Degrees",
            Units::Radians => "Radians",
            Units::MetersPerSecond => "Meters/Second",
            Units::MilesPerHour => "Miles/Hour",
            Units::Acres => "Acres",
            Units::Hectares => "Hectares",
            Units::SquareFeet => "Square Feet",
            Units::SquareMeters => "Square Meters",
            Units::Percent => "Percent",
        }
    }
}

} // verus!
