//! The fields of a daily reading, the units each accepts, and the errors a
//! reading can raise.
use vstd::prelude::*;

use crate::conversion::conversion_table;
use crate::text::joined;
use crate::units::Units;

verus! {

/// A field of a daily reading.
#[derive(Clone, Copy, Debug, PartialEq, Eq, Structural)]
pub enum Field {
    TemperatureMin,
    TemperatureMax,
    RelativeHumidityMin,
    RelativeHumidityMax,
    Dewpoint,
    Precipitation,
    SolarRadiation,
    VaporPressure,
    WindSpeed,
}

/// The physical quantity that a normalised field holds.
#[derive(Clone, Copy, Debug, PartialEq, Eq, Structural)]
pub enum Quantity {
    Temperature,
    RelativeHumidity,
    VaporPressure,
    SolarRadiation,
    WindSpeed,
}

pub open spec fn label_of(field: Field) -> Seq<char> {
    match field {
        Field::TemperatureMin => "Temperature min"@,
        Field::TemperatureMax => "Temperature max"@,
        Field::RelativeHumidityMin => "Relative humidity min"@,
        Field::RelativeHumidityMax => "Relative humidity max"@,
        Field::Dewpoint => "Dewpoint"@,
        Field::Precipitation => "Precipitation"@,
        Field::SolarRadiation => "Solar radiation"@,
        Field::VaporPressure => "Vapor pressure"@,
        Field::WindSpeed => "Wind speed"@,
    }
}

/// The quantity of a field that normalisation converts; precipitation is
/// carried by a reading but not normalised.
pub open spec fn quantity_of(field: Field) -> Option<Quantity> {
    match field {
        Field::TemperatureMin => Some(Quantity::Temperature),
        Field::TemperatureMax => Some(Quantity::Temperature),
        Field::RelativeHumidityMin => Some(Quantity::RelativeHumidity),
        Field::RelativeHumidityMax => Some(Quantity::RelativeHumidity),
        Field::Dewpoint => Some(Quantity::Temperature),
        Field::Precipitation => None,
        Field::SolarRadiation => Some(Quantity::SolarRadiation),
        Field::VaporPressure => Some(Quantity::VaporPressure),
        Field::WindSpeed => Some(Quantity::WindSpeed),
    }
}

/// The unit in which a canonical record holds a quantity.
pub open spec fn canonical_unit(q: Quantity) -> Units {
    match q {
        Quantity::Temperature => Units::Celsius,
        Quantity::RelativeHumidity => Units::Percent,
        Quantity::VaporPressure => Units::KiloPascals,
        Quantity::SolarRadiation => Units::MegaJoulesPerSquareMeter,
        Quantity::WindSpeed => Units::MetersPerSecond,
    }
}

/// The units in which a reading may record a quantity.
pub open spec fn accepts(q: Quantity, u: Units) -> bool {
    match q {
        Quantity::Temperature => u == Units::Celsius || u == Units::Fahrenheit,
        Quantity::RelativeHumidity => u == Units::Percent,
        Quantity::VaporPressure => u == Units::KiloPascals || u == Units::Pascals,
        Quantity::SolarRadiation => u == Units::MegaJoulesPerSquareMeter || u
            == Units::WattsPerSquareMeter || u == Units::Langley,
        Quantity::WindSpeed => u == Units::MetersPerSecond || u == Units::MilesPerHour || u
            == Units::Miles || u == Units::Meters || u == Units::Kilometers,
    }
}

/// Every accepted unit is the canonical one or converts to it directly.
pub proof fn lemma_accepted_units_convert(q: Quantity, u: Units)
    requires
        accepts(q, u),
    ensures
        u == canonical_unit(q) || conversion_table(u, canonical_unit(q)) is Some,
{
}

impl Field {
    /// How messages name this field.
    pub fn label(&self) -> (r: &'static str)
        ensures
            r@ == label_of(*self),
    {
        match self {
            Field::TemperatureMin => "Temperature min",
            Field::TemperatureMax => "Temperature max",
            Field::RelativeHumidityMin => "Relative humidity min",
            Field::RelativeHumidityMax => "Relative humidity max",
            Field::Dewpoint => "Dewpoint",
            Field::Precipitation => "Precipitation",
            Field::SolarRadiation => "Solar radiation",
            Field::VaporPressure => "Vapor pressure",
            Field::WindSpeed => "Wind speed",
        }
    }
}

impl Quantity {
    /// The unit in which a canonical record holds this quantity.
    pub fn canonical_unit(&self) -> (r: Units)
        ensures
            r == canonical_unit(*self),
    {
        match self {
            Quantity::Temperature => Units::Celsius,
            Quantity::RelativeHumidity => Units::Percent,
            Quantity::VaporPressure => Units::KiloPascals,
            Quantity::SolarRadiation => Units::MegaJoulesPerSquareMeter,
            Quantity::WindSpeed => Units::MetersPerSecond,
        }
    }

    /// Whether a reading may record this quantity in `u`.
    pub fn accepts(&self, u: Units) -> (r: bool)
        ensures
            r == accepts(*self, u),
    {
        match self {
            Quantity::Temperature => u == Units::Celsius || u == Units::Fahrenheit,
            Quantity::RelativeHumidity => u == Units::Percent,
            Quantity::VaporPressure => u == Units::KiloPascals || u == Units::Pascals,
            Quantity::SolarRadiation => u == Units::MegaJoulesPerSquareMeter || u
                == Units::WattsPerSquareMeter || u == Units::Langley,
            Quantity::WindSpeed => u == Units::MetersPerSecond || u == Units::MilesPerHour || u
                == Units::Miles || u == Units::Meters || u == Units::Kilometers,
        }
    }
}

/// Why a reading could not be built or normalised.
#[derive(Debug)]
pub enum UnitError {
    /// A value was given with an empty unit string.
    EmptyUnits(Field),
    /// The unit string is not one that the field accepts: either no unit has
    /// that abbreviation, or the unit is not one for the field's quantity.
    Unrecognized(Field, String),
}

/// What a [`UnitError`] says, with the offending text as characters.
pub ghost enum UnitErrorView {
    EmptyUnits(Field),
    Unrecognized(Field, Seq<char>),
}

impl View for UnitError {
    type V = UnitErrorView;

    open spec fn view(&self) -> UnitErrorView {
        match self {
            UnitError::EmptyUnits(f) => UnitErrorView::EmptyUnits(*f),
            UnitError::Unrecognized(f, s) => UnitErrorView::Unrecognized(*f, s@),
        }
    }
}

pub open spec fn message_of(e: UnitErrorView) -> Seq<char> {
    match e {
        UnitErrorView::EmptyUnits(f) => label_of(f)
            + " units must not be empty when including a value"@,
        UnitErrorView::Unrecognized(f, s) => label_of(f) + " units not recognized: "@ + s,
    }
}

impl UnitError {
    /// The field that the error is about.
    pub fn field(&self) -> (r: Field)
        ensures
            r == match self@ {
                UnitErrorView::EmptyUnits(f) => f,
                UnitErrorView::Unrecognized(f, _) => f,
            },
    {
        match self {
            UnitError::EmptyUnits(f) => *f,
            UnitError::Unrecognized(f, _) => *f,
        }
    }

    /// A sentence that names the field and, where there is one, the
    /// offending unit string.
    pub fn message(&self) -> (r: String)
        ensures
            r@ == message_of(self@),
    {
        match self {
            UnitError::EmptyUnits(f) => joined(
                f.label(),
                " units must not be empty when including a value",
            ),
            UnitError::Unrecognized(f, s) => {
                let head = joined(f.label(), " units not recognized: ");
                joined(head.as_str(), s.as_str())
            },
        }
    }
}

} // verus!
