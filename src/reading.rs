//! Daily readings: one station-day of raw values, each with the unit it was
//! recorded in, and their normalisation into canonical records.
use vstd::prelude::*;

use crate::date::Date;
use crate::fields::{
    accepts, canonical_unit, lemma_accepted_units_convert, Field, Quantity, UnitError,
    UnitErrorView,
};
use crate::record::{latitude_in_radians, CanonicalRecord, Normalized};
use crate::units::{unit_for, Units};

verus! {

/// A value and the abbreviation of the unit it was recorded in.
#[derive(Debug)]
pub struct Measurement<V> {
    pub value: V,
    pub units: String,
}

pub open spec fn measurement_of<V>(p: (V, String)) -> Measurement<V> {
    Measurement { value: p.0, units: p.1 }
}

pub open spec fn optional_of<V>(p: Option<(V, String)>) -> Option<Measurement<V>> {
    match p {
        Some(q) => Some(measurement_of(q)),
        None => None,
    }
}

/// A value is given, and its unit string is empty.
pub open spec fn has_empty_units<V>(p: Option<(V, String)>) -> bool {
    p matches Some(q) && q.1@.len() == 0
}

/// The first of the optional fields, in the order in which a reading takes
/// them, that holds a value with an empty unit string.
pub open spec fn first_empty_units<V>(
    rhmin: Option<(V, String)>,
    rhmax: Option<(V, String)>,
    dewpoint: Option<(V, String)>,
    precip: Option<(V, String)>,
    rs: Option<(V, String)>,
    ea: Option<(V, String)>,
    wind_speed: Option<(V, String)>,
) -> Option<Field> {
    if has_empty_units(rhmin) {
        Some(Field::RelativeHumidityMin)
    } else if has_empty_units(rhmax) {
        Some(Field::RelativeHumidityMax)
    } else if has_empty_units(dewpoint) {
        Some(Field::Dewpoint)
    } else if has_empty_units(precip) {
        Some(Field::Precipitation)
    } else if has_empty_units(rs) {
        Some(Field::SolarRadiation)
    } else if has_empty_units(ea) {
        Some(Field::VaporPressure)
    } else if has_empty_units(wind_speed) {
        Some(Field::WindSpeed)
    } else {
        None
    }
}

/// The reading that holds exactly the given values and units.
pub open spec fn reading_of<V>(
    date: Date,
    tmin: (V, String),
    tmax: (V, String),
    rhmin: Option<(V, String)>,
    rhmax: Option<(V, String)>,
    dewpoint: Option<(V, String)>,
    precip: Option<(V, String)>,
    rs: Option<(V, String)>,
    ea: Option<(V, String)>,
    wind_speed: Option<(V, String)>,
) -> DailyData<V> {
    DailyData {
        date,
        tmin: measurement_of(tmin),
        tmax: measurement_of(tmax),
        rhmin: optional_of(rhmin),
        rhmax: optional_of(rhmax),
        dewpoint: optional_of(dewpoint),
        precip: optional_of(precip),
        rs: optional_of(rs),
        ea: optional_of(ea),
        wind_speed: optional_of(wind_speed),
    }
}

/// What normalising one recorded value gives: the value with its unit and
/// canonical unit when the unit string names a unit that the quantity
/// accepts, and otherwise an error that names the field and the string.
pub open spec fn field_outcome<V>(field: Field, q: Quantity, m: Measurement<V>) -> Result<
    Normalized<V>,
    UnitErrorView,
> {
    let u = unit_for(m.units@);
    if u is Some && accepts(q, u->0) {
        Ok(Normalized { value: m.value, from: u->0, to: canonical_unit(q) })
    } else {
        Err(UnitErrorView::Unrecognized(field, m.units@))
    }
}

pub open spec fn optional_outcome<V>(
    field: Field,
    q: Quantity,
    m: Option<Measurement<V>>,
) -> Result<Option<Normalized<V>>, UnitErrorView> {
    match m {
        None => Ok(None),
        Some(m) => match field_outcome(field, q, m) {
            Ok(n) => Ok(Some(n)),
            Err(e) => Err(e),
        },
    }
}

/// An executable result and a specified one say the same thing.
pub open spec fn agrees<T>(r: Result<T, UnitError>, s: Result<T, UnitErrorView>) -> bool {
    match r {
        Ok(v) => s is Ok && s->Ok_0 == v,
        Err(e) => s is Err && s->Err_0 == e@,
    }
}

/// The canonical record of a reading, with the station's latitude in
/// degrees, elevation and wind-sensor height; or the error of the first field,
/// in the order tmin, tmax, dewpoint, rhmin, rhmax, ea, rs, wind speed, whose
/// unit the field does not accept.
pub open spec fn normalized_reading<V>(
    d: DailyData<V>,
    latitude: V,
    elevation: V,
    wind_height: Option<V>,
) -> Result<CanonicalRecord<V>, UnitErrorView> {
    let tmin = field_outcome(Field::TemperatureMin, Quantity::Temperature, d.tmin);
    let tmax = field_outcome(Field::TemperatureMax, Quantity::Temperature, d.tmax);
    let dewpoint = optional_outcome(Field::Dewpoint, Quantity::Temperature, d.dewpoint);
    let rhmin = optional_outcome(Field::RelativeHumidityMin, Quantity::RelativeHumidity, d.rhmin);
    let rhmax = optional_outcome(Field::RelativeHumidityMax, Quantity::RelativeHumidity, d.rhmax);
    let ea = optional_outcome(Field::VaporPressure, Quantity::VaporPressure, d.ea);
    let rs = optional_outcome(Field::SolarRadiation, Quantity::SolarRadiation, d.rs);
    let ws = optional_outcome(Field::WindSpeed, Quantity::WindSpeed, d.wind_speed);
    if tmin is Err {
        Err(tmin->Err_0)
    } else if tmax is Err {
        Err(tmax->Err_0)
    } else if dewpoint is Err {
        Err(dewpoint->Err_0)
    } else if rhmin is Err {
        Err(rhmin->Err_0)
    } else if rhmax is Err {
        Err(rhmax->Err_0)
    } else if ea is Err {
        Err(ea->Err_0)
    } else if rs is Err {
        Err(rs->Err_0)
    } else if ws is Err {
        Err(ws->Err_0)
    } else {
        Ok(
            CanonicalRecord {
                date: d.date,
                tmin: tmin->Ok_0,
                tmax: tmax->Ok_0,
                rhmin: rhmin->Ok_0,
                rhmax: rhmax->Ok_0,
                dewpoint: dewpoint->Ok_0,
                ea: ea->Ok_0,
                rs: rs->Ok_0,
                ws: ws->Ok_0,
                wz: wind_height,
                z: elevation,
                latitude: latitude_in_radians(latitude),
            },
        )
    }
}

fn take_optional<V>(field: Field, p: Option<(V, String)>) -> (r: Result<
    Option<Measurement<V>>,
    UnitError,
>)
    ensures
        has_empty_units(p) ==> r is Err && r->Err_0@ == UnitErrorView::EmptyUnits(field),
        !has_empty_units(p) ==> r == Ok::<Option<Measurement<V>>, UnitError>(optional_of(p)),
{
    match p {
        None => Ok(None),
        Some((value, units)) => {
            if units.as_str().is_empty() {
                Err(UnitError::EmptyUnits(field))
            } else {
                Ok(Some(Measurement { value, units }))
            }
        },
    }
}

fn normalize_field<V: Copy>(field: Field, q: Quantity, m: &Measurement<V>) -> (r: Result<
    Normalized<V>,
    UnitError,
>)
    ensures
        agrees(r, field_outcome(field, q, *m)),
        r matches Ok(n) ==> n.wf(),
{
    match Units::from_abbreviation(m.units.as_str()) {
        Ok(unit) => {
            if q.accepts(unit) {
                proof {
                    lemma_accepted_units_convert(q, unit);
                }
                Ok(Normalized { value: m.value, from: unit, to: q.canonical_unit() })
            } else {
                Err(UnitError::Unrecognized(field, m.units.clone()))
            }
        },
        Err(_) => Err(UnitError::Unrecognized(field, m.units.clone())),
    }
}

fn normalize_optional<V: Copy>(field: Field, q: Quantity, m: &Option<Measurement<V>>) -> (r: Result<
    Option<Normalized<V>>,
    UnitError,
>)
    ensures
        agrees(r, optional_outcome(field, q, *m)),
        r matches Ok(Some(n)) ==> n.wf(),
{
    match m {
        None => Ok(None),
        Some(m) => match normalize_field(field, q, m) {
            Ok(n) => Ok(Some(n)),
            Err(e) => Err(e),
        },
    }
}

/// One station-day of raw values, on a day that exists. Temperatures are always present; every
/// other value is optional and, when present, carries a unit string that is
/// not empty.
#[derive(Debug)]
pub struct DailyData<V> {
    pub date: Date,
    pub tmin: Measurement<V>,
    pub tmax: Measurement<V>,
    pub rhmin: Option<Measurement<V>>,
    pub rhmax: Option<Measurement<V>>,
    pub dewpoint: Option<Measurement<V>>,
    pub precip: Option<Measurement<V>>,
    pub rs: Option<Measurement<V>>,
    pub ea: Option<Measurement<V>>,
    pub wind_speed: Option<Measurement<V>>,
}

pub open spec fn units_given<V>(m: Option<Measurement<V>>) -> bool {
    m matches Some(m) ==> m.units@.len() > 0
}

impl<V> DailyData<V> {
    pub open spec fn wf(&self) -> bool {
        &&& self.date.wf()
        &&& units_given(self.rhmin)
        &&& units_given(self.rhmax)
        &&& units_given(self.dewpoint)
        &&& units_given(self.precip)
        &&& units_given(self.rs)
        &&& units_given(self.ea)
        &&& units_given(self.wind_speed)
    }

    /// Builds a reading from its values and unit strings. A value given with
    /// an empty unit string is refused, for the first such field; whether a
    /// unit string names a known unit is left to normalisation.
    pub fn new(
        date: Date,
        tmin: (V, String),
        tmax: (V, String),
        rhmin: Option<(V, String)>,
        rhmax: Option<(V, String)>,
        dewpoint: Option<(V, String)>,
        precip: Option<(V, String)>,
        rs: Option<(V, String)>,
        ea: Option<(V, String)>,
        wind_speed: Option<(V, String)>,
    ) -> (r: Result<DailyData<V>, UnitError>)
        requires
            date.wf(),
        ensures
            first_empty_units(rhmin, rhmax, dewpoint, precip, rs, ea, wind_speed) matches Some(f)
                ==> r is Err && r->Err_0@ == UnitErrorView::EmptyUnits(f),
            first_empty_units(rhmin, rhmax, dewpoint, precip, rs, ea, wind_speed) is None ==> r
                is Ok && r->Ok_0 == reading_of(
                date,
                tmin,
                tmax,
                rhmin,
                rhmax,
                dewpoint,
                precip,
                rs,
                ea,
                wind_speed,
            ),
            r matches Ok(d) ==> d.wf(),
    {
        let rhmin = match take_optional(Field::RelativeHumidityMin, rhmin) {
            Ok(m) => m,
            Err(e) => return Err(e),
        };
        let rhmax = match take_optional(Field::RelativeHumidityMax, rhmax) {
            Ok(m) => m,
            Err(e) => return Err(e),
        };
        let dewpoint = match take_optional(Field::Dewpoint, dewpoint) {
            Ok(m) => m,
            Err(e) => return Err(e),
        };
        let precip = match take_optional(Field::Precipitation, precip) {
            Ok(m) => m,
            Err(e) => return Err(e),
        };
        let rs = match take_optional(Field::SolarRadiation, rs) {
            Ok(m) => m,
            Err(e) => return Err(e),
        };
        let ea = match take_optional(Field::VaporPressure, ea) {
            Ok(m) => m,
            Err(e) => return Err(e),
        };
        let wind_speed = match take_optional(Field::WindSpeed, wind_speed) {
            Ok(m) => m,
            Err(e) => return Err(e),
        };
        Ok(
            DailyData {
                date,
                tmin: Measurement { value: tmin.0, units: tmin.1 },
                tmax: Measurement { value: tmax.0, units: tmax.1 },
                rhmin,
                rhmax,
                dewpoint,
                precip,
                rs,
                ea,
                wind_speed,
            },
        )
    }
}

impl<V: Copy> DailyData<V> {
    /// Normalises this reading into a canonical record, attaching the
    /// station's latitude (in degrees), elevation and wind-sensor height.
    pub fn to_output(&self, latitude: V, elevation: V, wind_height: Option<V>) -> (r: Result<
        CanonicalRecord<V>,
        UnitError,
    >)
        ensures
            agrees(r, normalized_reading(*self, latitude, elevation, wind_height)),
            r matches Ok(c) ==> c.wf(),
    {
        let tmin = match normalize_field(Field::TemperatureMin, Quantity::Temperature, &self.tmin) {
            Ok(n) => n,
            Err(e) => return Err(e),
        };
        let tmax = match normalize_field(Field::TemperatureMax, Quantity::Temperature, &self.tmax) {
            Ok(n) => n,
            Err(e) => return Err(e),
        };
        let dewpoint = match normalize_optional(
            Field::Dewpoint,
            Quantity::Temperature,
            &self.dewpoint,
        ) {
            Ok(n) => n,
            Err(e) => return Err(e),
        };
        let rhmin = match normalize_optional(
            Field::RelativeHumidityMin,
            Quantity::RelativeHumidity,
            &self.rhmin,
        ) {
            Ok(n) => n,
            Err(e) => return Err(e),
        };
        let rhmax = match normalize_optional(
            Field::RelativeHumidityMax,
            Quantity::RelativeHumidity,
            &self.rhmax,
        ) {
            Ok(n) => n,
            Err(e) => return Err(e),
        };
        let ea = match normalize_optional(Field::VaporPressure, Quantity::VaporPressure, &self.ea) {
            Ok(n) => n,
            Err(e) => return Err(e),
        };
        let rs = match normalize_optional(Field::SolarRadiation, Quantity::SolarRadiation, &self.rs) {
            Ok(n) => n,
            Err(e) => return Err(e),
        };
        let ws = match normalize_optional(Field::WindSpeed, Quantity::WindSpeed, &self.wind_speed) {
            Ok(n) => n,
            Err(e) => return Err(e),
        };
        Ok(
            CanonicalRecord {
                date: self.date,
                tmin,
                tmax,
                rhmin,
                rhmax,
                dewpoint,
                ea,
                rs,
                ws,
                wz: wind_height,
                z: elevation,
                latitude: Normalized { value: latitude, from: Units::Degrees, to: Units::Radians },
            },
        )
    }
}

/// Relative humidity is accepted in percent only: a reading whose minimum or
/// maximum relative humidity is recorded in any other unit, or in text that
/// names no unit, does not normalise; one recorded in percent keeps its value
/// and needs no conversion.
pub proof fn lemma_relative_humidity_in_percent<V>(
    d: DailyData<V>,
    latitude: V,
    elevation: V,
    wind_height: Option<V>,
)
    ensures
        d.rhmin matches Some(m) && unit_for(m.units@) != Some(Units::Percent) ==> normalized_reading(
            d,
            latitude,
            elevation,
            wind_height,
        ) is Err,
        d.rhmax matches Some(m) && unit_for(m.units@) != Some(Units::Percent) ==> normalized_reading(
            d,
            latitude,
            elevation,
            wind_height,
        ) is Err,
        normalized_reading(d, latitude, elevation, wind_height) matches Ok(c) ==> (d.rhmin matches Some(
            m,
        ) ==> c.rhmin == Some(
            Normalized { value: m.value, from: Units::Percent, to: Units::Percent },
        )) && (d.rhmax matches Some(m) ==> c.rhmax == Some(
            Normalized { value: m.value, from: Units::Percent, to: Units::Percent },
        )),
{
}

} // verus!
