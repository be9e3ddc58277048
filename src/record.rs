//! Canonical records: one normalised station-day.
use vstd::prelude::*;

use crate::conversion::{conversion_table, Conversion};
use crate::date::Date;
use crate::units::Units;

verus! {

/// A value as it was recorded, in unit `from`, together with the unit `to`
/// in which the record holds it: its canonical value is `value` expressed in
/// `to`, by the formula that [`Normalized::conversion`] gives.
#[derive(Clone, Copy, Debug)]
pub struct Normalized<V> {
    pub value: V,
    pub from: Units,
    pub to: Units,
}

impl<V> Normalized<V> {
    /// The value needs no conversion, or the table converts it directly.
    pub open spec fn wf(&self) -> bool {
        self.from == self.to || conversion_table(self.from, self.to) is Some
    }

    /// The formula that turns `value` into its canonical value: no steps when
    /// the value is already in its canonical unit.
    pub fn conversion(&self) -> (r: Conversion)
        requires
            self.wf(),
        ensures
            r@ == if self.from == self.to {
                Seq::<crate::conversion::Step>::empty()
            } else {
                conversion_table(self.from, self.to)->0
            },
    {
        if self.from == self.to {
            let r = Conversion { steps: Vec::new() };
            assert(r@ =~= Seq::<crate::conversion::Step>::empty());
            r
        } else {
            match self.from.conversion(&self.to) {
                Ok(c) => c,
                Err(_) => {
                    proof {
                        assert(false);
                    }
                    Conversion { steps: Vec::new() }
                },
            }
        }
    }
}

/// A latitude given in degrees, held in radians.
pub open spec fn latitude_in_radians<V>(degrees: V) -> Normalized<V> {
    Normalized { value: degrees, from: Units::Degrees, to: Units::Radians }
}

/// One normalised station-day: temperatures and dewpoint in Celsius, relative
/// humidity in percent, vapor pressure in kilopascals, solar radiation in
/// megajoules per square meter, wind speed in meters per second, latitude in
/// radians, elevation in meters, and the height of the wind sensor in meters
/// when it is known.
#[derive(Clone, Copy, Debug)]
pub struct CanonicalRecord<V> {
    pub date: Date,
    pub tmin: Normalized<V>,
    pub tmax: Normalized<V>,
    pub rhmin: Option<Normalized<V>>,
    pub rhmax: Option<Normalized<V>>,
    pub dewpoint: Option<Normalized<V>>,
    pub ea: Option<Normalized<V>>,
    pub rs: Option<Normalized<V>>,
    pub ws: Option<Normalized<V>>,
    pub wz: Option<V>,
    pub z: V,
    pub latitude: Normalized<V>,
}

impl<V> CanonicalRecord<V> {
    /// Every value of the record can be brought into its canonical unit.
    pub open spec fn wf(&self) -> bool {
        &&& self.tmin.wf()
        &&& self.tmax.wf()
        &&& (self.rhmin matches Some(n) ==> n.wf())
        &&& (self.rhmax matches Some(n) ==> n.wf())
        &&& (self.dewpoint matches Some(n) ==> n.wf())
        &&& (self.ea matches Some(n) ==> n.wf())
        &&& (self.rs matches Some(n) ==> n.wf())
        &&& (self.ws matches Some(n) ==> n.wf())
        &&& self.latitude.wf()
    }

    /// Sets the latitude from a value in degrees; the record holds it in
    /// radians.
    pub fn set_latitude(&mut self, latitude: V)
        ensures
            final(self).latitude == latitude_in_radians(latitude),
            final(self).date == old(self).date,
            final(self).tmin == old(self).tmin,
            final(self).tmax == old(self).tmax,
            final(self).rhmin == old(self).rhmin,
            final(self).rhmax == old(self).rhmax,
            final(self).dewpoint == old(self).dewpoint,
            final(self).ea == old(self).ea,
            final(self).rs == old(self).rs,
            final(self).ws == old(self).ws,
            final(self).wz == old(self).wz,
            final(self).z == old(self).z,
    {
        self.latitude = Normalized { value: latitude, from: Units::Degrees, to: Units::Radians };
    }
}

} // verus!
