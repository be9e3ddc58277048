//! Stations: site metadata and the ordered readings taken there.
use vstd::prelude::*;

use crate::date::Date;
use crate::fields::{UnitError, UnitErrorView};
use crate::reading::{first_empty_units, normalized_reading, reading_of, DailyData};
use crate::record::CanonicalRecord;

verus! {

/// One observation site and its readings, oldest first. Latitude and
/// longitude are in degrees; elevation and wind-sensor height in meters.
pub struct StationData<V> {
    pub name: String,
    pub source: String,
    pub latitude: V,
    pub longitude: V,
    pub elevation: V,
    pub wind_height: V,
    pub daily_data: Vec<DailyData<V>>,
    pub id: Option<i32>,
}

/// The first reading of a station that could not be normalised: its date,
/// and what was wrong with it.
#[derive(Debug)]
pub struct StationError {
    pub date: Date,
    pub error: UnitError,
}

/// Two stations hold the same metadata.
pub open spec fn same_metadata<V>(a: StationData<V>, b: StationData<V>) -> bool {
    &&& a.name == b.name
    &&& a.source == b.source
    &&& a.latitude == b.latitude
    &&& a.longitude == b.longitude
    &&& a.elevation == b.elevation
    &&& a.wind_height == b.wind_height
    &&& a.id == b.id
}

/// What normalising the `i`-th reading of a station gives.
pub open spec fn station_outcome<V>(s: StationData<V>, i: int) -> Result<
    CanonicalRecord<V>,
    UnitErrorView,
> {
    normalized_reading(s.daily_data@[i], s.latitude, s.elevation, Some(s.wind_height))
}

impl<V> StationData<V> {
    /// A station with the given metadata and no readings yet.
    pub fn new(
        name: String,
        source: String,
        latitude: V,
        longitude: V,
        elevation: V,
        wind_height: V,
        id: Option<i32>,
    ) -> (r: StationData<V>)
        ensures
            r.name == name,
            r.source == source,
            r.latitude == latitude,
            r.longitude == longitude,
            r.elevation == elevation,
            r.wind_height == wind_height,
            r.id == id,
            r.daily_data@.len() == 0,
    {
        StationData {
            name,
            source,
            latitude,
            longitude,
            elevation,
            wind_height,
            daily_data: Vec::new(),
            id,
        }
    }

    /// Builds a reading from nine values with their unit strings and appends
    /// it. A value with an empty unit string is refused, and the station is
    /// then left as it was.
    pub fn add_daily_data(
        &mut self,
        date: Date,
        tmin: (V, String),
        tmax: (V, String),
        rhmin: (V, String),
        rhmax: (V, String),
        dewpoint: (V, String),
        precip: (V, String),
        radiation_solar: (V, String),
        ea: (V, String),
        wind_speed: (V, String),
    ) -> (r: Result<(), UnitError>)
        requires
            date.wf(),
        ensures
            same_metadata(*final(self), *old(self)),
            first_empty_units(
                Some(rhmin),
                Some(rhmax),
                Some(dewpoint),
                Some(precip),
                Some(radiation_solar),
                Some(ea),
                Some(wind_speed),
            ) matches Some(f) ==> r is Err && r->Err_0@ == UnitErrorView::EmptyUnits(f)
                && final(self).daily_data@ == old(self).daily_data@,
            first_empty_units(
                Some(rhmin),
                Some(rhmax),
                Some(dewpoint),
                Some(precip),
                Some(radiation_solar),
                Some(ea),
                Some(wind_speed),
            ) is None ==> r is Ok && final(self).daily_data@ == old(self).daily_data@.push(
                reading_of(
                    date,
                    tmin,
                    tmax,
                    Some(rhmin),
                    Some(rhmax),
                    Some(dewpoint),
                    Some(precip),
                    Some(radiation_solar),
                    Some(ea),
                    Some(wind_speed),
                ),
            ),
    {
        let reading = DailyData::new(
            date,
            tmin,
            tmax,
            Some(rhmin),
            Some(rhmax),
            Some(dewpoint),
            Some(precip),
            Some(radiation_solar),
            Some(ea),
            Some(wind_speed),
        );
        match reading {
            Ok(d) => {
                self.daily_data.push(d);
                Ok(())
            },
            Err(e) => Err(e),
        }
    }

    /// Replaces all readings with `records`, which are taken as they are.
    pub fn add_daily_records(&mut self, records: Vec<DailyData<V>>)
        ensures
            same_metadata(*final(self), *old(self)),
            final(self).daily_data@ == records@,
    {
        self.daily_data = records;
    }
}

impl<V: Copy> StationData<V> {
    /// Normalises every reading, in order, attaching the station's latitude,
    /// elevation and wind-sensor height. The first reading that fails stops
    /// the whole batch, and its date and error are returned.
    pub fn to_output(&self) -> (r: Result<Vec<CanonicalRecord<V>>, StationError>)
        ensures
            r is Ok <==> forall|i: int|
                0 <= i < self.daily_data@.len() ==> #[trigger] station_outcome(*self, i) is Ok,
            r matches Ok(v) ==> v@.len() == self.daily_data@.len() && forall|i: int|
                0 <= i < v@.len() ==> v@[i] == (#[trigger] station_outcome(*self, i))->Ok_0
                    && v@[i].wf(),
            r matches Err(e) ==> exists|k: int|
                0 <= k < self.daily_data@.len() && (forall|i: int|
                    0 <= i < k ==> #[trigger] station_outcome(*self, i) is Ok) && station_outcome(
                    *self,
                    k,
                ) == Err::<CanonicalRecord<V>, UnitErrorView>(e.error@) && e.date
                    == self.daily_data@[k].date,
    {
        let mut result: Vec<CanonicalRecord<V>> = Vec::new();
        let n = self.daily_data.len();
        let mut i: usize = 0;
        while i < n
            invariant
                n == self.daily_data@.len(),
                i <= n,
                result@.len() == i,
                forall|j: int| 0 <= j < i ==> #[trigger] station_outcome(*self, j) is Ok,
                forall|j: int|
                    0 <= j < i ==> result@[j] == (#[trigger] station_outcome(*self, j))->Ok_0
                        && result@[j].wf(),
            decreases n - i,
        {
            match self.daily_data[i].to_output(self.latitude, self.elevation, Some(self.wind_height)) {
                Ok(c) => {
                    result.push(c);
                },
                Err(e) => {
                    assert(station_outcome(*self, i as int) == Err::<CanonicalRecord<V>, UnitErrorView>(e@));
                    return Err(StationError { date: self.daily_data[i].date, error: e });
                },
            }
            i = i + 1;
        }
        Ok(result)
    }
}

} // verus!
