use weather_units::conversion::{Constant, Step};
use weather_units::date::Date;
use weather_units::fields::{Field, UnitError};
use weather_units::reading::DailyData;
use weather_units::record::Normalized;
use weather_units::station::StationData;
use weather_units::units::Units;

fn constant_value(c: &Constant) -> f64 {
    match c {
        Constant::Decimal { digits, scale } => *digits as f64 / 10f64.powi(*scale as i32),
        Constant::Pi => std::f64::consts::PI,
    }
}

fn canonical(n: &Normalized<f64>) -> f64 {
    let mut x = n.value;
    for step in &n.conversion().steps {
        x = match step {
            Step::Multiply(c) => x * constant_value(c),
            Step::Divide(c) => x / constant_value(c),
            Step::Add(c) => x + constant_value(c),
            Step::Subtract(c) => x - constant_value(c),
        };
    }
    x
}

fn day() -> Date {
    Date::from_ymd_opt(2023, 7, 1).unwrap()
}

fn pair(v: f64, u: &str) -> (f64, String) {
    (v, u.to_string())
}

fn reading(
    rhmin: Option<(f64, String)>,
    rhmax: Option<(f64, String)>,
    wind: Option<(f64, String)>,
) -> Result<DailyData<f64>, UnitError> {
    DailyData::new(day(), pair(10.0, "°C"), pair(20.0, "°C"), rhmin, rhmax, None, None, None, None, wind)
}

#[test]
fn empty_units_are_refused_per_field() {
    let fields = [
        Field::RelativeHumidityMin,
        Field::RelativeHumidityMax,
        Field::Dewpoint,
        Field::Precipitation,
        Field::SolarRadiation,
        Field::VaporPressure,
        Field::WindSpeed,
    ];
    for (k, field) in fields.iter().enumerate() {
        let mut opts: Vec<Option<(f64, String)>> = vec![None; 7];
        opts[k] = Some(pair(1.0, ""));
        let r = DailyData::new(
            day(),
            pair(10.0, "C"),
            pair(20.0, "C"),
            opts[0].clone(),
            opts[1].clone(),
            opts[2].clone(),
            opts[3].clone(),
            opts[4].clone(),
            opts[5].clone(),
            opts[6].clone(),
        );
        match r {
            Err(e) => {
                assert_eq!(e.field(), *field);
                assert!(matches!(e, UnitError::EmptyUnits(_)));
            },
            Ok(_) => panic!("empty units accepted for {:?}", field),
        }
    }
    let e = reading(Some(pair(40.0, "")), None, None).err().unwrap();
    assert_eq!(
        e.message(),
        "Relative humidity min units must not be empty when including a value"
    );
    let e = reading(None, None, Some(pair(3.0, ""))).err().unwrap();
    assert_eq!(e.message(), "Wind speed units must not be empty when including a value");
}

#[test]
fn first_empty_field_is_reported() {
    let e = DailyData::new(
        day(), pair(1.0, "C"), pair(2.0, "C"), None, None,
        Some(pair(1.0, "")), None, None, None, Some(pair(1.0, "")),
    )
    .err()
    .unwrap();
    assert_eq!(e.field(), Field::Dewpoint);
}

#[test]
fn unrecognized_units_pass_construction() {
    let d = reading(Some(pair(40.0, "bogus")), None, Some(pair(3.0, "knots"))).unwrap();
    assert_eq!(d.rhmin.as_ref().unwrap().units, "bogus");
    assert_eq!(d.wind_speed.as_ref().unwrap().value, 3.0);
    assert!(d.rhmax.is_none());
    // Normalisation then refuses them.
    let e = d.to_output(40.0, 1200.0, Some(3.0)).err().unwrap();
    assert_eq!(e.field(), Field::RelativeHumidityMin);
    assert_eq!(e.message(), "Relative humidity min units not recognized: bogus");
}

#[test]
fn relative_humidity_must_be_percent() {
    let d = reading(Some(pair(45.0, "%")), Some(pair(80.0, "percent")), None).unwrap();
    let c = d.to_output(40.0, 1200.0, None).unwrap();
    let rhmin = c.rhmin.unwrap();
    assert_eq!(rhmin.from, Units::Percent);
    assert_eq!(rhmin.to, Units::Percent);
    assert!(rhmin.conversion().steps.is_empty());
    assert_eq!(canonical(&rhmin), 45.0);
    assert_eq!(canonical(&c.rhmax.unwrap()), 80.0);

    let d = reading(None, Some(pair(80.0, "C")), None).unwrap();
    match d.to_output(40.0, 1200.0, None) {
        Err(UnitError::Unrecognized(f, s)) => {
            assert_eq!(f, Field::RelativeHumidityMax);
            assert_eq!(s, "C");
        },
        _ => panic!("relative humidity in Celsius accepted"),
    }
}

#[test]
fn temperatures_normalise_to_celsius() {
    let d = DailyData::new(
        day(), pair(50.0, "F"), pair(86.0, "degF"), None, None,
        Some(pair(32.0, "°F")), None, None, None, None,
    )
    .unwrap();
    let c = d.to_output(0.0, 0.0, None).unwrap();
    assert_eq!(canonical(&c.tmin), 10.0);
    assert_eq!(canonical(&c.tmax), 30.0);
    assert_eq!(canonical(&c.dewpoint.unwrap()), 0.0);

    let d = DailyData::new(day(), pair(10.0, "m"), pair(20.0, "C"), None, None, None, None, None, None, None)
        .unwrap();
    let e = d.to_output(0.0, 0.0, None).err().unwrap();
    assert_eq!(e.field(), Field::TemperatureMin);
    assert_eq!(e.message(), "Temperature min units not recognized: m");
}

#[test]
fn other_fields_normalise() {
    let d = DailyData::new(
        day(), pair(10.0, "C"), pair(20.0, "C"), None, None, None,
        Some(pair(3.0, "mm")), Some(pair(1000.0, "L")), Some(pair(1500.0, "Pa")), Some(pair(86.4, "km")),
    )
    .unwrap();
    let c = d.to_output(0.0, 0.0, None).unwrap();
    assert_eq!(canonical(&c.rs.unwrap()), 41.84);
    assert_eq!(canonical(&c.ea.unwrap()), 1.5);
    assert!((canonical(&c.ws.unwrap()) - 1.0).abs() < 1e-12);

    let d = DailyData::new(
        day(), pair(10.0, "C"), pair(20.0, "C"), None, None, None,
        None, Some(pair(20.0, "MJ/m²")), Some(pair(2.0, "kPa")), Some(pair(4.0, "m/s")),
    )
    .unwrap();
    let c = d.to_output(0.0, 0.0, None).unwrap();
    assert_eq!(canonical(&c.rs.unwrap()), 20.0);
    assert_eq!(canonical(&c.ea.unwrap()), 2.0);
    assert_eq!(canonical(&c.ws.unwrap()), 4.0);

    for (text, field) in [("mph", Field::VaporPressure), ("kPa", Field::SolarRadiation)] {
        let (ea, rs) = if field == Field::VaporPressure {
            (Some(pair(1.0, text)), None)
        } else {
            (None, Some(pair(1.0, text)))
        };
        let d = DailyData::new(day(), pair(1.0, "C"), pair(2.0, "C"), None, None, None, None, rs, ea, None)
            .unwrap();
        assert_eq!(d.to_output(0.0, 0.0, None).err().unwrap().field(), field);
    }
    let d = reading(None, None, Some(pair(1.0, "ft"))).unwrap();
    assert_eq!(d.to_output(0.0, 0.0, None).err().unwrap().field(), Field::WindSpeed);
}

#[test]
fn latitude_is_held_in_radians() {
    let d = reading(None, None, None).unwrap();
    let mut c = d.to_output(10.0, 0.0, None).unwrap();
    c.set_latitude(45.0);
    assert_eq!(c.latitude.from, Units::Degrees);
    assert_eq!(c.latitude.to, Units::Radians);
    assert!((canonical(&c.latitude) - std::f64::consts::PI / 4.0).abs() < 1e-9);
    assert_eq!(canonical(&c.tmin), 10.0);
}

#[test]
fn station_end_to_end() {
    let mut station = StationData::new(
        "Station".to_string(), "test".to_string(), 40.0, -105.0, 1200.0, 3.0, Some(7),
    );
    let reading = DailyData::new(
        day(), pair(10.0, "°C"), pair(20.0, "°C"), None, None, None, None, None, None,
        Some(pair(5.0, "mph")),
    )
    .unwrap();
    station.add_daily_records(vec![reading]);
    let out = station.to_output().unwrap();
    assert_eq!(out.len(), 1);
    let c = &out[0];
    assert_eq!(canonical(&c.tmin), 10.0);
    assert_eq!(canonical(&c.tmax), 20.0);
    assert!((canonical(c.ws.as_ref().unwrap()) - 2.2352).abs() < 1e-4);
    assert_eq!(c.z, 1200.0);
    assert!((canonical(&c.latitude) - 0.6981).abs() < 1e-4);
    assert_eq!(c.wz, Some(3.0));
    assert_eq!(c.date, day());
    assert!(c.rhmin.is_none());
}

#[test]
fn station_appends_and_fails_fast() {
    let mut station = StationData::new("S".to_string(), "src".to_string(), 0.0, 0.0, 10.0, 2.0, None);
    assert!(station.to_output().unwrap().is_empty());
    let ok = station.add_daily_data(
        day(), pair(1.0, "C"), pair(2.0, "C"), pair(30.0, "%"), pair(60.0, "%"), pair(0.5, "C"),
        pair(0.0, "mm"), pair(10.0, "MJ/m²"), pair(1.0, "kPa"), pair(2.0, "m/s"),
    );
    assert!(ok.is_ok());
    let refused = station.add_daily_data(
        day(), pair(1.0, "C"), pair(2.0, "C"), pair(30.0, "%"), pair(60.0, "%"), pair(0.5, "C"),
        pair(0.0, "mm"), pair(10.0, ""), pair(1.0, "kPa"), pair(2.0, "m/s"),
    );
    assert_eq!(refused.err().unwrap().field(), Field::SolarRadiation);
    assert_eq!(station.daily_data.len(), 1);
    let ok = station.add_daily_data(
        day(), pair(1.0, "C"), pair(2.0, "C"), pair(30.0, "W/m²"), pair(60.0, "%"), pair(0.5, "C"),
        pair(0.0, "mm"), pair(10.0, "MJ/m²"), pair(1.0, "kPa"), pair(2.0, "m/s"),
    );
    assert!(ok.is_ok());
    assert_eq!(station.daily_data.len(), 2);
    let failure = station.to_output().err().unwrap();
    assert_eq!(failure.date, day());
    let e = failure.error;
    assert_eq!(e.field(), Field::RelativeHumidityMin);
    assert_eq!(e.message(), "Relative humidity min units not recognized: W/m²");
    assert_eq!(station.name, "S");
    assert_eq!(station.id, None);
}
