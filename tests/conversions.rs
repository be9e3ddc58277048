use weather_units::conversion::{Constant, Conversion, Step};
use weather_units::units::Units;

fn constant_value(c: &Constant) -> f64 {
    match c {
        Constant::Decimal { digits, scale } => *digits as f64 / 10f64.powi(*scale as i32),
        Constant::Pi => std::f64::consts::PI,
    }
}

fn apply(conversion: &Conversion, value: f64) -> f64 {
    let mut x = value;
    for step in &conversion.steps {
        x = match step {
            Step::Multiply(c) => x * constant_value(c),
            Step::Divide(c) => x / constant_value(c),
            Step::Add(c) => x + constant_value(c),
            Step::Subtract(c) => x - constant_value(c),
        };
    }
    x
}

fn convert(from: &Units, value: f64, to: &Units) -> Result<f64, String> {
    from.conversion(to).map(|c| apply(&c, value))
}

#[test]
fn conversion_test() {
    let celsius = Units::Celsius;
    let fahrenheit = Units::Fahrenheit;
    let meters = Units::Meters;
    let kilometers = Units::Kilometers;

    assert_eq!(convert(&celsius, 25.0, &fahrenheit), Ok(77.0));
    assert_eq!(convert(&fahrenheit, 77.0, &celsius), Ok(25.0));

    assert_eq!(
        convert(&celsius, 25.0, &meters),
        Err(format!("Unsupported conversion from {} to {}", celsius.name(), meters.name()))
    );
    assert_eq!(convert(&meters, 25000.0, &kilometers), Ok(25.0));

    assert_eq!(convert(&Units::Langley, 1000.0, &Units::MegaJoulesPerSquareMeter), Ok(41.84));
    assert_eq!(convert(&Units::MegaJoulesPerSquareMeter, 41.84, &Units::Langley), Ok(1000.0));
    assert_eq!(convert(&Units::Langley, 0.0, &Units::MegaJoulesPerSquareMeter), Ok(0.0));

    assert_eq!(
        convert(&Units::Degrees, 45.0, &Units::Radians),
        Ok(std::f64::consts::PI / 4.0)
    );
    assert_eq!(
        convert(&Units::Radians, std::f64::consts::PI / 4.0, &Units::Degrees),
        Ok(45.0)
    );

    let mph = (convert(&Units::MetersPerSecond, 10.0, &Units::MilesPerHour).unwrap() * 10000.0)
        .round()
        / 10000.0;
    assert_eq!(mph, 22.3694);

    let mps = (convert(&Units::MilesPerHour, 22.3694, &Units::MetersPerSecond).unwrap() * 10000.0)
        .round()
        / 10000.0;
    assert_eq!(mps, 10.0);
}

#[test]
fn round_trip_on_every_listed_pair() {
    let all = [
        Units::Celsius, Units::Fahrenheit, Units::Millimeters, Units::Centimeters, Units::Meters,
        Units::Kilometers, Units::Inches, Units::Feet, Units::Yards, Units::Miles, Units::Langley,
        Units::MegaJoulesPerSquareMeter, Units::WattsPerSquareMeter, Units::Pascals,
        Units::KiloPascals, Units::Degrees, Units::Radians, Units::MetersPerSecond,
        Units::MilesPerHour, Units::Acres, Units::Hectares, Units::SquareFeet,
        Units::SquareMeters, Units::Percent,
    ];
    let mut pairs = 0;
    for a in &all {
        for b in &all {
            if let (Ok(_), Ok(_)) = (a.conversion(b), b.conversion(a)) {
                let x = 123.456;
                let back = convert(b, convert(a, x, b).unwrap(), a).unwrap();
                assert!((back - x).abs() < 1e-9, "{:?} -> {:?}", a, b);
                pairs += 1;
            }
        }
    }
    assert_eq!(pairs, 30);
    let back = convert(&Units::Fahrenheit, convert(&Units::Celsius, 25.0, &Units::Fahrenheit).unwrap(), &Units::Celsius);
    assert_eq!(back, Ok(25.0));
}

#[test]
fn unlisted_pairs_fail() {
    assert_eq!(
        convert(&Units::Celsius, 1.0, &Units::Meters),
        Err("Unsupported conversion from Celsius to Meters".to_string())
    );
    // Miles to meters goes through kilometers only: no direct entry.
    assert!(Units::Miles.conversion(&Units::Kilometers).is_ok());
    assert!(Units::Kilometers.conversion(&Units::Meters).is_ok());
    assert_eq!(
        convert(&Units::Miles, 1.0, &Units::Meters),
        Err("Unsupported conversion from Miles to Meters".to_string())
    );
    // A unit and itself have no entry either.
    assert!(Units::Celsius.conversion(&Units::Celsius).is_err());
    // Daily totals convert to a speed in one direction only.
    assert!(Units::Miles.conversion(&Units::MetersPerSecond).is_ok());
    assert_eq!(
        convert(&Units::MetersPerSecond, 1.0, &Units::Miles),
        Err("Unsupported conversion from Meters/Second to Miles".to_string())
    );
}

#[test]
fn formulas_are_exact() {
    let c = Units::Celsius.conversion(&Units::Fahrenheit).unwrap();
    assert_eq!(
        c.steps,
        vec![
            Step::Multiply(Constant::Decimal { digits: 9, scale: 0 }),
            Step::Divide(Constant::Decimal { digits: 5, scale: 0 }),
            Step::Add(Constant::Decimal { digits: 32, scale: 0 }),
        ]
    );
    let d = Units::Degrees.conversion(&Units::Radians).unwrap();
    assert_eq!(
        d.steps,
        vec![Step::Multiply(Constant::Pi), Step::Divide(Constant::Decimal { digits: 180, scale: 0 })]
    );
    assert_eq!(convert(&Units::Yards, 100.0, &Units::Meters), Ok(100.0 * 0.9144));
    assert_eq!(convert(&Units::Miles, 10.0, &Units::Kilometers), Ok(10.0 * 1.60934));
    assert_eq!(convert(&Units::WattsPerSquareMeter, 7200000.0, &Units::MegaJoulesPerSquareMeter), Ok(2.0));
    assert_eq!(convert(&Units::Pascals, 2500.0, &Units::KiloPascals), Ok(2.5));
    assert_eq!(convert(&Units::Miles, 100.0, &Units::MetersPerSecond), Ok(100.0 * 1609.34 / 86400.0));
    assert_eq!(convert(&Units::Meters, 86400.0, &Units::MetersPerSecond), Ok(1.0));
    assert_eq!(convert(&Units::Kilometers, 86400.0, &Units::MetersPerSecond), Ok(1000.0));
    assert_eq!(convert(&Units::Acres, 2.0, &Units::SquareMeters), Ok(2.0 * 4046.86));
    assert_eq!(convert(&Units::Hectares, 3.0, &Units::SquareMeters), Ok(30000.0));
    assert_eq!(convert(&Units::SquareFeet, 107.639, &Units::SquareMeters), Ok(107.639 / 10.7639));
    assert_eq!(convert(&Units::Hectares, 1.0, &Units::Acres), Ok(2.47105));
    assert_eq!(convert(&Units::Acres, 2.47105, &Units::Hectares), Ok(1.0));
    assert_eq!(convert(&Units::Inches, 24.0, &Units::Feet), Ok(2.0));
    assert_eq!(convert(&Units::Millimeters, 25.0, &Units::Centimeters), Ok(2.5));
}

#[test]
fn abbreviations_resolve() {
    let table = [
        ("°C", Units::Celsius), ("C", Units::Celsius), ("c", Units::Celsius),
        ("degC", Units::Celsius), ("°F", Units::Fahrenheit), ("F", Units::Fahrenheit),
        ("f", Units::Fahrenheit), ("degF", Units::Fahrenheit), ("mm", Units::Millimeters),
        ("cm", Units::Centimeters), ("m", Units::Meters), ("km", Units::Kilometers),
        ("KM", Units::Kilometers), ("in", Units::Inches), ("ft", Units::Feet),
        ("yd", Units::Yards), ("mi", Units::Miles), ("L", Units::Langley),
        ("MJ/m²", Units::MegaJoulesPerSquareMeter), ("mj/m²", Units::MegaJoulesPerSquareMeter),
        ("mj/m2", Units::MegaJoulesPerSquareMeter), ("mj/m^2", Units::MegaJoulesPerSquareMeter),
        ("mJ/m^2", Units::MegaJoulesPerSquareMeter), ("W/m²", Units::WattsPerSquareMeter),
        ("w/m²", Units::WattsPerSquareMeter), ("W/m-2", Units::WattsPerSquareMeter),
        ("w/m-2", Units::WattsPerSquareMeter), ("Pa", Units::Pascals), ("pa", Units::Pascals),
        ("kpa", Units::KiloPascals), ("kPa", Units::KiloPascals), ("KPA", Units::KiloPascals),
        ("KPa", Units::KiloPascals), ("°", Units::Degrees), ("deg", Units::Degrees),
        ("rad", Units::Radians), ("m/s", Units::MetersPerSecond), ("mph", Units::MilesPerHour),
        ("acres", Units::Acres), ("ha", Units::Hectares), ("ft²", Units::SquareFeet),
        ("sq ft", Units::SquareFeet), ("ft2", Units::SquareFeet), ("m²", Units::SquareMeters),
        ("sq m", Units::SquareMeters), ("m2", Units::SquareMeters), ("%", Units::Percent),
        ("percent", Units::Percent), ("Percent", Units::Percent),
    ];
    for (text, unit) in table {
        assert_eq!(Units::from_abbreviation(text), Ok(unit), "{}", text);
    }
    assert_eq!(Units::from_abbreviation("K"), Err("Invalid unit: K".to_string()));
    assert_eq!(Units::from_abbreviation(" C"), Err("Invalid unit:  C".to_string()));
    assert_eq!(Units::from_abbreviation(""), Err("Invalid unit: ".to_string()));
}

#[test]
fn abbreviations_and_names() {
    assert_eq!(Units::Celsius.to_abbreviation(), "°C");
    assert_eq!(Units::MegaJoulesPerSquareMeter.to_abbreviation(), "MJ/m²");
    assert_eq!(Units::Percent.to_abbreviation(), "%");
    assert_eq!(Units::SquareFeet.to_abbreviation(), "ft²");
    assert_eq!(Units::WattsPerSquareMeter.name(), "Watts");
    assert_eq!(Units::MetersPerSecond.name(), "Meters/Second");
    assert_eq!(Units::SquareMeters.name(), "Square Meters");
    assert_eq!(Units::from_abbreviation(Units::Radians.to_abbreviation()), Ok(Units::Radians));
}

#[test]
fn direct_entries_agree_with_composed_ones() {
    let chains = [
        (Units::Kilometers, Units::Meters, Units::MetersPerSecond),
        (Units::Miles, Units::Kilometers, Units::MetersPerSecond),
        (Units::Acres, Units::SquareMeters, Units::Hectares),
        (Units::Hectares, Units::SquareMeters, Units::Acres),
    ];
    for (a, b, c) in chains {
        for x in [1.0, 12.5, 86400.0] {
            let direct = convert(&a, x, &c).unwrap();
            let composed = convert(&b, convert(&a, x, &b).unwrap(), &c).unwrap();
            assert!((direct - composed).abs() <= 1e-5 * composed.abs(), "{:?} {:?} {:?}", a, b, c);
        }
    }
}

#[test]
fn daily_totals_become_speeds() {
    let day = 86400.0;
    let mps = convert(&Units::Miles, 1.0, &Units::MetersPerSecond).unwrap();
    assert!((mps - 1609.34 / day).abs() < 1e-12);
    let mps = convert(&Units::Kilometers, 1.0, &Units::MetersPerSecond).unwrap();
    assert!((mps - 1000.0 / day).abs() < 1e-12);
    let mps = convert(&Units::Meters, 1.0, &Units::MetersPerSecond).unwrap();
    assert!((mps - 1.0 / day).abs() < 1e-15);
}
