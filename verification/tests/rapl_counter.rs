use umst_ucrs::rapl::{energy_reading_from_counter_text, EnergyReading, RaplError};

#[test]
fn energy_reading_delta() {
    let a = EnergyReading { microjoules: 1000 };
    let b = EnergyReading { microjoules: 5000 };
    let joules = b.delta_microjoules(&a) as f64 * 1e-6;
    assert!((joules - 0.004).abs() < 1e-10);
}

#[test]
fn energy_reading_delta_wraps() {
    let a = EnergyReading { microjoules: u64::MAX - 10 };
    let b = EnergyReading { microjoules: 5 };
    assert_eq!(b.delta_microjoules(&a), 16);
    let one = EnergyReading { microjoules: 1 };
    let zero = EnergyReading { microjoules: 0 };
    assert_eq!(zero.delta_microjoules(&one), u64::MAX);
    assert_eq!(a.delta_microjoules(&a), 0);
}

#[test]
fn counter_text_parses() {
    let r = energy_reading_from_counter_text("123456789\n").unwrap();
    assert_eq!(r.microjoules, 123_456_789);
    let r = energy_reading_from_counter_text("  42 ").unwrap();
    assert_eq!(r.microjoules, 42);
    assert!(matches!(
        energy_reading_from_counter_text("12a"),
        Err(RaplError::Parse(_))
    ));
    assert!(matches!(
        energy_reading_from_counter_text("99999999999999999999"),
        Err(RaplError::Parse(_))
    ));
    assert_eq!(energy_reading_from_counter_text("+7").unwrap().microjoules, 7);
    assert_eq!(
        energy_reading_from_counter_text("\u{3000}\t42\u{00A0}\n").unwrap().microjoules,
        42
    );
    assert!(matches!(
        energy_reading_from_counter_text("-1"),
        Err(RaplError::Parse(_))
    ));
    assert!(matches!(
        energy_reading_from_counter_text("   "),
        Err(RaplError::Parse(_))
    ));
}
