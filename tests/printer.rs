use inkcheck::printer::Printer;
use inkcheck::supply::{calculate, CalculateLevel, Drum, Drums, Fuser, Reservoir, Toner, Toners};

#[test]
fn printer_test_calc_and_update_toner_level_percent() {
    let mut printer = Printer::new(
        String::from("OKI B431"),
        None,
        Toners {
            black_toner: Some(Toner { level: 2800, max_level: 3500, level_percent: None }),
            cyan_toner: Some(Toner { level: 1000, max_level: 3000, level_percent: None }),
            magenta_toner: Some(Toner { level: 2000, max_level: 3000, level_percent: None }),
            yellow_toner: Some(Toner { level: 300, max_level: 3000, level_percent: None }),
        },
        Drums { black_drum: None, cyan_drum: None, magenta_drum: None, yellow_drum: None },
        None,
        None,
    );

    printer.calc_and_update_toners_level_percent();

    assert_eq!(printer.toners.black_toner.unwrap().level_percent, Some(80));
    assert_eq!(printer.toners.cyan_toner.unwrap().level_percent, Some(33));
    assert_eq!(printer.toners.magenta_toner.unwrap().level_percent, Some(66));
    assert_eq!(printer.toners.yellow_toner.unwrap().level_percent, Some(10));
}

#[test]
fn printer_test_calc_and_update_drum_level_percent() {
    let mut printer = Printer::new(
        String::from("OKI B431"),
        None,
        Toners {
            black_toner: Some(Toner { level: 2800, max_level: 3500, level_percent: None }),
            cyan_toner: None,
            magenta_toner: None,
            yellow_toner: None,
        },
        Drums {
            black_drum: Some(Drum { level: 2800, max_level: 3500, level_percent: None }),
            cyan_drum: Some(Drum { level: 1000, max_level: 3000, level_percent: None }),
            magenta_drum: Some(Drum { level: 2000, max_level: 3000, level_percent: None }),
            yellow_drum: Some(Drum { level: 300, max_level: 3000, level_percent: None }),
        },
        None,
        None,
    );

    printer.calc_and_update_drums_level_percent();

    assert_eq!(printer.drums.black_drum.unwrap().level_percent, Some(80));
    assert_eq!(printer.drums.cyan_drum.unwrap().level_percent, Some(33));
    assert_eq!(printer.drums.magenta_drum.unwrap().level_percent, Some(66));
    assert_eq!(printer.drums.yellow_drum.unwrap().level_percent, Some(10));
}

#[test]
fn test_printer_constructor() {
    let printer = Printer::new(
        String::from("Constructor Test"),
        Some(String::from("XYZ-123")),
        Toners { black_toner: Some(Toner::new(50, 100, None)), ..Default::default() },
        Drums::default(),
        Some(Fuser::new(75, 100, None)),
        None,
    );

    assert_eq!(printer.name, "Constructor Test");
    assert_eq!(printer.serial_number.unwrap(), "XYZ-123");
    assert!(printer.toners.black_toner.is_some());
    assert!(printer.drums.black_drum.is_none());
    assert!(printer.fuser.is_some());
    assert!(printer.reservoir.is_none());
}

#[test]
fn mod_test_calc_and_update_toner_level_percent() {
    let mut printer = Printer::new(
        String::from("Toner Test Printer"),
        None,
        Toners {
            black_toner: Some(Toner::new(80, 100, None)),
            cyan_toner: Some(Toner::new(33, 100, None)),
            magenta_toner: Some(Toner::new(66, 100, None)),
            yellow_toner: Some(Toner::new(10, 100, None)),
        },
        Drums::default(),
        None,
        None,
    );

    printer.calc_and_update_toners_level_percent();

    assert_eq!(printer.toners.black_toner.unwrap().level_percent, Some(80));
    assert_eq!(printer.toners.cyan_toner.unwrap().level_percent, Some(33));
    assert_eq!(printer.toners.magenta_toner.unwrap().level_percent, Some(66));
    assert_eq!(printer.toners.yellow_toner.unwrap().level_percent, Some(10));
}

#[test]
fn mod_test_calc_and_update_drum_level_percent() {
    let mut printer = Printer::new(
        String::from("Drum Test Printer"),
        None,
        Toners::default(),
        Drums {
            black_drum: Some(Drum::new(80, 100, None)),
            cyan_drum: Some(Drum::new(33, 100, None)),
            magenta_drum: Some(Drum::new(66, 100, None)),
            yellow_drum: Some(Drum::new(10, 100, None)),
        },
        None,
        None,
    );

    printer.calc_and_update_drums_level_percent();

    assert_eq!(printer.drums.black_drum.unwrap().level_percent, Some(80));
    assert_eq!(printer.drums.cyan_drum.unwrap().level_percent, Some(33));
    assert_eq!(printer.drums.magenta_drum.unwrap().level_percent, Some(66));
    assert_eq!(printer.drums.yellow_drum.unwrap().level_percent, Some(10));
}

#[test]
fn test_calc_and_update_fuser_level_percent() {
    let mut printer = Printer::new(
        String::from("Fuser Test Printer"),
        None,
        Toners::default(),
        Drums::default(),
        Some(Fuser::new(75, 100, None)),
        None,
    );

    printer.calc_and_update_fuser_level_percent();
    assert_eq!(printer.fuser.unwrap().level_percent, Some(75));
}

#[test]
fn test_calc_and_update_reservoir_level_percent() {
    let mut printer = Printer::new(
        String::from("Reservoir Test Printer"),
        None,
        Toners::default(),
        Drums::default(),
        None,
        Some(Reservoir::new(40, 50, None)),
    );

    printer.calc_and_update_reservoir_level_percent();
    assert_eq!(printer.reservoir.unwrap().level_percent, Some(80));
}

#[test]
fn test_calculation_with_zero_max_level() {
    let mut printer = Printer::new(
        String::from("Edge Case Printer"),
        None,
        Toners { black_toner: Some(Toner::new(0, 0, None)), ..Default::default() },
        Drums::default(),
        None,
        None,
    );

    printer.calc_and_update_toners_level_percent();
    assert_eq!(printer.toners.black_toner.unwrap().level_percent, None);
}

#[test]
fn test_calculate_all_levels_integration() {
    let mut printer = Printer::new(
        String::from("Comprehensive Test"),
        None,
        Toners { black_toner: Some(Toner::new(50, 100, None)), ..Default::default() },
        Drums { black_drum: Some(Drum::new(40, 100, None)), ..Default::default() },
        Some(Fuser::new(30, 100, None)),
        Some(Reservoir::new(20, 100, None)),
    );

    assert!(printer.toners.black_toner.as_ref().unwrap().level_percent.is_none());
    assert!(printer.drums.black_drum.as_ref().unwrap().level_percent.is_none());

    printer.calculate_all_levels();

    assert_eq!(printer.toners.black_toner.unwrap().level_percent, Some(50));
    assert_eq!(printer.drums.black_drum.unwrap().level_percent, Some(40));
    assert_eq!(printer.fuser.unwrap().level_percent, Some(30));
    assert_eq!(printer.reservoir.unwrap().level_percent, Some(20));
}

#[test]
fn calculate_gives_truncated_percentages() {
    assert_eq!(calculate(2800, 3500), Some(80));
    assert_eq!(calculate(1000, 3000), Some(33));
    assert_eq!(calculate(300, 3000), Some(10));
    assert_eq!(calculate(2000, 3000), Some(66));
}

#[test]
fn calculate_truncates_negative_levels_toward_zero() {
    assert_eq!(calculate(-250, 100), Some(-250));
    assert_eq!(calculate(-3, 7), Some(-42));
    assert_eq!(calculate(-1, 300), Some(0));
}

#[test]
fn calculate_without_positive_maximum_is_none() {
    assert_eq!(calculate(50, 0), None);
    assert_eq!(calculate(50, -2), None);
    assert_eq!(calculate(-3, -3), None);
}

#[test]
fn calculate_at_the_largest_level() {
    let level = i64::MAX / 100;
    assert_eq!(calculate(level, level), Some(100));
    assert_eq!(calculate(level, 1), Some(level * 100));
}

#[test]
fn calculator_keeps_a_percentage_already_present() {
    let mut reading = Some(Toner::new(0, 0, Some(87)));
    reading.calculate_level_percent();
    assert_eq!(reading.unwrap().level_percent, Some(87));

    let mut absent: Option<Toner> = None;
    absent.calculate_level_percent();
    assert!(absent.is_none());
}

#[test]
fn calculating_twice_changes_nothing() {
    let mut printer = Printer::new(
        String::from("Twice"),
        None,
        Toners { cyan_toner: Some(Toner::new(1, 3, None)), ..Default::default() },
        Drums { yellow_drum: Some(Drum::new(5, 0, None)), ..Default::default() },
        Some(Fuser::new(9, 10, None)),
        None,
    );
    printer.calculate_all_levels();
    let once = printer.clone();
    printer.calculate_all_levels();
    assert_eq!(printer.toners, once.toners);
    assert_eq!(printer.drums, once.drums);
    assert_eq!(printer.fuser, once.fuser);
    assert_eq!(printer.toners.cyan_toner.unwrap().level_percent, Some(33));
    assert_eq!(printer.drums.yellow_drum.unwrap().level_percent, None);
    assert_eq!(printer.fuser.unwrap().level_percent, Some(90));
}
