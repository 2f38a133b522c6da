use solar_monitor::control::{Command, ControlLoop, ControlState, Directive};
use solar_monitor::error::SolarMonitorError;
use solar_monitor::rgbdigit::{RenderError, SevenSegmentDisplayString};
use solar_monitor::rgbdigit_display::{
    RgbDigitDisplay, format_kilowatts, format_kilowatts_magnitude, format_percentage,
};
use solar_monitor::solar_status::SolarStatus;

#[test]
fn command_ordering_two_fetches_then_silence() {
    let mut control = ControlLoop::new(RgbDigitDisplay::new());
    let commands = vec![
        Command::Start,
        Command::Tick,
        Command::Tick,
        Command::Stop,
        Command::Tick,
    ];
    let mut fetches = 0;
    let mut last = Directive::Idle;
    for command in &commands {
        let directive = control.handle_command(command);
        if matches!(directive, Directive::FetchAndShow) {
            fetches += 1;
        }
        last = directive;
    }
    assert_eq!(fetches, 2);
    assert!(matches!(last, Directive::Idle));
    assert_eq!(control.state, ControlState::Stopped);
}

#[test]
fn start_is_idempotent_and_tick_ignored_while_stopped() {
    let mut control = ControlLoop::new(RgbDigitDisplay::new());
    assert!(matches!(control.handle_command(&Command::Tick), Directive::Idle));
    assert!(matches!(control.handle_command(&Command::Start), Directive::Idle));
    assert!(matches!(control.handle_command(&Command::Start), Directive::Idle));
    assert_eq!(control.state, ControlState::Running);
    assert!(matches!(
        control.handle_command(&Command::Tick),
        Directive::FetchAndShow
    ));
}

#[test]
fn formatted_fields_of_the_example_reading() {
    assert_eq!(format_kilowatts(5000).as_str(), "5.0");
    assert_eq!(format_kilowatts(1200).as_str(), "1.2");
    assert_eq!(format_kilowatts_magnitude(800).as_str(), "0.8");
    assert_eq!(format_kilowatts_magnitude(4000).as_str(), "4.0");
    assert_eq!(format_percentage(6200).as_str(), "62");
    assert_eq!(format_kilowatts(-500).as_str(), "-0.5");
    assert_eq!(format_percentage(-526).as_str(), "0");
    assert_eq!(format_percentage(15000).as_str(), "99");
}

#[test]
fn example_reading_renders_and_stop_blanks_everything() {
    let status = SolarStatus {
        solar_power_watts: 5000,
        house_power_watts: 1200,
        battery_power_watts: -800,
        grid_power_watts: -4000,
        battery_level_centipercent: 6200,
    };
    let mut control = ControlLoop::new(RgbDigitDisplay::new());
    assert!(matches!(control.handle_command(&Command::Start), Directive::Idle));
    assert!(matches!(
        control.handle_command(&Command::Tick),
        Directive::FetchAndShow
    ));
    let frame = control.show_status(&status).unwrap();

    // The same picture written directly: "0.8" in the discharge color,
    // "4.0" in the export color, "5.0", "1.2", "62" on their cell pairs.
    let mut expected = SevenSegmentDisplayString::new(10);
    let mut battery = expected.derive_numeric_display(&[0, 1]);
    battery.set_value("0.8".to_string());
    battery.set_color((30, 70, 20));
    battery.write(&mut expected).unwrap();
    let mut grid = expected.derive_numeric_display(&[2, 3]);
    grid.set_value("4.0".to_string());
    grid.set_color((30, 30, 30));
    grid.write(&mut expected).unwrap();
    let mut solar = expected.derive_numeric_display(&[4, 5]);
    solar.set_value("5.0".to_string());
    solar.set_color((100, 100, 0));
    solar.write(&mut expected).unwrap();
    let mut house = expected.derive_numeric_display(&[6, 7]);
    house.set_value("1.2".to_string());
    house.set_color((30, 10, 80));
    house.write(&mut expected).unwrap();
    let mut level = expected.derive_numeric_display(&[8, 9]);
    level.set_value("62".to_string());
    level.set_color((100, 0, 100));
    level.write(&mut expected).unwrap();
    assert_eq!(frame, expected.flush());

    // A subsequent stop blanks every cell.
    match control.handle_command(&Command::Stop) {
        Directive::Flush(blank_frame) => {
            assert_eq!(blank_frame, SevenSegmentDisplayString::new(10).flush());
        }
        other => panic!("expected a flush directive, got {:?}", other),
    }
}

#[test]
fn charging_battery_and_importing_grid_use_their_colors() {
    let status = SolarStatus {
        solar_power_watts: 0,
        house_power_watts: 2000,
        battery_power_watts: 1500,
        grid_power_watts: 3500,
        battery_level_centipercent: 9900,
    };
    let mut control = ControlLoop::new(RgbDigitDisplay::new());
    control.handle_command(&Command::Start);
    let frame = control.show_status(&status).unwrap();

    let mut expected = SevenSegmentDisplayString::new(10);
    let mut battery = expected.derive_numeric_display(&[0, 1]);
    battery.set_value("1.5".to_string());
    battery.set_color((100, 40, 10));
    battery.write(&mut expected).unwrap();
    let mut grid = expected.derive_numeric_display(&[2, 3]);
    grid.set_value("3.5".to_string());
    grid.set_color((50, 0, 0));
    grid.write(&mut expected).unwrap();
    let mut solar = expected.derive_numeric_display(&[4, 5]);
    solar.set_value("0.0".to_string());
    solar.set_color((100, 100, 0));
    solar.write(&mut expected).unwrap();
    let mut house = expected.derive_numeric_display(&[6, 7]);
    house.set_value("2.0".to_string());
    house.set_color((30, 10, 80));
    house.write(&mut expected).unwrap();
    let mut level = expected.derive_numeric_display(&[8, 9]);
    level.set_value("99".to_string());
    level.set_color((100, 0, 100));
    level.write(&mut expected).unwrap();
    assert_eq!(frame, expected.flush());
}

#[test]
fn oversized_reading_fails_the_tick_and_changes_nothing() {
    let status = SolarStatus {
        solar_power_watts: 25000, // 25.0 kW needs four cells
        house_power_watts: 1000,
        battery_power_watts: 0,
        grid_power_watts: 0,
        battery_level_centipercent: 5000,
    };
    let mut control = ControlLoop::new(RgbDigitDisplay::new());
    control.handle_command(&Command::Start);
    assert_eq!(
        control.show_status(&status),
        Err(SolarMonitorError::DISPLAY(RenderError::InsufficientDigits))
    );
    // A negative house reading needs a sign cell and fails too.
    let negative_house = SolarStatus {
        solar_power_watts: 0,
        house_power_watts: -500,
        battery_power_watts: 0,
        grid_power_watts: 0,
        battery_level_centipercent: 5000,
    };
    assert!(control.show_status(&negative_house).is_err());
}

#[test]
fn startup_error_and_blink_frames_differ_from_blank() {
    let mut display = RgbDigitDisplay::new();
    let blank = SevenSegmentDisplayString::new(10).flush();
    let startup = display.startup();
    assert_ne!(startup, blank);
    let cleared = display.clear();
    assert_eq!(cleared, blank);
    let bright = display.blink_frame(true);
    assert_ne!(bright, blank);
    let dark = display.blink_frame(false);
    assert_eq!(dark, blank);
    let alert = display.show_error();
    assert_ne!(alert, blank);
    assert_ne!(alert, bright);
}
