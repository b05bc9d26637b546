use reimg::options::{parse_args, ArgError, Command, Config, FitMode, DEFAULT_QUALITY};

fn args(list: &[&str]) -> Vec<String> {
    list.iter().map(|s| s.to_string()).collect()
}

fn run_config(list: &[&str]) -> Config {
    match parse_args(&args(list)) {
        Ok(Command::Run(c)) => c,
        Ok(Command::Help) => panic!("expected a run, got help"),
        Err(e) => panic!("expected a run, got {}", e.message()),
    }
}

fn parse_error(list: &[&str]) -> ArgError {
    match parse_args(&args(list)) {
        Err(e) => e,
        Ok(_) => panic!("expected an error"),
    }
}

#[test]
fn no_arguments_ask_for_help() {
    assert!(matches!(parse_args(&args(&[])), Ok(Command::Help)));
}

#[test]
fn unknown_flag_asks_for_help() {
    assert!(matches!(parse_args(&args(&["-w", "10", "--bogus"])), Ok(Command::Help)));
}

#[test]
fn defaults_when_only_info_is_given() {
    let c = run_config(&["-i"]);
    assert!(c.show_metadata);
    assert_eq!(c.width, None);
    assert_eq!(c.height, None);
    assert_eq!(c.fit, None);
    assert_eq!(c.quality, DEFAULT_QUALITY);
    assert_eq!(c.quality, 85);
    assert_eq!(c.format, None);
}

#[test]
fn all_options_are_read() {
    let c = run_config(&["--width", "640", "-h", "+480", "--fit", "scale-down", "-q", "70", "--format", "png"]);
    assert_eq!(c.width, Some(640));
    assert_eq!(c.height, Some(480));
    assert_eq!(c.fit, Some(FitMode::ScaleDown));
    assert_eq!(c.quality, 70);
    assert_eq!(c.format, Some("png".to_string()));
    assert!(!c.show_metadata);
}

#[test]
fn last_fit_flag_wins() {
    assert_eq!(run_config(&["--cover", "--fit", "contain"]).fit, Some(FitMode::Contain));
    assert_eq!(run_config(&["--fit", "contain", "--scale-down"]).fit, Some(FitMode::ScaleDown));
    assert_eq!(run_config(&["--contain", "--cover"]).fit, Some(FitMode::Cover));
}

#[test]
fn quality_bounds() {
    assert_eq!(parse_error(&["-q", "0"]), ArgError::InvalidQuality);
    assert_eq!(parse_error(&["-q", "101"]), ArgError::InvalidQuality);
    assert_eq!(parse_error(&["--quality", "300"]), ArgError::InvalidQuality);
    assert_eq!(run_config(&["-q", "1"]).quality, 1);
    assert_eq!(run_config(&["-q", "100"]).quality, 100);
    assert_eq!(ArgError::InvalidQuality.message(), "quality must be an integer in 1..=100");
}

#[test]
fn width_and_height_must_be_positive_integers() {
    assert_eq!(parse_error(&["-w", "0"]), ArgError::InvalidWidth);
    assert_eq!(parse_error(&["-w", "abc"]), ArgError::InvalidWidth);
    assert_eq!(parse_error(&["-w", "-5"]), ArgError::InvalidWidth);
    assert_eq!(parse_error(&["-w", "4294967296"]), ArgError::InvalidWidth);
    assert_eq!(run_config(&["-w", "4294967295"]).width, Some(4294967295));
    assert_eq!(parse_error(&["--height", ""]), ArgError::InvalidHeight);
    assert_eq!(parse_error(&["--height", "+"]), ArgError::InvalidHeight);
    assert_eq!(ArgError::InvalidWidth.message(), "width must be a positive integer");
    assert_eq!(ArgError::InvalidHeight.message(), "height must be a positive integer");
}

#[test]
fn missing_values_are_errors() {
    assert_eq!(parse_error(&["-w"]), ArgError::MissingWidth);
    assert_eq!(parse_error(&["-h"]), ArgError::MissingHeight);
    assert_eq!(parse_error(&["--fit"]), ArgError::MissingFit);
    assert_eq!(parse_error(&["-q"]), ArgError::MissingQuality);
    assert_eq!(parse_error(&["-f"]), ArgError::MissingFormat);
    assert_eq!(ArgError::MissingWidth.message(), "-w/--width requires a value");
    assert_eq!(ArgError::MissingFormat.message(), "-f/--format requires a value");
}

#[test]
fn invalid_fit_mode_is_an_error() {
    assert_eq!(parse_error(&["--fit", "stretch"]), ArgError::InvalidFit);
    assert_eq!(
        ArgError::InvalidFit.message(),
        "invalid fit mode, possible values: cover, contain, scale-down"
    );
}

#[test]
fn error_stops_before_later_tokens() {
    assert_eq!(parse_error(&["-q", "0", "--bogus"]), ArgError::InvalidQuality);
}
