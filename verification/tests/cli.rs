use joujou::cli::{
    parse_cli, parse_nonzero_u16, App, CliError, Command, IntParseError, PortOrRange,
    RangeParseError,
};

fn args(list: &[&str]) -> Vec<String> {
    list.iter().map(|s| (*s).to_owned()).collect()
}

fn parse(list: &[&str]) -> Result<App, CliError> {
    parse_cli(&args(list))
}

#[test]
fn check_options() {
    // The grammar holds together: both subcommands parse with their
    // defaults, and the common flags are accepted before either.
    let app = parse(&["play", "a.flac"]).expect("play parses");
    assert!(matches!(app.port, PortOrRange::RandomPort));
    assert!(app.beets_db.is_none());
    match app.cmd {
        Command::Play { paths, playlist_start } => {
            assert_eq!(paths, vec!["a.flac".to_owned()]);
            assert_eq!(playlist_start, 1);
        },
        Command::Listen => panic!("expected play"),
    }
    let app = parse(&["--port", "8000", "--beets-db", "/tmp/library.db", "listen"])
        .expect("listen parses");
    assert!(matches!(app.port, PortOrRange::SinglePort(8000)));
    assert_eq!(app.beets_db.as_deref(), Some("/tmp/library.db"));
    assert!(matches!(app.cmd, Command::Listen));
}

#[test]
fn play_collects_paths_and_start() {
    let app = parse(&["play", "--playlist-start", "3", "a.flac", "b.flac"]).expect("parses");
    match app.cmd {
        Command::Play { paths, playlist_start } => {
            assert_eq!(paths, vec!["a.flac".to_owned(), "b.flac".to_owned()]);
            assert_eq!(playlist_start, 3);
        },
        Command::Listen => panic!("expected play"),
    }
}

#[test]
fn play_without_paths_is_rejected() {
    assert_eq!(parse(&["play"]).unwrap_err(), CliError::NoPaths);
}

#[test]
fn missing_command_is_rejected() {
    assert_eq!(parse(&[]).unwrap_err(), CliError::MissingCommand);
    assert_eq!(parse(&["--port", "80"]).unwrap_err(), CliError::MissingCommand);
}

#[test]
fn listen_takes_no_argument() {
    assert_eq!(parse(&["listen", "extra"]).unwrap_err(), CliError::UnexpectedArgument);
}

#[test]
fn unknown_arguments_are_rejected() {
    assert_eq!(parse(&["frobnicate"]).unwrap_err(), CliError::UnknownArgument);
    assert_eq!(parse(&["play", "--verbose", "a.flac"]).unwrap_err(), CliError::UnknownArgument);
}

#[test]
fn flags_missing_values_are_rejected() {
    assert_eq!(parse(&["--port"]).unwrap_err(), CliError::MissingValue);
    assert_eq!(parse(&["--beets-db"]).unwrap_err(), CliError::MissingValue);
    assert_eq!(parse(&["play", "a.flac", "--playlist-start"]).unwrap_err(), CliError::MissingValue);
}

#[test]
fn port_range_parses() {
    let app = parse(&["--port", "8000:8010", "listen"]).expect("parses");
    assert!(matches!(app.port, PortOrRange::Range(8000, 8010)));
}

#[test]
fn port_errors_surface() {
    assert_eq!(parse(&["--port", "9:8", "listen"]).unwrap_err(), CliError::BadPort(RangeParseError::EmptyRange));
    assert_eq!(parse(&["--port", "0", "listen"]).unwrap_err(), CliError::BadPort(RangeParseError::BadInt(IntParseError::Zero)));
    assert_eq!(parse(&["--port", "", "listen"]).unwrap_err(), CliError::BadPort(RangeParseError::BadInt(IntParseError::Empty)));
    assert_eq!(parse(&["--port", "80a", "listen"]).unwrap_err(), CliError::BadPort(RangeParseError::BadInt(IntParseError::InvalidDigit)));
    assert_eq!(parse(&["--port", "70000", "listen"]).unwrap_err(), CliError::BadPort(RangeParseError::BadInt(IntParseError::PosOverflow)));
}

#[test]
fn bad_playlist_start_surfaces() {
    assert_eq!(parse(&["play", "--playlist-start", "zero", "a.flac"]).unwrap_err(), CliError::BadPlaylistStart(IntParseError::InvalidDigit));
    assert_eq!(parse(&["play", "--playlist-start", "0", "a.flac"]).unwrap_err(), CliError::BadPlaylistStart(IntParseError::Zero));
}

#[test]
fn repeated_flag_keeps_last_value() {
    let app = parse(&["--port", "80", "--port", "81", "listen"]).expect("parses");
    assert!(matches!(app.port, PortOrRange::SinglePort(81)));
}

#[test]
fn nonzero_u16_parsing() {
    assert_eq!(parse_nonzero_u16("1"), Ok(1));
    assert_eq!(parse_nonzero_u16("65535"), Ok(65535));
    assert_eq!(parse_nonzero_u16("+42"), Ok(42));
    assert_eq!(parse_nonzero_u16("65536"), Err(IntParseError::PosOverflow));
    assert_eq!(parse_nonzero_u16("0"), Err(IntParseError::Zero));
    assert_eq!(parse_nonzero_u16("00"), Err(IntParseError::Zero));
    assert_eq!(parse_nonzero_u16(""), Err(IntParseError::Empty));
    assert_eq!(parse_nonzero_u16("+"), Err(IntParseError::InvalidDigit));
    assert_eq!(parse_nonzero_u16("-1"), Err(IntParseError::InvalidDigit));
    assert_eq!(parse_nonzero_u16("4 2"), Err(IntParseError::InvalidDigit));
}

#[test]
fn port_or_range_from_str() {
    assert_eq!(PortOrRange::from_str("80"), Ok(PortOrRange::SinglePort(80)));
    assert_eq!(PortOrRange::from_str("80:90"), Ok(PortOrRange::Range(80, 90)));
    assert_eq!(PortOrRange::from_str("80:80"), Ok(PortOrRange::Range(80, 80)));
    assert_eq!(PortOrRange::from_str("90:80"), Err(RangeParseError::EmptyRange));
    assert_eq!(
        PortOrRange::from_str("a:80"),
        Err(RangeParseError::BadInt(IntParseError::InvalidDigit))
    );
}

#[test]
fn port_bounds() {
    assert_eq!(PortOrRange::RandomPort.ports(), (0, 0));
    assert_eq!(PortOrRange::SinglePort(80).ports(), (80, 80));
    assert_eq!(PortOrRange::Range(80, 90).ports(), (80, 90));
}
