use waystt_wrapper::cli::{DEFAULT_ICON, DEFAULT_ICON_SIZE, DEFAULT_MARGIN, DEFAULT_POSITION};
use waystt_wrapper::decimal::{parse_i32, parse_ranged};
use waystt_wrapper::{Args, ArgsError, Position, RawArgs};

fn raw(icon_size: &str, position: &str, margin: &str) -> RawArgs {
    RawArgs {
        icon: "mic".to_string(),
        icon_size: icon_size.to_string(),
        position: position.to_string(),
        margin: margin.to_string(),
        command: vec!["run".to_string(), "--fast".to_string()],
    }
}

#[test]
fn decimal_numbers_are_read_exactly() {
    assert_eq!(parse_i32("0"), Some(0));
    assert_eq!(parse_i32("96"), Some(96));
    assert_eq!(parse_i32("+5"), Some(5));
    assert_eq!(parse_i32("-5"), Some(-5));
    assert_eq!(parse_i32("-0"), Some(0));
    assert_eq!(parse_i32("007"), Some(7));
    assert_eq!(parse_i32("2147483647"), Some(i32::MAX));
    assert_eq!(parse_i32("-2147483648"), Some(i32::MIN));
    assert_eq!(parse_i32("00000000000000000000000000000012"), Some(12));
}

#[test]
fn what_is_no_number_or_does_not_fit_is_refused() {
    assert_eq!(parse_i32(""), None);
    assert_eq!(parse_i32("+"), None);
    assert_eq!(parse_i32("-"), None);
    assert_eq!(parse_i32("+-1"), None);
    assert_eq!(parse_i32("--1"), None);
    assert_eq!(parse_i32(" 1"), None);
    assert_eq!(parse_i32("1 "), None);
    assert_eq!(parse_i32("1_000"), None);
    assert_eq!(parse_i32("12a"), None);
    assert_eq!(parse_i32("0x10"), None);
    assert_eq!(parse_i32("1.5"), None);
    assert_eq!(parse_i32("٣"), None);
    assert_eq!(parse_i32("2147483648"), None);
    assert_eq!(parse_i32("-2147483649"), None);
    assert_eq!(parse_i32("99999999999999999999999999"), None);
    assert_eq!(parse_i32("-99999999999999999999999999"), None);
}

#[test]
fn numbers_agree_with_the_standard_library() {
    let samples = [
        "0", "1", "-1", "+1", "10", "100", "2147483646", "2147483647", "2147483648",
        "-2147483647", "-2147483648", "-2147483649", "", "+", "-", "abc", "12abc", "4294967296",
        "9223372036854775808", "0000", "+0",
    ];
    for sample in samples {
        assert_eq!(parse_i32(sample), sample.parse::<i32>().ok(), "{:?}", sample);
    }
}

#[test]
fn ranged_numbers_have_a_lower_bound() {
    assert_eq!(parse_ranged("1", 1), Some(1));
    assert_eq!(parse_ranged("0", 1), None);
    assert_eq!(parse_ranged("0", 0), Some(0));
    assert_eq!(parse_ranged("-1", 0), None);
    assert_eq!(parse_ranged("2147483647", 1), Some(i32::MAX));
    assert_eq!(parse_ranged("2147483648", 1), None);
    assert_eq!(parse_ranged("x", 0), None);
}

#[test]
fn positions_have_five_names() {
    assert_eq!(Position::from_name("top-left"), Some(Position::TopLeft));
    assert_eq!(Position::from_name("top-right"), Some(Position::TopRight));
    assert_eq!(Position::from_name("bottom-left"), Some(Position::BottomLeft));
    assert_eq!(Position::from_name("bottom-right"), Some(Position::BottomRight));
    assert_eq!(Position::from_name("center"), Some(Position::Center));
    assert_eq!(Position::from_name("Center"), None);
    assert_eq!(Position::from_name("top_left"), None);
    assert_eq!(Position::from_name(""), None);
    for position in [
        Position::TopLeft,
        Position::TopRight,
        Position::BottomLeft,
        Position::BottomRight,
        Position::Center,
    ] {
        assert_eq!(Position::from_name(position.name()), Some(position));
    }
    assert_eq!(Position::TopLeft.name(), "top-left");
    assert_eq!(Position::BottomRight.name(), "bottom-right");
}

#[test]
fn raw_values_in_range_become_options() {
    let args = Args::from_raw(raw("128", "top-right", "0")).unwrap();
    assert_eq!(args.icon, "mic");
    assert_eq!(args.icon_size, 128);
    assert_eq!(args.position, Position::TopRight);
    assert_eq!(args.margin, 0);
    assert_eq!(args.command, vec!["run", "--fast"]);
}

#[test]
fn the_first_invalid_raw_value_is_the_error() {
    assert!(matches!(
        Args::from_raw(raw("0", "nowhere", "-1")),
        Err(ArgsError::InvalidIconSize(text)) if text == "0"
    ));
    assert!(matches!(
        Args::from_raw(raw("1", "nowhere", "-1")),
        Err(ArgsError::InvalidPosition(text)) if text == "nowhere"
    ));
    assert!(matches!(
        Args::from_raw(raw("1", "center", "-1")),
        Err(ArgsError::InvalidMargin(text)) if text == "-1"
    ));
    assert!(matches!(
        Args::from_raw(raw("big", "center", "1")),
        Err(ArgsError::InvalidIconSize(text)) if text == "big"
    ));
}

#[test]
fn the_defaults_are_valid_options() {
    assert_eq!(DEFAULT_ICON, "audio-input-microphone-symbolic");
    let args =
        Args::from_raw(raw(DEFAULT_ICON_SIZE, DEFAULT_POSITION, DEFAULT_MARGIN)).unwrap();
    assert_eq!(args.icon_size, 96);
    assert_eq!(args.position, Position::Center);
    assert_eq!(args.margin, 20);
}

#[test]
fn invalid_values_on_the_command_line_name_the_option() {
    assert!(matches!(
        Args::try_parse_from(&["waystt-wrapper", "--icon-size", "0"]),
        Err(ArgsError::InvalidIconSize(text)) if text == "0"
    ));
    assert!(matches!(
        Args::try_parse_from(&["waystt-wrapper", "--icon-size=-1"]),
        Err(ArgsError::InvalidIconSize(text)) if text == "-1"
    ));
    assert!(matches!(
        Args::try_parse_from(&["waystt-wrapper", "--margin=-1"]),
        Err(ArgsError::InvalidMargin(text)) if text == "-1"
    ));
    assert!(matches!(
        Args::try_parse_from(&["waystt-wrapper", "--position", "invalid"]),
        Err(ArgsError::InvalidPosition(text)) if text == "invalid"
    ));
    assert!(matches!(
        Args::try_parse_from(&["waystt-wrapper", "--icon-size", "2147483648"]),
        Err(ArgsError::InvalidIconSize(_))
    ));
}

#[test]
fn a_malformed_command_line_is_a_usage_error() {
    match Args::try_parse_from(&["waystt-wrapper", "--no-such-option"]) {
        Err(ArgsError::Usage(usage)) => {
            assert_eq!(usage.exit_code, 2);
            assert!(usage.use_stderr);
            assert!(usage.message.contains("--no-such-option"));
        }
        other => panic!("unexpected result {:?}", other),
    }
    assert!(matches!(
        Args::try_parse_from(&["waystt-wrapper", "--margin", "-1"]),
        Err(ArgsError::Usage(_))
    ));
    assert!(matches!(
        Args::try_parse_from(&["waystt-wrapper", "--icon"]),
        Err(ArgsError::Usage(_))
    ));
    assert!(matches!(
        Args::try_parse_from(&["waystt-wrapper", "--icon", "a", "--icon", "b"]),
        Err(ArgsError::Usage(_))
    ));
}

#[test]
fn help_and_version_come_back_for_standard_output() {
    match Args::try_parse_from(&["waystt-wrapper", "--help"]) {
        Err(ArgsError::Usage(usage)) => {
            assert_eq!(usage.exit_code, 0);
            assert!(!usage.use_stderr);
            assert!(usage.message.contains("--icon-size"));
            assert!(usage.message.contains("--position"));
            assert!(usage.message.contains("--margin"));
            assert!(usage.message.contains("GTK4 overlay wrapper for waystt speech-to-text"));
        }
        other => panic!("unexpected result {:?}", other),
    }
    match Args::try_parse_from(&["waystt-wrapper", "--version"]) {
        Err(ArgsError::Usage(usage)) => {
            assert_eq!(usage.exit_code, 0);
            assert!(!usage.use_stderr);
            assert!(usage.message.contains("waystt-wrapper"));
        }
        other => panic!("unexpected result {:?}", other),
    }
}

#[test]
fn the_command_takes_every_word_from_its_first_on() {
    let args =
        Args::try_parse_from(&["waystt-wrapper", "--margin", "5", "cmd", "--icon", "x", "-v"])
            .unwrap();
    assert_eq!(args.margin, 5);
    assert_eq!(args.icon, "audio-input-microphone-symbolic");
    assert_eq!(args.command, vec!["cmd", "--icon", "x", "-v"]);
}

#[test]
fn option_values_may_follow_an_equals_sign() {
    let args = Args::try_parse_from(&[
        "waystt-wrapper",
        "--icon=mic",
        "--icon-size=+32",
        "--position=bottom-left",
        "--margin=007",
    ])
    .unwrap();
    assert_eq!(args.icon, "mic");
    assert_eq!(args.icon_size, 32);
    assert_eq!(args.position, Position::BottomLeft);
    assert_eq!(args.margin, 7);
    assert!(args.command.is_empty());
}

#[test]
fn the_command_definition_is_consistent() {
    Args::command().debug_assert();
}

#[test]
fn errors_say_how_the_program_is_to_end() {
    let invalid = Args::try_parse_from(&["waystt-wrapper", "--icon-size", "0"]).unwrap_err();
    assert_eq!(invalid.exit_code(), 2);
    assert!(invalid.use_stderr());
    assert_eq!(
        invalid.message(),
        "error: invalid value '0' for '--icon-size <ICON_SIZE>': not a number of pixels from 1 to 2147483647\n"
    );

    let invalid = Args::from_raw(raw("1", "middle", "0")).unwrap_err();
    assert_eq!(invalid.exit_code(), 2);
    assert!(invalid.use_stderr());
    assert_eq!(
        invalid.message(),
        "error: invalid value 'middle' for '--position <POSITION>': not one of top-left, top-right, bottom-left, bottom-right, center\n"
    );

    let invalid = Args::from_raw(raw("1", "center", "-7")).unwrap_err();
    assert_eq!(invalid.exit_code(), 2);
    assert!(invalid.use_stderr());
    assert_eq!(
        invalid.message(),
        "error: invalid value '-7' for '--margin <MARGIN>': not a number of pixels from 0 to 2147483647\n"
    );

    let help = Args::try_parse_from(&["waystt-wrapper", "--help"]).unwrap_err();
    assert_eq!(help.exit_code(), 0);
    assert!(!help.use_stderr());
    assert!(help.message().contains("Usage: waystt-wrapper [OPTIONS] [COMMAND]..."));

    let unknown = Args::try_parse_from(&["waystt-wrapper", "--nope"]).unwrap_err();
    assert_eq!(unknown.exit_code(), 2);
    assert!(unknown.use_stderr());
    assert!(unknown.message().starts_with("error: unexpected argument '--nope' found"));
}

/// The settings of one argument as `clap` reports them: name, long name,
/// value names, default values, help, least number of values, trailing.
fn settings(
    arg: &clap::Arg,
) -> (String, Option<String>, Vec<String>, Vec<String>, Option<String>, Option<usize>, bool) {
    (
        arg.get_id().as_str().to_string(),
        arg.get_long().map(|name| name.to_string()),
        arg.get_value_names()
            .map(|names| names.iter().map(|name| name.to_string()).collect())
            .unwrap_or_default(),
        arg.get_default_values()
            .iter()
            .map(|value| value.to_string_lossy().into_owned())
            .collect(),
        arg.get_help().map(|help| help.to_string()),
        arg.get_num_args().map(|range| range.min_values()),
        arg.is_trailing_var_arg_set(),
    )
}

fn option(
    id: &str,
    name: &str,
    value_name: &str,
    default: &str,
    help: &str,
) -> (String, Option<String>, Vec<String>, Vec<String>, Option<String>, Option<usize>, bool) {
    (
        id.to_string(),
        Some(name.to_string()),
        vec![value_name.to_string()],
        vec![default.to_string()],
        Some(help.to_string()),
        None,
        false,
    )
}

#[test]
fn the_command_definition_holds_the_four_options_and_the_command() {
    let command = Args::command();
    assert_eq!(command.get_name(), "waystt-wrapper");
    assert_eq!(
        command.get_about().map(|about| about.to_string()),
        Some("GTK4 overlay wrapper for waystt speech-to-text".to_string())
    );
    assert_eq!(command.get_version(), Some("0.1.0"));

    let found: Vec<_> = command.get_arguments().map(settings).collect();
    assert_eq!(found.len(), 5);
    assert_eq!(
        found[0],
        option(
            "icon",
            "icon",
            "ICON",
            "audio-input-microphone-symbolic",
            "Icon name from the system theme"
        )
    );
    assert_eq!(
        found[1],
        option("icon_size", "icon-size", "ICON_SIZE", "96", "Icon size in pixels")
    );
    assert_eq!(
        found[2],
        option("position", "position", "POSITION", "center", "Position of the overlay on screen")
    );
    assert_eq!(
        found[3],
        option("margin", "margin", "MARGIN", "20", "Margin from screen edges in pixels")
    );
    assert_eq!(
        found[4],
        (
            "command".to_string(),
            None,
            vec!["COMMAND".to_string()],
            Vec::new(),
            Some("Command to execute (defaults to \"waystt --pipe-to wl-copy\")".to_string()),
            Some(0),
            true,
        )
    );
}

#[test]
fn the_help_text_shows_what_the_definition_holds() {
    let help = Args::try_parse_from(&["waystt-wrapper", "--help"]).unwrap_err().message();
    assert!(help.contains("--icon <ICON>"));
    assert!(help.contains("--icon-size <ICON_SIZE>"));
    assert!(help.contains("--position <POSITION>"));
    assert!(help.contains("--margin <MARGIN>"));
    assert!(help.contains("[COMMAND]..."));
    assert!(help.contains("Icon name from the system theme"));
    assert!(help.contains("Icon size in pixels"));
    assert!(help.contains("Position of the overlay on screen"));
    assert!(help.contains("Margin from screen edges in pixels"));
    assert!(help.contains("[default: audio-input-microphone-symbolic]"));
    assert!(help.contains("[default: 96]"));
    assert!(help.contains("[default: center]"));
    assert!(help.contains("[default: 20]"));
    let version = Args::try_parse_from(&["waystt-wrapper", "--version"]).unwrap_err().message();
    assert_eq!(version, "waystt-wrapper 0.1.0\n");
}

#[test]
fn the_first_of_several_values_is_none_for_single_options() {
    // A repeated option is refused, so an option never has a second value.
    assert!(Args::try_parse_from(&["waystt-wrapper", "--margin", "1", "--margin", "2"]).is_err());
    // The command keeps all of its values, in order.
    let args = Args::try_parse_from(&["waystt-wrapper", "--", "a", "b", "a"]).unwrap();
    assert_eq!(args.command, vec!["a", "b", "a"]);
}
