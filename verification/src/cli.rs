//! The command line of the supervisor.
//!
//! `clap` splits the command line into options and the trailing command.
//! What the option values have to look like is decided here: which words
//! name a position, and which numbers are an icon size or a margin.
//!
//! To the verifier the values of `clap` are opaque. What they hold has a
//! name here: the settings of an argument, the arguments and titles of a
//! command line's definition, and the values that were found on a command
//! line. The functions that call `clap` say over these names what `clap`'s
//! source shows of each call. Which command lines `clap` accepts, and which
//! word it gives to which option, is `clap`'s to decide: what it makes of a
//! definition and the words of a command line has a name too, and the
//! options that are read are stated over that name.

use vstd::prelude::*;
use crate::config::{Args, Position};
use crate::decimal::{parse_ranged, ranged_value};
use crate::error::with_detail;

verus! {

/// The definition of a command line, as `clap` holds it.
#[verifier::external_type_specification]
#[verifier::external_body]
pub struct ExCommand(clap::Command);

/// The definition of one option or positional argument, as `clap` holds it.
#[verifier::external_type_specification]
#[verifier::external_body]
pub struct ExArg(clap::Arg);

/// What `clap` found on a command line.
#[verifier::external_type_specification]
#[verifier::external_body]
pub struct ExArgMatches(clap::ArgMatches);

/// The name of the program on its command line.
pub const PROGRAM_NAME: &'static str = "waystt-wrapper";

/// What the program says of itself.
pub const PROGRAM_ABOUT: &'static str = "GTK4 overlay wrapper for waystt speech-to-text";

/// The version that the program reports.
pub const PROGRAM_VERSION: &'static str = "0.1.0";

/// The icon that is shown where none is asked for.
pub const DEFAULT_ICON: &'static str = "audio-input-microphone-symbolic";

/// The icon size, as written on a command line, where none is asked for.
pub const DEFAULT_ICON_SIZE: &'static str = "96";

/// The position, as written on a command line, where none is asked for.
pub const DEFAULT_POSITION: &'static str = "center";

/// The margin, as written on a command line, where none is asked for.
pub const DEFAULT_MARGIN: &'static str = "20";

/// The smallest icon size that is accepted.
pub const MIN_ICON_SIZE: i32 = 1;

/// The smallest margin that is accepted.
pub const MIN_MARGIN: i32 = 0;

/// A command line that `clap` did not turn into options: one that is not
/// well formed, or one that asks for the help text or the version.
#[derive(Debug)]
pub struct Usage {
    /// What is to be shown to the user.
    pub message: String,
    /// Whether the message belongs on standard error.
    pub use_stderr: bool,
    /// The exit code that the program is to end with.
    pub exit_code: i32,
}

/// Why a command line gives no options.
#[derive(Debug)]
pub enum ArgsError {
    /// The command line is not well formed, or asks for help or the version.
    Usage(Usage),
    /// The icon size is no number of at least one pixel.
    InvalidIconSize(String),
    /// The position is none of the five that exist.
    InvalidPosition(String),
    /// The margin is no number, or a negative one.
    InvalidMargin(String),
}

/// The exit code of a program whose command line was not accepted.
pub const USAGE_EXIT_CODE: i32 = 2;

impl ArgsError {
    /// The exit code that the program is to end with: what `clap` asks for
    /// where it refused the command line, and the usage code for a value
    /// that is not valid.
    pub open spec fn spec_exit_code(&self) -> i32 {
        match self {
            ArgsError::Usage(usage) => usage.exit_code,
            _ => USAGE_EXIT_CODE,
        }
    }

    /// Whether the message belongs on standard error: every message does
    /// but the help text and the version.
    pub open spec fn spec_use_stderr(&self) -> bool {
        match self {
            ArgsError::Usage(usage) => usage.use_stderr,
            _ => true,
        }
    }

    /// What is to be shown to the user.
    pub open spec fn spec_message(&self) -> Seq<char> {
        match self {
            ArgsError::Usage(usage) => usage.message@,
            ArgsError::InvalidIconSize(value) => "error: invalid value '"@ + value@
                + "' for '--icon-size <ICON_SIZE>': not a number of pixels from 1 to 2147483647\n"@,
            ArgsError::InvalidPosition(value) => "error: invalid value '"@ + value@
                + "' for '--position <POSITION>': not one of top-left, top-right, bottom-left, bottom-right, center\n"@,
            ArgsError::InvalidMargin(value) => "error: invalid value '"@ + value@
                + "' for '--margin <MARGIN>': not a number of pixels from 0 to 2147483647\n"@,
        }
    }

    /// The exit code that the program is to end with.
    pub fn exit_code(&self) -> (code: i32)
        ensures
            code == self.spec_exit_code(),
    {
        match self {
            ArgsError::Usage(usage) => usage.exit_code,
            _ => USAGE_EXIT_CODE,
        }
    }

    /// Whether the message belongs on standard error.
    pub fn use_stderr(&self) -> (r: bool)
        ensures
            r == self.spec_use_stderr(),
    {
        match self {
            ArgsError::Usage(usage) => usage.use_stderr,
            _ => true,
        }
    }

    /// What is to be shown to the user.
    pub fn message(&self) -> (text: String)
        ensures
            text@ == self.spec_message(),
    {
        match self {
            ArgsError::Usage(usage) => usage.message.clone(),
            ArgsError::InvalidIconSize(value) => with_detail(
                "error: invalid value '",
                value.clone(),
            ).concat(
                "' for '--icon-size <ICON_SIZE>': not a number of pixels from 1 to 2147483647\n",
            ),
            ArgsError::InvalidPosition(value) => with_detail(
                "error: invalid value '",
                value.clone(),
            ).concat(
                "' for '--position <POSITION>': not one of top-left, top-right, bottom-left, bottom-right, center\n",
            ),
            ArgsError::InvalidMargin(value) => with_detail(
                "error: invalid value '",
                value.clone(),
            ).concat(
                "' for '--margin <MARGIN>': not a number of pixels from 0 to 2147483647\n",
            ),
        }
    }
}

/// The option values as they stand on the command line, defaults filled in.
#[derive(Debug)]
pub struct RawArgs {
    /// The icon name.
    pub icon: String,
    /// The icon size, as text.
    pub icon_size: String,
    /// The position, as text.
    pub position: String,
    /// The margin, as text.
    pub margin: String,
    /// The trailing command.
    pub command: Vec<String>,
}

impl RawArgs {
    /// Whether these are the option values that were found on a command
    /// line: of each option its first value, or its default where it has
    /// none, and every word of the command.
    pub open spec fn reads(&self, found: Map<Seq<char>, Seq<Seq<char>>>) -> bool {
        &&& self.icon@ == chosen_value(found, "icon"@, DEFAULT_ICON@)
        &&& self.icon_size@ == chosen_value(found, "icon_size"@, DEFAULT_ICON_SIZE@)
        &&& self.position@ == chosen_value(found, "position"@, DEFAULT_POSITION@)
        &&& self.margin@ == chosen_value(found, "margin"@, DEFAULT_MARGIN@)
        &&& self.command.deep_view() == all_values(found, "command"@)
    }
}

/// The position that `name` stands for on the command line.
pub open spec fn position_named(name: Seq<char>) -> Option<Position> {
    if name == "top-left"@ {
        Some(Position::TopLeft)
    } else if name == "top-right"@ {
        Some(Position::TopRight)
    } else if name == "bottom-left"@ {
        Some(Position::BottomLeft)
    } else if name == "bottom-right"@ {
        Some(Position::BottomRight)
    } else if name == "center"@ {
        Some(Position::Center)
    } else {
        None
    }
}

/// Whether two strings hold the same characters.
fn same_text(a: &str, b: &str) -> (r: bool)
    ensures
        r == (a@ == b@),
{
    a.to_owned() == b.to_owned()
}

impl Position {
    /// The position that `name` stands for on the command line.
    pub fn from_name(name: &str) -> (r: Option<Position>)
        ensures
            r == position_named(name@),
    {
        if same_text(name, "top-left") {
            Some(Position::TopLeft)
        } else if same_text(name, "top-right") {
            Some(Position::TopRight)
        } else if same_text(name, "bottom-left") {
            Some(Position::BottomLeft)
        } else if same_text(name, "bottom-right") {
            Some(Position::BottomRight)
        } else if same_text(name, "center") {
            Some(Position::Center)
        } else {
            None
        }
    }

    /// The word that stands for the position on the command line.
    pub fn name(self) -> (r: &'static str)
        ensures
            position_named(r@) == Some(self),
    {
        proof {
            reveal_strlit("top-left");
            reveal_strlit("top-right");
            reveal_strlit("bottom-left");
            reveal_strlit("bottom-right");
            reveal_strlit("center");
            assert("top-left"@.len() == 8);
            assert("top-right"@.len() == 9);
            assert("bottom-left"@.len() == 11);
            assert("bottom-right"@.len() == 12);
            assert("center"@.len() == 6);
        }
        match self {
            Position::TopLeft => "top-left",
            Position::TopRight => "top-right",
            Position::BottomLeft => "bottom-left",
            Position::BottomRight => "bottom-right",
            Position::Center => "center",
        }
    }
}

/// The options that the raw values stand for, or the first of icon size,
/// position and margin that is not valid.
pub open spec fn validated(raw: RawArgs) -> Result<Args, ArgsError> {
    match ranged_value(raw.icon_size@, MIN_ICON_SIZE) {
        None => Err(ArgsError::InvalidIconSize(raw.icon_size)),
        Some(icon_size) => match position_named(raw.position@) {
            None => Err(ArgsError::InvalidPosition(raw.position)),
            Some(position) => match ranged_value(raw.margin@, MIN_MARGIN) {
                None => Err(ArgsError::InvalidMargin(raw.margin)),
                Some(margin) => Ok(
                    Args { icon: raw.icon, icon_size, position, margin, command: raw.command },
                ),
            },
        },
    }
}

/// The settings of one argument of a command line, as far as this library
/// makes them.
pub struct ArgSpec {
    /// The name by which the argument's values are asked for.
    pub id: Seq<char>,
    /// The name after `--`, for an option; none for a positional argument.
    pub long: Option<Seq<char>>,
    /// The placeholder for the value in the help text, where there is one.
    pub value_name: Option<Seq<char>>,
    /// The value where the command line gives none, where there is one.
    pub default_value: Option<Seq<char>>,
    /// The help text.
    pub help: Option<Seq<char>>,
    /// The least number of values, where the number of values is set.
    pub min_values: Option<usize>,
    /// Whether the argument takes every word that follows its first value.
    pub trailing_var_arg: bool,
}

/// What a program says of itself on its command line.
pub struct CommandTitles {
    /// The name of the program.
    pub name: Seq<char>,
    /// The description of the program.
    pub about: Option<Seq<char>>,
    /// The version of the program.
    pub version: Option<Seq<char>>,
}

/// The settings that a `clap::Arg` holds.
pub uninterp spec fn arg_spec(arg: clap::Arg) -> ArgSpec;

/// The arguments that a `clap::Command` holds, in the order in which they
/// were added.
pub uninterp spec fn command_args(command: clap::Command) -> Seq<ArgSpec>;

/// The titles that a `clap::Command` holds.
pub uninterp spec fn command_titles(command: clap::Command) -> CommandTitles;

/// The values that a `clap::ArgMatches` holds: for each argument that is
/// present with values of text, by its name, its values in the order in
/// which they were found.
pub uninterp spec fn matched_values(matches: clap::ArgMatches) -> Map<Seq<char>, Seq<Seq<char>>>;

/// How `clap` refuses a command line: where its message belongs and the exit
/// code that it asks for.
pub struct Refusal {
    /// Whether the message belongs on standard error.
    pub use_stderr: bool,
    /// The exit code that the program is to end with.
    pub exit_code: i32,
}

/// What `clap` makes of the words of a command line, the first of which is
/// the program's name, under a definition with these titles and arguments:
/// the values that it finds, or how it refuses.
pub uninterp spec fn clap_finds(
    titles: CommandTitles,
    args: Seq<ArgSpec>,
    words: Seq<Seq<char>>,
) -> Result<Map<Seq<char>, Seq<Seq<char>>>, Refusal>;

/// An argument that is named `id` and has no other setting.
pub open spec fn bare_arg(id: Seq<char>) -> ArgSpec {
    ArgSpec {
        id,
        long: None,
        value_name: None,
        default_value: None,
        help: None,
        min_values: None,
        trailing_var_arg: false,
    }
}

/// An option `--name` that takes one value and has a default.
pub open spec fn option_spec(
    id: Seq<char>,
    name: Seq<char>,
    value_name: Seq<char>,
    default: Seq<char>,
    help: Seq<char>,
) -> ArgSpec {
    ArgSpec {
        long: Some(name),
        value_name: Some(value_name),
        default_value: Some(default),
        help: Some(help),
        ..bare_arg(id)
    }
}

/// A positional argument that takes every word from its first value on,
/// and may have no value at all.
pub open spec fn trailing_spec(id: Seq<char>, value_name: Seq<char>, help: Seq<char>) -> ArgSpec {
    ArgSpec {
        value_name: Some(value_name),
        help: Some(help),
        min_values: Some(0),
        trailing_var_arg: true,
        ..bare_arg(id)
    }
}

/// The titles of the supervisor's command line.
pub open spec fn program_titles() -> CommandTitles {
    CommandTitles {
        name: PROGRAM_NAME@,
        about: Some(PROGRAM_ABOUT@),
        version: Some(PROGRAM_VERSION@),
    }
}

/// The arguments of the supervisor's command line: the four options, each
/// with its default, and then the command to supervise.
pub open spec fn program_args() -> Seq<ArgSpec> {
    seq![
        option_spec(
            "icon"@,
            "icon"@,
            "ICON"@,
            DEFAULT_ICON@,
            "Icon name from the system theme"@,
        ),
        option_spec(
            "icon_size"@,
            "icon-size"@,
            "ICON_SIZE"@,
            DEFAULT_ICON_SIZE@,
            "Icon size in pixels"@,
        ),
        option_spec(
            "position"@,
            "position"@,
            "POSITION"@,
            DEFAULT_POSITION@,
            "Position of the overlay on screen"@,
        ),
        option_spec(
            "margin"@,
            "margin"@,
            "MARGIN"@,
            DEFAULT_MARGIN@,
            "Margin from screen edges in pixels"@,
        ),
        trailing_spec(
            "command"@,
            "COMMAND"@,
            "Command to execute (defaults to \"waystt --pipe-to wl-copy\")"@,
        ),
    ]
}

/// The first value that was found for the argument `id`, if there is one.
pub open spec fn first_value(found: Map<Seq<char>, Seq<Seq<char>>>, id: Seq<char>) -> Option<
    Seq<char>,
> {
    if found.contains_key(id) && found[id].len() > 0 {
        Some(found[id][0])
    } else {
        None
    }
}

/// All values that were found for the argument `id`, in order.
pub open spec fn all_values(found: Map<Seq<char>, Seq<Seq<char>>>, id: Seq<char>) -> Seq<
    Seq<char>,
> {
    if found.contains_key(id) {
        found[id]
    } else {
        Seq::empty()
    }
}

/// The first value that was found for the argument `id`, or `default`
/// where there is none.
pub open spec fn chosen_value(
    found: Map<Seq<char>, Seq<Seq<char>>>,
    id: Seq<char>,
    default: Seq<char>,
) -> Seq<char> {
    match first_value(found, id) {
        Some(value) => value,
        None => default,
    }
}

/// Starts the definition of a command line with `clap::Command::new`: it
/// has the name and nothing else.
#[verifier::external_body]
fn command_new(name: &'static str) -> (r: clap::Command)
    ensures
        command_titles(r) == (CommandTitles { name: name@, about: None, version: None }),
        command_args(r) == Seq::<ArgSpec>::empty(),
{
    clap::Command::new(name)
}

/// Sets the description of the program with `clap::Command::about`; the
/// rest of the definition stays.
#[verifier::external_body]
fn command_about(command: clap::Command, about: &'static str) -> (r: clap::Command)
    ensures
        command_titles(r) == (CommandTitles { about: Some(about@), ..command_titles(command) }),
        command_args(r) == command_args(command),
{
    command.about(about)
}

/// Sets the version that the program reports with
/// `clap::Command::version`; the rest of the definition stays.
#[verifier::external_body]
fn command_version(command: clap::Command, version: &'static str) -> (r: clap::Command)
    ensures
        command_titles(r) == (CommandTitles {
            version: Some(version@),
            ..command_titles(command)
        }),
        command_args(r) == command_args(command),
{
    command.version(version)
}

/// Adds an argument to the command line with `clap::Command::arg`: it
/// comes after the arguments that are there, with the settings it has.
#[verifier::external_body]
fn command_arg(command: clap::Command, arg: clap::Arg) -> (r: clap::Command)
    ensures
        command_titles(r) == command_titles(command),
        command_args(r) == command_args(command).push(arg_spec(arg)),
{
    command.arg(arg)
}

/// Starts the definition of an argument with `clap::Arg::new`: it has the
/// name and no other setting. Until it is given a long name, the argument
/// is positional.
#[verifier::external_body]
fn arg_new(id: &'static str) -> (r: clap::Arg)
    ensures
        arg_spec(r) == bare_arg(id@),
{
    clap::Arg::new(id)
}

/// Makes the argument an option `--name` with `clap::Arg::long`; its other
/// settings stay.
#[verifier::external_body]
fn arg_long(arg: clap::Arg, name: &'static str) -> (r: clap::Arg)
    ensures
        arg_spec(r) == (ArgSpec { long: Some(name@), ..arg_spec(arg) }),
{
    arg.long(name)
}

/// Sets the placeholder that stands for the argument's value in the help
/// text, with `clap::Arg::value_name`; its other settings stay.
#[verifier::external_body]
fn arg_value_name(arg: clap::Arg, name: &'static str) -> (r: clap::Arg)
    ensures
        arg_spec(r) == (ArgSpec { value_name: Some(name@), ..arg_spec(arg) }),
{
    arg.value_name(name)
}

/// Sets the help text of the argument with `clap::Arg::help`; its other
/// settings stay.
#[verifier::external_body]
fn arg_help(arg: clap::Arg, help: &'static str) -> (r: clap::Arg)
    ensures
        arg_spec(r) == (ArgSpec { help: Some(help@), ..arg_spec(arg) }),
{
    arg.help(help)
}

/// Sets the value that the argument has where the command line gives none,
/// with `clap::Arg::default_value`; its other settings stay.
#[verifier::external_body]
fn arg_default_value(arg: clap::Arg, value: &'static str) -> (r: clap::Arg)
    ensures
        arg_spec(r) == (ArgSpec { default_value: Some(value@), ..arg_spec(arg) }),
{
    arg.default_value(value)
}

/// Lets the argument take `min` values or more with `clap::Arg::num_args`;
/// its other settings stay.
#[verifier::external_body]
fn arg_num_args_from(arg: clap::Arg, min: usize) -> (r: clap::Arg)
    ensures
        arg_spec(r) == (ArgSpec { min_values: Some(min), ..arg_spec(arg) }),
{
    arg.num_args(min..)
}

/// Lets the argument take everything that follows its first value, options
/// too, with `clap::Arg::trailing_var_arg`; its other settings stay.
#[verifier::external_body]
fn arg_trailing_var_arg(arg: clap::Arg, yes: bool) -> (r: clap::Arg)
    ensures
        arg_spec(r) == (ArgSpec { trailing_var_arg: yes, ..arg_spec(arg) }),
{
    arg.trailing_var_arg(yes)
}

/// Reads a command line with `clap::Command::try_get_matches_from`; the
/// first word is the program's name. An error of `clap` comes back as its
/// text, its stream and its exit code.
///
/// Debug builds of `clap` assert that a definition is free of
/// contradictions, so the call is made with the supervisor's definition
/// only, which is. What comes back is what `clap` makes of the definition
/// and the words: the values that it found, or where the message of its
/// refusal belongs and the exit code it asks for. Nothing is claimed of the
/// message itself.
#[verifier::external_body]
fn command_try_get_matches_from(command: clap::Command, argv: Vec<String>) -> (r: Result<
    clap::ArgMatches,
    Usage,
>)
    requires
        command_titles(command) == program_titles(),
        command_args(command) == program_args(),
    ensures
        match r {
            Ok(matches) => clap_finds(
                command_titles(command),
                command_args(command),
                argv.deep_view(),
            ) == Ok::<Map<Seq<char>, Seq<Seq<char>>>, Refusal>(matched_values(matches)),
            Err(usage) => clap_finds(
                command_titles(command),
                command_args(command),
                argv.deep_view(),
            ) == Err::<Map<Seq<char>, Seq<Seq<char>>>, Refusal>(
                Refusal { use_stderr: usage.use_stderr, exit_code: usage.exit_code },
            ),
        },
{
    match command.try_get_matches_from(argv) {
        Ok(matches) => Ok(matches),
        Err(e) => Err(
            Usage { message: e.to_string(), use_stderr: e.use_stderr(), exit_code: e.exit_code() },
        ),
    }
}

/// The first value of the argument `id`, read with
/// `clap::ArgMatches::try_get_one`; none where the argument is unknown, is
/// absent, or has no value of text.
#[verifier::external_body]
fn matches_get_one(matches: &clap::ArgMatches, id: &str) -> (r: Option<String>)
    ensures
        r matches Some(value) ==> first_value(matched_values(*matches), id@) == Some(value@),
        r is None ==> first_value(matched_values(*matches), id@) is None,
{
    matches.try_get_one::<String>(id).ok().flatten().cloned()
}

/// The values of the argument `id` in the order given, read with
/// `clap::ArgMatches::try_get_many`; empty where the argument is unknown, is
/// absent, or has no value of text.
#[verifier::external_body]
fn matches_get_many(matches: &clap::ArgMatches, id: &str) -> (r: Vec<String>)
    ensures
        r.deep_view() == all_values(matched_values(*matches), id@),
{
    let values = matches.try_get_many::<String>(id).ok().flatten();
    values.map(|v| v.cloned().collect()).unwrap_or_default()
}

/// An option `--name` that takes one value and has a default.
fn option_with_default(
    id: &'static str,
    name: &'static str,
    value_name: &'static str,
    default: &'static str,
    help: &'static str,
) -> (option: clap::Arg)
    ensures
        arg_spec(option) == option_spec(id@, name@, value_name@, default@, help@),
{
    let option = arg_value_name(arg_long(arg_new(id), name), value_name);
    arg_help(arg_default_value(option, default), help)
}

/// The value of the option `id`, or `default` where `clap` reports none.
fn value_or(matches: &clap::ArgMatches, id: &str, default: &str) -> (value: String)
    ensures
        value@ == chosen_value(matched_values(*matches), id@, default@),
{
    match matches_get_one(matches, id) {
        Some(value) => value,
        None => default.to_owned(),
    }
}

impl Args {
    /// The definition of the supervisor's command line: the four options,
    /// each with its default, and the command to supervise, which takes
    /// every word from its first on.
    pub fn command() -> (command: clap::Command)
        ensures
            command_titles(command) == program_titles(),
            command_args(command) == program_args(),
    {
        let command = command_version(
            command_about(command_new(PROGRAM_NAME), PROGRAM_ABOUT),
            PROGRAM_VERSION,
        );
        let command = command_arg(
            command,
            option_with_default(
                "icon",
                "icon",
                "ICON",
                DEFAULT_ICON,
                "Icon name from the system theme",
            ),
        );
        let command = command_arg(
            command,
            option_with_default(
                "icon_size",
                "icon-size",
                "ICON_SIZE",
                DEFAULT_ICON_SIZE,
                "Icon size in pixels",
            ),
        );
        let command = command_arg(
            command,
            option_with_default(
                "position",
                "position",
                "POSITION",
                DEFAULT_POSITION,
                "Position of the overlay on screen",
            ),
        );
        let command = command_arg(
            command,
            option_with_default(
                "margin",
                "margin",
                "MARGIN",
                DEFAULT_MARGIN,
                "Margin from screen edges in pixels",
            ),
        );
        command_arg(
            command,
            arg_help(
                arg_trailing_var_arg(
                    arg_num_args_from(arg_value_name(arg_new("command"), "COMMAND"), 0),
                    true,
                ),
                "Command to execute (defaults to \"waystt --pipe-to wl-copy\")",
            ),
        )
    }

    /// The options that the raw values stand for. The icon size has to be a
    /// number of at least 1, the position one of the five names, the margin
    /// a number of at least 0; the first of them that is not is the error.
    pub fn from_raw(raw: RawArgs) -> (r: Result<Args, ArgsError>)
        ensures
            r == validated(raw),
            r matches Ok(args) ==> args.in_range(),
    {
        let icon_size = match parse_ranged(raw.icon_size.as_str(), MIN_ICON_SIZE) {
            Some(v) => v,
            None => {
                return Err(ArgsError::InvalidIconSize(raw.icon_size));
            },
        };
        let position = match Position::from_name(raw.position.as_str()) {
            Some(p) => p,
            None => {
                return Err(ArgsError::InvalidPosition(raw.position));
            },
        };
        let margin = match parse_ranged(raw.margin.as_str(), MIN_MARGIN) {
            Some(v) => v,
            None => {
                return Err(ArgsError::InvalidMargin(raw.margin));
            },
        };
        Ok(Args { icon: raw.icon, icon_size, position, margin, command: raw.command })
    }

    /// The option values that `clap` found, each with its default where the
    /// command line gave none.
    fn raw_from_matches(matches: &clap::ArgMatches) -> (raw: RawArgs)
        ensures
            raw.reads(matched_values(*matches)),
    {
        RawArgs {
            icon: value_or(matches, "icon", DEFAULT_ICON),
            icon_size: value_or(matches, "icon_size", DEFAULT_ICON_SIZE),
            position: value_or(matches, "position", DEFAULT_POSITION),
            margin: value_or(matches, "margin", DEFAULT_MARGIN),
            command: matches_get_many(matches, "command"),
        }
    }

    /// Reads the options from a command line whose first word is the
    /// program's name.
    ///
    /// `clap` decides, under the supervisor's definition, whether the
    /// command line is well formed and which word belongs to which option.
    /// Where it refuses, the result is its refusal. Where it finds values,
    /// the result is what they stand for: the options, or the first of icon
    /// size, position and margin that is not valid. Options that come out
    /// are in range.
    pub fn try_parse_from(argv: &[&str]) -> (r: Result<Args, ArgsError>)
        ensures
            r matches Ok(args) ==> args.in_range(),
            match clap_finds(program_titles(), program_args(), argv.deep_view()) {
                Ok(found) => exists|raw: RawArgs| raw.reads(found) && r == validated(raw),
                Err(refusal) => {
                    &&& r matches Err(ArgsError::Usage(usage))
                    &&& usage.use_stderr == refusal.use_stderr
                    &&& usage.exit_code == refusal.exit_code
                },
            },
    {
        let mut words: Vec<String> = Vec::new();
        let mut i: usize = 0;
        while i < argv.len()
            invariant
                i <= argv@.len(),
                words@.len() == i,
                forall|k: int| 0 <= k < i ==> (#[trigger] words@[k])@ == argv@[k]@,
            decreases argv@.len() - i,
        {
            words.push(argv[i].to_owned());
            i += 1;
        }
        assert(words.deep_view() =~= argv.deep_view());
        match command_try_get_matches_from(Args::command(), words) {
            Ok(matches) => {
                let raw = Args::raw_from_matches(&matches);
                let ghost read = raw;
                let r = Args::from_raw(raw);
                assert(read.reads(matched_values(matches)) && r == validated(read));
                r
            },
            Err(usage) => Err(ArgsError::Usage(usage)),
        }
    }
}

} // verus!
