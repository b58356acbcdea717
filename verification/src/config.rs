//! What the supervisor is configured with: the look and place of the status
//! surface and the command to supervise.

use vstd::prelude::*;

verus! {

/// Where on the screen the status surface is placed.
#[derive(Debug, Clone, Copy, PartialEq, Eq, Structural)]
pub enum Position {
    /// The top left corner.
    TopLeft,
    /// The top right corner.
    TopRight,
    /// The bottom left corner.
    BottomLeft,
    /// The bottom right corner.
    BottomRight,
    /// The middle of the screen.
    Center,
}

impl Default for Position {
    fn default() -> (position: Position)
        ensures
            position == Position::Center,
    {
        Position::Center
    }
}

/// The options as they are given on the command line.
#[derive(Debug)]
pub struct Args {
    /// Icon name from the system theme.
    pub icon: String,
    /// Icon size in pixels.
    pub icon_size: i32,
    /// Position of the surface on the screen.
    pub position: Position,
    /// Margin from the screen edges in pixels.
    pub margin: i32,
    /// The command to supervise; empty where none was given.
    pub command: Vec<String>,
}

/// The configuration of a run.
#[derive(Debug)]
pub struct Config {
    /// Icon name from the system theme.
    pub icon: String,
    /// Icon size in pixels.
    pub icon_size: i32,
    /// Position of the surface on the screen.
    pub position: Position,
    /// Margin from the screen edges in pixels.
    pub margin: i32,
    /// The command to supervise.
    pub command: Vec<String>,
}

/// The command that is supervised where the command line names none.
pub open spec fn default_command() -> Seq<Seq<char>> {
    seq!["waystt"@, "--pipe-to"@, "wl-copy"@]
}

/// The command that is supervised, given the one on the command line.
pub open spec fn effective_command(given: Seq<Seq<char>>) -> Seq<Seq<char>> {
    if given.len() == 0 {
        default_command()
    } else {
        given
    }
}

impl Args {
    /// Whether the options are in the ranges that the command line admits:
    /// an icon of at least one pixel and a margin that is not negative.
    pub open spec fn in_range(&self) -> bool {
        self.icon_size >= 1 && self.margin >= 0
    }
}

impl vstd::std_specs::convert::FromSpecImpl<Args> for Config {
    /// The conversion is specified on the fields' views, by the contract of
    /// `from` itself, and not by a function from value to value.
    open spec fn obeys_from_spec() -> bool {
        false
    }

    open spec fn from_spec(args: Args) -> Config {
        Config {
            icon: args.icon,
            icon_size: args.icon_size,
            position: args.position,
            margin: args.margin,
            command: args.command,
        }
    }
}

impl From<Args> for Config {
    /// The configuration that `args` ask for: every option as it was given,
    /// and the default command in place of an empty one.
    fn from(args: Args) -> (config: Config)
        ensures
            config.icon@ == args.icon@,
            config.icon_size == args.icon_size,
            config.position == args.position,
            config.margin == args.margin,
            config.command.deep_view() == effective_command(args.command.deep_view()),
            config.command@.len() >= 1,
    {
        let command = if args.command.len() == 0 {
            let mut words: Vec<String> = Vec::new();
            words.push("waystt".to_owned());
            words.push("--pipe-to".to_owned());
            words.push("wl-copy".to_owned());
            assert(words.deep_view() =~= default_command());
            words
        } else {
            args.command
        };
        Config {
            icon: args.icon,
            icon_size: args.icon_size,
            position: args.position,
            margin: args.margin,
            command,
        }
    }
}

} // verus!
