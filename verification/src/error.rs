//! The errors of the supervisor as a whole, and the text of every error of
//! the library.

use vstd::prelude::*;
use vstd::string::*;
use crate::process::{CommandError, ProcessError};

verus! {

/// What can end a run before it has begun.
#[derive(Debug)]
pub enum WaysttWrapperError {
    /// The operating system could not create the process.
    SpawnFailed(std::io::Error),
    /// A signal could not be delivered to the child.
    SignalFailed(nix::errno::Errno),
    /// The compositor offers no layer shell to place the surface with.
    LayerShellNotSupported,
    /// The configuration cannot be used.
    ConfigError(String),
}

/// `headline` followed by `detail`.
pub(crate) fn with_detail(headline: &str, detail: String) -> (text: String)
    ensures
        text@ == headline@ + detail@,
{
    headline.to_owned().concat(detail.as_str())
}

impl vstd::std_specs::convert::FromSpecImpl<std::io::Error> for WaysttWrapperError {
    open spec fn obeys_from_spec() -> bool {
        true
    }

    open spec fn from_spec(error: std::io::Error) -> WaysttWrapperError {
        WaysttWrapperError::SpawnFailed(error)
    }
}

impl From<std::io::Error> for WaysttWrapperError {
    fn from(error: std::io::Error) -> (e: WaysttWrapperError) {
        WaysttWrapperError::SpawnFailed(error)
    }
}

impl vstd::std_specs::convert::FromSpecImpl<nix::errno::Errno> for WaysttWrapperError {
    open spec fn obeys_from_spec() -> bool {
        true
    }

    open spec fn from_spec(errno: nix::errno::Errno) -> WaysttWrapperError {
        WaysttWrapperError::SignalFailed(errno)
    }
}

impl From<nix::errno::Errno> for WaysttWrapperError {
    fn from(errno: nix::errno::Errno) -> (e: WaysttWrapperError) {
        WaysttWrapperError::SignalFailed(errno)
    }
}

impl vstd::std_specs::convert::FromSpecImpl<std::io::Error> for ProcessError {
    open spec fn obeys_from_spec() -> bool {
        true
    }

    open spec fn from_spec(error: std::io::Error) -> ProcessError {
        ProcessError::SpawnFailed(error)
    }
}

impl From<std::io::Error> for ProcessError {
    fn from(error: std::io::Error) -> (e: ProcessError) {
        ProcessError::SpawnFailed(error)
    }
}

impl vstd::std_specs::convert::FromSpecImpl<std::io::Error> for CommandError {
    open spec fn obeys_from_spec() -> bool {
        true
    }

    open spec fn from_spec(error: std::io::Error) -> CommandError {
        CommandError::Io(error)
    }
}

impl From<std::io::Error> for CommandError {
    fn from(error: std::io::Error) -> (e: CommandError) {
        CommandError::Io(error)
    }
}

impl WaysttWrapperError {
    /// What every text of this error begins with; the whole text where the
    /// error carries no cause of its own.
    pub open spec fn headline(&self) -> Seq<char> {
        match self {
            WaysttWrapperError::SpawnFailed(_) => "Failed to spawn waystt process: "@,
            WaysttWrapperError::SignalFailed(_) => "Failed to send signal to child process: "@,
            WaysttWrapperError::LayerShellNotSupported =>
                "Layer shell not supported on this compositor"@,
            WaysttWrapperError::ConfigError(_) => "Configuration error: "@,
        }
    }

    /// The error in words: the headline, followed by the cause where there
    /// is one, as the cause shows itself.
    pub fn message(&self) -> (text: String)
        ensures
            self.headline().is_prefix_of(text@),
            self matches WaysttWrapperError::SpawnFailed(error) ==> exists|detail: String|
                {
                    &&& to_string_from_display_ensures::<std::io::Error>(&error, detail)
                    &&& text@ == self.headline() + detail@
                },
            self matches WaysttWrapperError::SignalFailed(errno) ==> exists|detail: String|
                {
                    &&& to_string_from_display_ensures::<nix::errno::Errno>(&errno, detail)
                    &&& text@ == self.headline() + detail@
                },
            self is LayerShellNotSupported ==> text@ == self.headline(),
            self matches WaysttWrapperError::ConfigError(detail) ==> text@ == self.headline()
                + detail@,
    {
        match self {
            WaysttWrapperError::SpawnFailed(error) => with_detail(
                "Failed to spawn waystt process: ",
                error.to_string(),
            ),
            WaysttWrapperError::SignalFailed(errno) => with_detail(
                "Failed to send signal to child process: ",
                errno.to_string(),
            ),
            WaysttWrapperError::LayerShellNotSupported =>
                "Layer shell not supported on this compositor".to_owned(),
            WaysttWrapperError::ConfigError(detail) => with_detail(
                "Configuration error: ",
                detail.clone(),
            ),
        }
    }
}

impl ProcessError {
    /// What every text of this error begins with; the whole text where the
    /// error carries no cause of its own.
    pub open spec fn headline(&self) -> Seq<char> {
        match self {
            ProcessError::SpawnFailed(_) => "failed to spawn child process: "@,
            ProcessError::SignalFailed(_) => "failed to send signal to child process: "@,
            ProcessError::EmptyCommand => "no command specified"@,
        }
    }

    /// The error in words: the headline, followed by the cause where there
    /// is one, as the cause shows itself.
    pub fn message(&self) -> (text: String)
        ensures
            self.headline().is_prefix_of(text@),
            self matches ProcessError::SpawnFailed(error) ==> exists|detail: String|
                {
                    &&& to_string_from_display_ensures::<std::io::Error>(&error, detail)
                    &&& text@ == self.headline() + detail@
                },
            self matches ProcessError::SignalFailed(errno) ==> exists|detail: String|
                {
                    &&& to_string_from_display_ensures::<nix::errno::Errno>(&errno, detail)
                    &&& text@ == self.headline() + detail@
                },
            self is EmptyCommand ==> text@ == self.headline(),
    {
        match self {
            ProcessError::SpawnFailed(error) => with_detail(
                "failed to spawn child process: ",
                error.to_string(),
            ),
            ProcessError::SignalFailed(errno) => with_detail(
                "failed to send signal to child process: ",
                errno.to_string(),
            ),
            ProcessError::EmptyCommand => "no command specified".to_owned(),
        }
    }
}

impl CommandError {
    /// What every text of this error begins with.
    pub open spec fn headline(&self) -> Seq<char> {
        match self {
            CommandError::Io(_) => Seq::empty(),
            CommandError::Status(_) => "child process exited with failure exit status: "@,
        }
    }

    /// The error in words: the cause as it shows itself for an I/O error,
    /// and the headline followed by the exit code as it shows itself, or by
    /// `none` where there is no code, for a command that failed.
    pub fn message(&self) -> (text: String)
        ensures
            self.headline().is_prefix_of(text@),
            self matches CommandError::Io(error) ==> to_string_from_display_ensures::<
                std::io::Error,
            >(&error, text),
            self matches CommandError::Status(Some(code)) ==> exists|detail: String|
                {
                    &&& to_string_from_display_ensures::<i32>(&code, detail)
                    &&& text@ == self.headline() + detail@
                },
            self matches CommandError::Status(None) ==> text@ == self.headline() + "none"@,
    {
        match self {
            CommandError::Io(error) => error.to_string(),
            CommandError::Status(code) => with_detail(
                "child process exited with failure exit status: ",
                match code {
                    Some(c) => c.to_string(),
                    None => "none".to_owned(),
                },
            ),
        }
    }
}

} // verus!
