//! Supervision of one external command behind a transient status surface.
//!
//! The crate holds the decisions of the supervisor: how a command line
//! becomes a launch request, which of the three termination triggers owns
//! the child, what is signalled, and which exit code the run ends with. The
//! surface itself, the spawning of the process and the blocking wait are the
//! caller's work; they enter the library as plain values.

pub mod cli;
pub mod config;
pub mod decimal;
pub mod error;
pub mod gesture;
pub mod laws;
pub mod overlay;
pub mod process;
pub mod supervisor;

pub use cli::{ArgsError, RawArgs, Usage};
pub use config::{Args, Config, Position};
pub use error::WaysttWrapperError;
pub use gesture::{Key, KeyResponse, Modifiers, Propagation};
pub use overlay::{Anchors, OverlayLayout, SurfaceStatus};
pub use process::{ChildProcess, CommandError, ProcessError, SpawnPlan, StreamDisposition};
pub use supervisor::{
    CancelAction, DismissAction, Phase, PollAction, PollObservation, StartupAction,
    StartupOutcome, Supervisor, TerminationReason, WaitAction, WaitOutcome,
};
