//! The supervised child: its identity, the graceful signal, the launch
//! request and the check of a finished helper command.

use vstd::prelude::*;

verus! {

/// Error number of a failed system call, as `nix` reports it.
#[verifier::external_type_specification]
#[verifier::external_body]
pub struct ExErrno(nix::errno::Errno);

/// Error of the operating system's I/O layer.
#[verifier::external_type_specification]
#[verifier::external_body]
pub struct ExIoError(std::io::Error);

/// What can go wrong when a child process is launched or signalled.
#[derive(Debug)]
pub enum ProcessError {
    /// The operating system could not create the process.
    SpawnFailed(std::io::Error),
    /// The graceful signal could not be delivered.
    SignalFailed(nix::errno::Errno),
    /// The command line holds no program to run.
    EmptyCommand,
}

/// How the run of a helper command to its end can fail.
#[derive(Debug)]
pub enum CommandError {
    /// The command could not be run or waited for.
    Io(std::io::Error),
    /// The command ran and did not succeed; its exit code, if it left one.
    Status(Option<i32>),
}

/// What becomes of one of the child's standard streams.
#[derive(Clone, Copy, Debug, PartialEq, Eq, Structural)]
pub enum StreamDisposition {
    /// The stream is closed to the child.
    Null,
    /// The child shares the supervisor's stream, untouched.
    Inherit,
}

/// A request to create the supervised process.
#[derive(Debug)]
pub struct SpawnPlan {
    /// The executable.
    pub program: String,
    /// Its arguments, in order.
    pub args: Vec<String>,
    /// Disposition of the child's standard input.
    pub stdin: StreamDisposition,
    /// Disposition of the child's standard output.
    pub stdout: StreamDisposition,
    /// Disposition of the child's standard error.
    pub stderr: StreamDisposition,
}

/// The identity of the one supervised process.
///
/// A handle is never copied: whoever holds it is the only one who may signal
/// or reap the process.
#[derive(Debug)]
pub struct ChildProcess {
    pid: u32,
}

/// Sends SIGUSR1 to the process `pid` through `nix::sys::signal::kill`.
///
/// Nothing is claimed of the outcome: it is the operating system's answer at
/// the moment of the call.
#[verifier::external_body]
fn deliver_sigusr1(pid: i32) -> (r: Result<(), nix::errno::Errno>)
    requires
        pid >= 1,
{
    nix::sys::signal::kill(nix::unistd::Pid::from_raw(pid), nix::sys::signal::Signal::SIGUSR1)
}

impl ChildProcess {
    #[verifier::type_invariant]
    spec fn is_process_id(self) -> bool {
        1 <= self.pid <= i32::MAX
    }

    /// The process identifier.
    pub closed spec fn id(&self) -> u32 {
        self.pid
    }

    /// A handle for the process `pid`, if `pid` can name a single process:
    /// it is positive and fits the system's signed process identifier.
    pub fn from_pid(pid: u32) -> (r: Option<ChildProcess>)
        ensures
            r is Some <==> 1 <= pid <= i32::MAX,
            r matches Some(child) ==> child.id() == pid,
    {
        if 1 <= pid && pid <= 0x7fff_ffff {
            Some(ChildProcess { pid })
        } else {
            None
        }
    }

    /// The process identifier.
    pub fn pid(&self) -> (r: u32)
        ensures
            r == self.id(),
            1 <= r <= i32::MAX,
    {
        proof {
            use_type_invariant(self);
        }
        self.pid
    }

    /// The launch request for `command`: the first word is the program, the
    /// rest are its arguments; standard input is closed, standard output and
    /// standard error are passed through.
    pub fn spawn_plan(command: &[String]) -> (r: Result<SpawnPlan, ProcessError>)
        ensures
            r is Err <==> command@.len() == 0,
            r matches Err(e) ==> e is EmptyCommand,
            r matches Ok(plan) ==> {
                &&& plan.program@ == command@[0]@
                &&& plan.args.deep_view() == command.deep_view().skip(1)
                &&& plan.args@.len() == command@.len() - 1
                &&& forall|k: int|
                    0 <= k < plan.args@.len() ==> (#[trigger] plan.args@[k])@ == command@[k + 1]@
                &&& plan.stdin == StreamDisposition::Null
                &&& plan.stdout == StreamDisposition::Inherit
                &&& plan.stderr == StreamDisposition::Inherit
            },
    {
        if command.len() == 0 {
            return Err(ProcessError::EmptyCommand);
        }
        let program = command[0].clone();
        let mut args: Vec<String> = Vec::new();
        let mut i: usize = 1;
        while i < command.len()
            invariant
                1 <= i <= command@.len(),
                args@.len() == i - 1,
                forall|k: int| 0 <= k < args@.len() ==> (#[trigger] args@[k])@ == command@[k + 1]@,
            decreases command@.len() - i,
        {
            args.push(command[i].clone());
            i += 1;
        }
        assert(args.deep_view() =~= command.deep_view().skip(1));
        Ok(
            SpawnPlan {
                program,
                args,
                stdin: StreamDisposition::Null,
                stdout: StreamDisposition::Inherit,
                stderr: StreamDisposition::Inherit,
            },
        )
    }

    /// Asks the process to shut down by sending it SIGUSR1. The call neither
    /// blocks nor reaps. A failure is the signal's own: the process may be
    /// gone already.
    pub fn send_sigusr1(&self) -> (r: Result<(), ProcessError>)
        ensures
            r matches Err(e) ==> e is SignalFailed,
    {
        let pid = self.pid();
        signal_outcome(deliver_sigusr1(pid as i32))
    }
}

/// The result of `send_sigusr1` for each answer of the operating system.
pub fn signal_outcome(delivered: Result<(), nix::errno::Errno>) -> (r: Result<(), ProcessError>)
    ensures
        r == match delivered {
            Ok(()) => Ok::<(), ProcessError>(()),
            Err(errno) => Err(ProcessError::SignalFailed(errno)),
        },
{
    match delivered {
        Ok(()) => Ok(()),
        Err(errno) => Err(ProcessError::SignalFailed(errno)),
    }
}

/// The program that signals processes by name.
pub const KILLALL_PROGRAM: &'static str = "killall";

/// The words of the command that signals every process called
/// `process_name`: the program, the signal if one is given, the name.
pub open spec fn killall_words(process_name: Seq<char>, signal_type: Option<Seq<char>>) -> Seq<
    Seq<char>,
> {
    match signal_type {
        Some(signal) => seq![KILLALL_PROGRAM@, signal, process_name],
        None => seq![KILLALL_PROGRAM@, process_name],
    }
}

/// The command line that signals every process called `process_name` with
/// `signal_type`, or with the facility's default signal where none is given.
pub fn killall_command(process_name: &str, signal_type: Option<&str>) -> (words: Vec<String>)
    ensures
        words.deep_view() == killall_words(
            process_name@,
            match signal_type {
                Some(signal) => Some(signal@),
                None => None,
            },
        ),
{
    let mut words: Vec<String> = Vec::new();
    words.push(KILLALL_PROGRAM.to_owned());
    match signal_type {
        Some(signal) => {
            words.push(signal.to_owned());
        },
        None => {},
    }
    words.push(process_name.to_owned());
    assert(words.deep_view() =~= killall_words(
        process_name@,
        match signal_type {
            Some(signal) => Some(signal@),
            None => None,
        },
    ));
    words
}

/// Whether a helper command that was run to its end succeeded: it did if it
/// could be run and exited with code 0.
pub fn status_checked(status: Result<Option<i32>, std::io::Error>) -> (r: Result<(), CommandError>)
    ensures
        r == match status {
            Ok(Some(0)) => Ok::<(), CommandError>(()),
            Ok(code) => Err(CommandError::Status(code)),
            Err(e) => Err(CommandError::Io(e)),
        },
{
    match status {
        Ok(code) => {
            match code {
                Some(0) => Ok(()),
                _ => Err(CommandError::Status(code)),
            }
        },
        Err(e) => Err(CommandError::Io(e)),
    }
}

} // verus!
