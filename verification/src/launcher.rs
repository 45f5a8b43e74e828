//! Starting an instance's server process and judging how it ended.

use vstd::prelude::*;
use crate::instance::Instance;

verus! {

/// The pieces of `parts` joined with `sep` between each two.
pub open spec fn joined(parts: Seq<Seq<char>>, sep: Seq<char>) -> Seq<char>
    decreases parts.len(),
{
    if parts.len() == 0 {
        Seq::empty()
    } else if parts.len() == 1 {
        parts[0]
    } else {
        joined(parts.drop_last(), sep) + sep + parts.last()
    }
}

/// Joins strings with a separator, as `[String]::join` does.
pub fn join_strings(parts: &Vec<String>, sep: &str) -> (r: String)
    ensures
        r@ == joined(parts.deep_view(), sep@),
{
    let mut r = String::new();
    let mut i: usize = 0;
    while i < parts.len()
        invariant
            i <= parts@.len(),
            r@ == joined(parts.deep_view().take(i as int), sep@),
        decreases parts@.len() - i,
    {
        proof {
            assert(parts.deep_view().take(i + 1).drop_last() =~= parts.deep_view().take(i as int));
            assert(parts.deep_view().take(i + 1).last() == parts@[i as int]@);
        }
        if i > 0 {
            r.append(sep);
        } else {
            assert(parts.deep_view().take(1) =~= seq![parts@[0]@]);
        }
        r.append(parts[i].as_str());
        i = i + 1;
    }
    assert(parts.deep_view().take(parts@.len() as int) =~= parts.deep_view());
    r
}

/// How to start a server process: program, working folder, arguments,
/// whether the process dies with its handle, and whether its standard output
/// is read line by line.
#[derive(Debug)]
pub struct LaunchPlan {
    pub program: String,
    pub working_dir: String,
    pub args: Vec<String>,
    pub kill_on_drop: bool,
    pub capture_output: bool,
}

/// The plan to host an instance on this machine: its Java runtime run in its
/// folder with its arguments, killed with its handle.
pub fn instance_launch_plan(instance: &Instance) -> (plan: LaunchPlan)
    ensures
        plan.program@ == instance.config.java_runtime@,
        plan.working_dir@ == instance.path@,
        plan.args.deep_view() == instance.config.args.deep_view(),
        plan.kill_on_drop,
        !plan.capture_output,
{
    LaunchPlan {
        program: instance.config.java_runtime.clone(),
        working_dir: instance.path.clone(),
        args: crate::instance::copy_strings(&instance.config.args),
        kill_on_drop: true,
        capture_output: false,
    }
}

/// The command line shown when a launch fails: the runtime, a space, and the
/// arguments joined with spaces.
pub open spec fn shown_command_text(runtime: Seq<char>, args: Seq<Seq<char>>) -> Seq<char> {
    runtime + seq![' '] + joined(args, seq![' '])
}

/// Writes the command line shown when a launch fails.
pub fn shown_command(instance: &Instance) -> (s: String)
    ensures
        s@ == shown_command_text(instance.config.java_runtime@, instance.config.args.deep_view()),
{
    proof {
        reveal_strlit(" ");
    }
    assert(" "@ =~= seq![' ']);
    let mut s = instance.config.java_runtime.clone();
    s.append(" ");
    let args = join_strings(&instance.config.args, " ");
    s.append(args.as_str());
    s
}

/// `"java"`
pub open spec fn java_program() -> Seq<char> {
    seq!['j', 'a', 'v', 'a']
}

/// The plan to run a server with its console shown: `java` run in the
/// instance's folder with the given command arguments, its output read line
/// by line, killed with its handle.
pub fn console_launch_plan(path: &str, cmd: &Vec<String>) -> (plan: LaunchPlan)
    ensures
        plan.program@ == java_program(),
        plan.working_dir@ == path@,
        plan.args.deep_view() == cmd.deep_view(),
        plan.kill_on_drop,
        plan.capture_output,
{
    let program = String::from_str("java");
    proof {
        reveal_strlit("java");
    }
    LaunchPlan {
        program,
        working_dir: path.to_owned(),
        args: crate::instance::copy_strings(cmd),
        kill_on_drop: true,
        capture_output: true,
    }
}

/// How a server process ended, as far as the launcher saw it.
#[derive(Debug, PartialEq, Eq, Structural, Clone, Copy)]
pub enum ProcessEnd {
    /// The process could not be started.
    SpawnFailed,
    /// Reading its output failed.
    OutputFailed,
    /// Waiting for it failed.
    WaitFailed,
    /// It exited: with success or not, with an exit code or killed by a
    /// signal.
    Exited { success: bool, code: Option<i32> },
}

/// The outcome of hosting an instance locally.
#[derive(Debug, PartialEq, Eq, Structural, Clone, Copy)]
pub enum LaunchOutcome {
    /// The server stopped normally.
    Stopped,
    /// The server could not be started.
    SpawnFailed,
    /// The server exited with this bad status code.
    BadStatus(i32),
    /// The server was terminated by a signal.
    Signalled,
    /// Its end is unknown.
    UnknownExit,
}

/// The outcome of a local host run from how its process ended.
pub fn launch_outcome(end: ProcessEnd) -> (o: LaunchOutcome)
    ensures
        match end {
            ProcessEnd::SpawnFailed => o == LaunchOutcome::SpawnFailed,
            ProcessEnd::OutputFailed => o == LaunchOutcome::UnknownExit,
            ProcessEnd::WaitFailed => o == LaunchOutcome::UnknownExit,
            ProcessEnd::Exited { success, code } => if success {
                o == LaunchOutcome::Stopped
            } else {
                match code {
                    Some(c) => o == LaunchOutcome::BadStatus(c),
                    None => o == LaunchOutcome::Signalled,
                }
            },
        },
        // The run counts as a success exactly when the process exited with success.
        (o == LaunchOutcome::Stopped) <==> (end matches ProcessEnd::Exited { success, .. } && success),
{
    match end {
        ProcessEnd::SpawnFailed => LaunchOutcome::SpawnFailed,
        ProcessEnd::OutputFailed => LaunchOutcome::UnknownExit,
        ProcessEnd::WaitFailed => LaunchOutcome::UnknownExit,
        ProcessEnd::Exited { success, code } => if success {
            LaunchOutcome::Stopped
        } else {
            match code {
                Some(c) => LaunchOutcome::BadStatus(c),
                None => LaunchOutcome::Signalled,
            }
        },
    }
}

/// Why a server run with its console shown failed.
#[derive(Debug, PartialEq, Eq, Structural, Clone, Copy)]
pub enum ConsoleFailure {
    /// The process could not be started.
    SpawnFailed,
    /// Reading its output failed.
    OutputFailed,
    /// "Failed to stop the server normally": waiting failed or the exit was
    /// not a success.
    AbnormalStop,
}

/// The result of a server run with its console shown, from how it ended.
pub fn console_result(end: ProcessEnd) -> (r: Result<(), ConsoleFailure>)
    ensures
        match end {
            ProcessEnd::SpawnFailed => r == Err::<(), ConsoleFailure>(ConsoleFailure::SpawnFailed),
            ProcessEnd::OutputFailed => r == Err::<(), ConsoleFailure>(ConsoleFailure::OutputFailed),
            ProcessEnd::WaitFailed => r == Err::<(), ConsoleFailure>(ConsoleFailure::AbnormalStop),
            ProcessEnd::Exited { success, .. } => if success {
                r == Ok::<(), ConsoleFailure>(())
            } else {
                r == Err::<(), ConsoleFailure>(ConsoleFailure::AbnormalStop)
            },
        },
{
    match end {
        ProcessEnd::SpawnFailed => Err(ConsoleFailure::SpawnFailed),
        ProcessEnd::OutputFailed => Err(ConsoleFailure::OutputFailed),
        ProcessEnd::WaitFailed => Err(ConsoleFailure::AbnormalStop),
        ProcessEnd::Exited { success, .. } => if success {
            Ok(())
        } else {
            Err(ConsoleFailure::AbnormalStop)
        },
    }
}

} // verus!
