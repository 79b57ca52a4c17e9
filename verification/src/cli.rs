//! The command line of the service executable: which subcommand was given,
//! whether the caller's rights suffice for it, and the exit code.

use crate::ipc::wire::texts_of;
use vstd::prelude::*;

verus! {

/// A subcommand.
#[derive(Clone, Copy, Debug, PartialEq, Eq, Structural)]
pub enum CliCommand {
    /// No subcommand: run as the service.
    Run,
    Install,
    Uninstall,
    Start,
    Stop,
    Status,
    Logs,
    /// A word that names no subcommand.
    Unknown,
}

/// What the operating system said when asked for the caller's rights.
#[derive(Clone, Copy, Debug, PartialEq, Eq, Structural)]
pub enum ElevationProbe {
    /// The effective user id of the process.
    EffectiveUid(u32),
    /// Whether the process token is that of an administrator.
    Token(bool),
    /// The check itself failed.
    Unavailable,
}

/// What to do with an invocation.
#[derive(Clone, Copy, Debug, PartialEq, Eq, Structural)]
pub enum Dispatch {
    /// Carry the subcommand out.
    Proceed(CliCommand),
    /// Print the privilege error and exit with code 1.
    Deny,
}

/// How an invocation ended.
#[derive(Clone, Copy, Debug, PartialEq, Eq, Structural)]
pub enum CommandOutcome {
    /// It did what was asked.
    Success,
    /// The caller lacked the rights for the subcommand.
    PrivilegeMissing,
    /// It failed.
    Failed,
    /// It failed with an error code of the operating system.
    OsError(i32),
}

/// The exit code of success.
pub const EXIT_SUCCESS: i32 = 0;

/// The exit code of a failure without a code of its own, and of missing
/// rights.
pub const EXIT_FAILURE: i32 = 1;

/// The subcommand that a word names.
pub open spec fn command_of_word(word: Seq<char>) -> CliCommand {
    if word == "install"@ {
        CliCommand::Install
    } else if word == "uninstall"@ {
        CliCommand::Uninstall
    } else if word == "start"@ {
        CliCommand::Start
    } else if word == "stop"@ {
        CliCommand::Stop
    } else if word == "status"@ {
        CliCommand::Status
    } else if word == "logs"@ {
        CliCommand::Logs
    } else {
        CliCommand::Unknown
    }
}

/// The subcommand of an argument vector: the word behind the program's
/// name, and `Run` where there is none.
pub open spec fn command_of(args: Seq<Seq<char>>) -> CliCommand {
    if args.len() <= 1 {
        CliCommand::Run
    } else {
        command_of_word(args[1])
    }
}

/// Whether the probe shows elevated rights. A probe that failed shows none.
pub open spec fn elevated(probe: ElevationProbe) -> bool {
    match probe {
        ElevationProbe::EffectiveUid(uid) => uid == 0,
        ElevationProbe::Token(administrator) => administrator,
        ElevationProbe::Unavailable => false,
    }
}

/// Whether a subcommand needs elevated rights: all but the two queries.
pub open spec fn needs_elevation(command: CliCommand) -> bool {
    command != CliCommand::Status && command != CliCommand::Logs
}

/// What to do with a subcommand, given the caller's rights.
pub open spec fn gate(command: CliCommand, is_elevated: bool) -> Dispatch {
    if needs_elevation(command) && !is_elevated {
        Dispatch::Deny
    } else {
        Dispatch::Proceed(command)
    }
}

/// The exit code of an outcome: 0 for success, the operating system's code
/// where there is one that is not 0, and 1 otherwise.
pub open spec fn exit_code_of(outcome: CommandOutcome) -> i32 {
    match outcome {
        CommandOutcome::Success => EXIT_SUCCESS,
        CommandOutcome::PrivilegeMissing => EXIT_FAILURE,
        CommandOutcome::Failed => EXIT_FAILURE,
        CommandOutcome::OsError(code) => if code != 0 {
            code
        } else {
            EXIT_FAILURE
        },
    }
}

/// Only success exits with code 0.
pub proof fn lemma_exit_code_zero_is_success(outcome: CommandOutcome)
    ensures
        exit_code_of(outcome) == 0 <==> outcome == CommandOutcome::Success,
{
}

/// The two queries pass whatever the caller's rights; every other
/// subcommand passes with elevated rights only.
pub proof fn lemma_queries_need_no_elevation(command: CliCommand, probe: ElevationProbe)
    ensures
        command == CliCommand::Status || command == CliCommand::Logs ==> gate(
            command,
            elevated(probe),
        ) == Dispatch::Proceed(command),
        command != CliCommand::Status && command != CliCommand::Logs ==> (gate(
            command,
            elevated(probe),
        ) == Dispatch::Proceed(command) <==> elevated(probe)),
        probe == ElevationProbe::Unavailable ==> !elevated(probe),
{
}

/// Whether `text` is `word`.
fn is_word(text: &String, word: &str) -> (same: bool)
    ensures
        same == (text@ == word@),
{
    let owned = word.to_owned();
    *text == owned
}

/// The check of the caller's rights.
pub struct PrivilegeGuard;

impl PrivilegeGuard {
    /// Whether the probe shows elevated rights.
    pub fn is_elevated(probe: ElevationProbe) -> (result: bool)
        ensures
            result == elevated(probe),
    {
        match probe {
            ElevationProbe::EffectiveUid(uid) => uid == 0,
            ElevationProbe::Token(administrator) => administrator,
            ElevationProbe::Unavailable => false,
        }
    }
}

/// Reads the subcommand from the argument vector.
pub fn parse_command(args: &Vec<String>) -> (command: CliCommand)
    ensures
        command == command_of(texts_of(args@)),
{
    if args.len() <= 1 {
        return CliCommand::Run;
    }
    let word = &args[1];
    if is_word(word, "install") {
        CliCommand::Install
    } else if is_word(word, "uninstall") {
        CliCommand::Uninstall
    } else if is_word(word, "start") {
        CliCommand::Start
    } else if is_word(word, "stop") {
        CliCommand::Stop
    } else if is_word(word, "status") {
        CliCommand::Status
    } else if is_word(word, "logs") {
        CliCommand::Logs
    } else {
        CliCommand::Unknown
    }
}

/// Whether a subcommand needs elevated rights.
pub fn requires_elevation(command: CliCommand) -> (needed: bool)
    ensures
        needed == needs_elevation(command),
{
    match command {
        CliCommand::Status => false,
        CliCommand::Logs => false,
        _ => true,
    }
}

/// Decides on an invocation: the subcommand is carried out if it is a
/// query or the caller's rights are elevated, and denied otherwise.
pub fn dispatch(args: &Vec<String>, probe: ElevationProbe) -> (decision: Dispatch)
    ensures
        decision == gate(command_of(texts_of(args@)), elevated(probe)),
{
    let command = parse_command(args);
    if requires_elevation(command) && !PrivilegeGuard::is_elevated(probe) {
        Dispatch::Deny
    } else {
        Dispatch::Proceed(command)
    }
}

/// The exit code of an outcome.
pub fn exit_code(outcome: CommandOutcome) -> (code: i32)
    ensures
        code == exit_code_of(outcome),
{
    match outcome {
        CommandOutcome::Success => EXIT_SUCCESS,
        CommandOutcome::PrivilegeMissing => EXIT_FAILURE,
        CommandOutcome::Failed => EXIT_FAILURE,
        CommandOutcome::OsError(code) => if code != 0 {
            code
        } else {
            EXIT_FAILURE
        },
    }
}

/// The line that tells the caller that rights are missing.
pub fn privilege_error_message() -> (text: String)
    ensures
        text@ == "this command needs administrator (root) rights"@,
{
    "this command needs administrator (root) rights".to_owned()
}

} // verus!
