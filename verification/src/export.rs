//! The export program as the library sees it: the command to run, and what
//! came of a run. The library never runs the program itself.

use vstd::prelude::*;
use vstd::string::*;
use crate::config::{MySQL, MySQLView};
use crate::decimal::{decimal, decimal_text};
use crate::error::{ProcessFailure, RefreshError};

verus! {

/// The program that writes the dump.
pub const DUMP_PROGRAM: &'static str = "mariadb-dump";

/// The database that is exported.
pub const DUMP_DATABASE: &'static str = "seichiassist";

/// The first of the two tables that are exported.
pub const GACHADATA_TABLE: &'static str = "gachadata";

/// The second of the two tables that are exported.
pub const GACHA_EVENTS_TABLE: &'static str = "gacha_events";

/// A command line: a program and its arguments, in order.
#[derive(Debug)]
pub struct DumpCommand {
    pub program: String,
    pub arguments: Vec<String>,
}

/// What a command line reads as.
pub struct CommandView {
    pub program: Seq<char>,
    pub arguments: Seq<Seq<char>>,
}

/// The texts of a list of strings, in order.
pub open spec fn texts(strings: Seq<String>) -> Seq<Seq<char>> {
    Seq::new(strings.len(), |i: int| strings[i]@)
}

impl View for DumpCommand {
    type V = CommandView;

    open spec fn view(&self) -> CommandView {
        CommandView { program: self.program@, arguments: texts(self.arguments@) }
    }
}

/// The command line that exports the gacha tables of the database at `mysql`.
///
/// The password goes on the command line, glued to `-p`: whoever can list
/// the machine's processes can read it while the program runs.
pub open spec fn dump_command(mysql: MySQLView) -> CommandView {
    CommandView {
        program: DUMP_PROGRAM@,
        arguments: seq![
            "--host"@,
            mysql.host,
            "--port"@,
            decimal(mysql.port),
            "--user"@,
            mysql.user,
            "-p"@ + mysql.password,
            DUMP_DATABASE@,
            GACHADATA_TABLE@,
            GACHA_EVENTS_TABLE@,
        ],
    }
}

impl DumpCommand {
    /// Builds the command line that exports the gacha tables.
    pub fn for_connection(mysql: &MySQL) -> (command: DumpCommand)
        ensures
            command@ == dump_command(mysql@),
    {
        let mut arguments: Vec<String> = Vec::new();
        arguments.push(String::from_str("--host"));
        arguments.push(mysql.host.clone());
        arguments.push(String::from_str("--port"));
        arguments.push(decimal_text(mysql.port));
        arguments.push(String::from_str("--user"));
        arguments.push(mysql.user.clone());
        arguments.push(String::from_str("-p").concat(mysql.password.as_str()));
        arguments.push(String::from_str(DUMP_DATABASE));
        arguments.push(String::from_str(GACHADATA_TABLE));
        arguments.push(String::from_str(GACHA_EVENTS_TABLE));
        let command = DumpCommand { program: String::from_str(DUMP_PROGRAM), arguments };
        assert(command@.arguments =~= dump_command(mysql@).arguments);
        command
    }
}

/// What came of one run of the export program.
#[derive(Debug)]
pub enum ProcessOutcome {
    /// The program ran to its end with this exit code and wrote this to its
    /// standard output.
    Exited { code: i32, stdout: Vec<u8> },
    /// The program was ended from outside and left no exit code.
    Killed,
    /// The program could not be launched, or its output could not be read.
    NotStarted,
    /// The program did not finish within the time allowed.
    TimedOut,
}

/// Whether a run counts as a refresh, and if not, why not. A run counts only
/// if the program ended by itself with exit code zero.
pub open spec fn refresh_result(outcome: ProcessOutcome) -> Result<(), RefreshError> {
    match outcome {
        ProcessOutcome::Exited { code, stdout } => if code == 0 {
            Ok(())
        } else {
            Err(RefreshError::ProcessFailed(ProcessFailure::ExitedWith(code)))
        },
        ProcessOutcome::Killed => Err(RefreshError::ProcessFailed(ProcessFailure::Killed)),
        ProcessOutcome::NotStarted => Err(RefreshError::ProcessFailed(ProcessFailure::NotStarted)),
        ProcessOutcome::TimedOut => Err(RefreshError::ProcessFailed(ProcessFailure::TimedOut)),
    }
}

/// The bytes that a run wrote, as far as the run counts as a refresh.
pub open spec fn refresh_output(outcome: ProcessOutcome) -> Seq<u8> {
    match outcome {
        ProcessOutcome::Exited { code, stdout } => stdout@,
        _ => Seq::empty(),
    }
}

/// What a repository is to do next.
#[derive(Debug)]
pub enum UpdateAction {
    /// Nothing: serve what is held.
    UpToDate,
    /// Run this command, then hand in what came of it.
    RunDump(DumpCommand),
}

/// What an action reads as.
pub enum ActionView {
    UpToDate,
    RunDump(CommandView),
}

impl View for UpdateAction {
    type V = ActionView;

    open spec fn view(&self) -> ActionView {
        match *self {
            UpdateAction::UpToDate => ActionView::UpToDate,
            UpdateAction::RunDump(command) => ActionView::RunDump(command@),
        }
    }
}

} // verus!
