//! The command-line surface: the commands the process accepts and what each
//! one reports.
use vstd::prelude::*;

verus! {

/// The parsed command line.
#[derive(Debug, Clone, PartialEq, Eq)]
pub struct Cli {
    /// The command to run.
    pub command: Command,
}

/// The commands of the `aetherdb` binary.
#[derive(Debug, Clone, PartialEq, Eq)]
pub enum Command {
    /// Start the AetherDB HTTP server, with an optional JSON config file.
    Serve { config: Option<String> },
    /// Print version and effective configuration.
    Info,
}

/// What a command writes to standard output and to standard error.
#[derive(Debug, Clone, PartialEq, Eq)]
pub struct CommandOutput {
    pub stdout: String,
    pub stderr: String,
}

/// What `command` reports when the binary is at `version`: `info` prints the
/// version and what the project is, `serve` says that the server is not
/// there yet.
pub open spec fn command_report(command: Command, version: Seq<char>) -> (Seq<char>, Seq<char>) {
    match command {
        Command::Serve { .. } => (
            Seq::empty(),
            "server not yet implemented \u{2014} coming in a later milestone\n"@,
        ),
        Command::Info => (
            "AetherDB v"@ + version + "\n"@
                + "Text and vector search database backed by object storage.\n"@,
            Seq::empty(),
        ),
    }
}

impl Command {
    /// The text that the command writes when the binary is at `version`.
    pub fn output(&self, version: &str) -> (out: CommandOutput)
        ensures
            (out.stdout@, out.stderr@) == command_report(*self, version@),
    {
        match self {
            Command::Serve { .. } => CommandOutput {
                stdout: String::new(),
                stderr: String::from_str(
                    "server not yet implemented \u{2014} coming in a later milestone\n",
                ),
            },
            Command::Info => {
                let mut stdout = String::from_str("AetherDB v");
                stdout.append(version);
                stdout.append("\n");
                stdout.append("Text and vector search database backed by object storage.\n");
                CommandOutput { stdout, stderr: String::new() }
            },
        }
    }
}

} // verus!
