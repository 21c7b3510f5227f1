//! How the sidecar process is launched.

use std::path::PathBuf;
use vstd::prelude::*;
use vstd::string::*;

verus! {

/// `std::path::PathBuf`, which the supervisor carries from its construction to
/// the launch of the child and never looks into.
#[verifier::external_type_specification]
#[verifier::external_body]
pub struct ExPathBuf(std::path::PathBuf);

/// What becomes of one of the child's standard streams.
#[derive(Debug, Clone, Copy, PartialEq, Eq, Structural)]
pub enum StdioMode {
    /// The stream is closed to the child.
    Null,
    /// The stream is the supervisor's own.
    Inherit,
}

/// The launch of the child, ready to be carried out.
#[derive(Debug)]
pub struct SpawnCommand<'a> {
    pub program: String,
    pub args: Vec<String>,
    pub working_dir: &'a PathBuf,
    pub stdin: StdioMode,
    pub stdout: StdioMode,
    pub stderr: StdioMode,
}

/// The mathematical content of a [`SpawnCommand`].
pub struct SpawnPlan {
    pub program: Seq<char>,
    pub args: Seq<Seq<char>>,
    pub working_dir: PathBuf,
    pub stdin: StdioMode,
    pub stdout: StdioMode,
    pub stderr: StdioMode,
}

impl<'a> View for SpawnCommand<'a> {
    type V = SpawnPlan;

    open spec fn view(&self) -> SpawnPlan {
        SpawnPlan {
            program: self.program@,
            args: self.args@.map_values(|arg: String| arg@),
            working_dir: *self.working_dir,
            stdin: self.stdin,
            stdout: self.stdout,
            stderr: self.stderr,
        }
    }
}

/// The arguments that select the sidecar's HTTP transport and its port.
pub open spec fn sidecar_args() -> Seq<Seq<char>> {
    seq![
        "run"@,
        "python"@,
        "-m"@,
        "src.server.main"@,
        "--transport"@,
        "sse"@,
        "--port"@,
        "8080"@,
    ]
}

/// The launch of the sidecar from a working directory: input closed, output
/// and errors on the supervisor's own streams.
pub open spec fn sidecar_plan(working_dir: PathBuf) -> SpawnPlan {
    SpawnPlan {
        program: "uv"@,
        args: sidecar_args(),
        working_dir,
        stdin: StdioMode::Null,
        stdout: StdioMode::Inherit,
        stderr: StdioMode::Inherit,
    }
}

/// Builds the launch of the sidecar from a working directory.
pub fn sidecar_command<'a>(working_dir: &'a PathBuf) -> (command: SpawnCommand<'a>)
    ensures
        command@ == sidecar_plan(*working_dir),
{
    let mut args: Vec<String> = Vec::new();
    args.push(String::from_str("run"));
    args.push(String::from_str("python"));
    args.push(String::from_str("-m"));
    args.push(String::from_str("src.server.main"));
    args.push(String::from_str("--transport"));
    args.push(String::from_str("sse"));
    args.push(String::from_str("--port"));
    args.push(String::from_str("8080"));
    assert(args@.map_values(|arg: String| arg@) =~= sidecar_args());
    SpawnCommand {
        program: String::from_str("uv"),
        args,
        working_dir,
        stdin: StdioMode::Null,
        stdout: StdioMode::Inherit,
        stderr: StdioMode::Inherit,
    }
}

} // verus!
