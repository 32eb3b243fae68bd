//! The command that starts the backend, by build mode and target system.

use vstd::prelude::*;
use crate::decimal::{decimal, decimal_string};

verus! {

/// How the backend is shipped: run from its source tree by the interpreter,
/// or as a bundled executable.
#[derive(Clone, Copy, Debug, PartialEq, Eq, Structural)]
pub enum BuildMode {
    Development,
    Packaged,
}

/// The family of operating system the controller runs on.
#[derive(Clone, Copy, Debug, PartialEq, Eq, Structural)]
pub enum TargetOs {
    Windows,
    Unix,
}

/// An executable and its arguments.
#[derive(Debug)]
pub struct LaunchCommand {
    pub program: String,
    pub args: Vec<String>,
}

/// A debug build runs the backend from source; a release build runs the
/// bundled binary.
pub open spec fn build_mode_spec(debug: bool) -> BuildMode {
    if debug {
        BuildMode::Development
    } else {
        BuildMode::Packaged
    }
}

/// The interpreter's name on each system.
pub open spec fn interpreter_spec(os: TargetOs) -> Seq<char> {
    match os {
        TargetOs::Windows => "python"@,
        TargetOs::Unix => "python3"@,
    }
}

/// The bundled binary's path on each system.
pub open spec fn bundled_binary_spec(os: TargetOs) -> Seq<char> {
    match os {
        TargetOs::Windows => "bin/python_backend.exe"@,
        TargetOs::Unix => "bin/python_backend"@,
    }
}

/// The executable that starts the backend.
pub open spec fn program_spec(mode: BuildMode, os: TargetOs) -> Seq<char> {
    match mode {
        BuildMode::Development => interpreter_spec(os),
        BuildMode::Packaged => bundled_binary_spec(os),
    }
}

/// The arguments that tell the backend its port.
pub open spec fn port_args_spec(port: u16) -> Seq<Seq<char>> {
    seq!["--port"@, decimal(port as nat)]
}

/// All arguments: the source entry point first in development mode.
pub open spec fn args_spec(mode: BuildMode, port: u16) -> Seq<Seq<char>> {
    match mode {
        BuildMode::Development => seq!["backend/main.py"@].add(port_args_spec(port)),
        BuildMode::Packaged => port_args_spec(port),
    }
}

/// The text of each string in `v`.
pub open spec fn texts(v: Seq<String>) -> Seq<Seq<char>> {
    v.map_values(|a: String| a@)
}

/// `c` is the command that starts the backend on `port`.
pub open spec fn is_launch_command(c: LaunchCommand, mode: BuildMode, os: TargetOs, port: u16) -> bool {
    &&& c.program@ == program_spec(mode, os)
    &&& texts(c.args@) == args_spec(mode, port)
}

/// The build mode that a debug or a release build selects.
pub fn build_mode(debug: bool) -> (r: BuildMode)
    ensures
        r == build_mode_spec(debug),
{
    if debug {
        BuildMode::Development
    } else {
        BuildMode::Packaged
    }
}

/// The name of the interpreter that runs the backend from source.
pub fn interpreter(os: TargetOs) -> (r: String)
    ensures
        r@ == interpreter_spec(os),
{
    match os {
        TargetOs::Windows => String::from_str("python"),
        TargetOs::Unix => String::from_str("python3"),
    }
}

/// `--port <port>`, as two arguments.
pub fn port_args(port: u16) -> (r: Vec<String>)
    ensures
        texts(r@) == port_args_spec(port),
{
    let mut r: Vec<String> = Vec::new();
    r.push(String::from_str("--port"));
    r.push(decimal_string(port));
    assert(texts(r@) =~= port_args_spec(port));
    r
}

/// The command that starts the backend on `port`.
pub fn resolve_command(mode: BuildMode, os: TargetOs, port: u16) -> (r: LaunchCommand)
    ensures
        is_launch_command(r, mode, os, port),
{
    match mode {
        BuildMode::Development => {
            let mut args: Vec<String> = Vec::new();
            args.push(String::from_str("backend/main.py"));
            args.push(String::from_str("--port"));
            args.push(decimal_string(port));
            assert(texts(args@) =~= args_spec(mode, port));
            LaunchCommand { program: interpreter(os), args }
        },
        BuildMode::Packaged => {
            let program = match os {
                TargetOs::Windows => String::from_str("bin/python_backend.exe"),
                TargetOs::Unix => String::from_str("bin/python_backend"),
            };
            LaunchCommand { program, args: port_args(port) }
        },
    }
}

} // verus!
