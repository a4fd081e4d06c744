//! The command lines with which the application runs its scripts.

use vstd::prelude::*;
use crate::text::{decimal, render_decimal, texts};

verus! {

/// A program and the arguments that it is started with.
#[derive(Debug, PartialEq, Eq)]
pub struct CommandLine {
    pub program: String,
    pub arguments: Vec<String>,
}

/// The interpreter that runs every script.
pub open spec fn interpreter() -> Seq<char> {
    "python"@
}

/// The arguments that make the interpreter serve the backend application on
/// all interfaces at `port`.
pub open spec fn service_arguments(port: u16) -> Seq<Seq<char>> {
    seq![
        "-m"@,
        "uvicorn"@,
        "main:app"@,
        "--host"@,
        "0.0.0.0"@,
        "--port"@,
        decimal(port as nat),
    ]
}

/// The command line of the backend service for `port`.
pub fn service_command(port: u16) -> (command: CommandLine)
    ensures
        command.program@ == interpreter(),
        texts(command.arguments@) == service_arguments(port),
{
    let mut arguments: Vec<String> = Vec::new();
    arguments.push("-m".to_owned());
    arguments.push("uvicorn".to_owned());
    arguments.push("main:app".to_owned());
    arguments.push("--host".to_owned());
    arguments.push("0.0.0.0".to_owned());
    arguments.push("--port".to_owned());
    arguments.push(render_decimal(port));
    assert(texts(arguments@) =~= service_arguments(port));
    CommandLine { program: "python".to_owned(), arguments }
}

/// The command line of the authorization helper that lies at `script`.
pub fn oauth_command(script: String) -> (command: CommandLine)
    ensures
        command.program@ == interpreter(),
        texts(command.arguments@) == seq![script@],
{
    let mut arguments: Vec<String> = Vec::new();
    arguments.push(script);
    assert(texts(arguments@) =~= seq![script@]);
    CommandLine { program: "python".to_owned(), arguments }
}

} // verus!
