//! Child processes as plain values: what to run, and how its streams are
//! connected. The caller spawns the process and reports how it ended.

use vstd::prelude::*;
use crate::text::texts;

verus! {

/// How one standard stream of a child process is connected.
#[derive(Clone, Copy, Debug, PartialEq, Eq, Structural)]
pub enum Pipe {
    /// The stream is closed to the child.
    Null,
    /// The stream is connected to the caller, which feeds or collects it.
    Piped,
    /// The stream is the caller's own.
    Inherit,
}

/// One child process to run.
#[derive(Debug)]
pub struct Command {
    pub program: String,
    pub args: Vec<String>,
    pub stdin: Pipe,
    pub stdout: Pipe,
    pub stderr: Pipe,
}

/// A command as contracts see it.
pub struct CommandModel {
    pub program: Seq<char>,
    pub args: Seq<Seq<char>>,
    pub stdin: Pipe,
    pub stdout: Pipe,
    pub stderr: Pipe,
}

impl View for Command {
    type V = CommandModel;

    open spec fn view(&self) -> CommandModel {
        CommandModel {
            program: self.program@,
            args: texts(self.args@),
            stdin: self.stdin,
            stdout: self.stdout,
            stderr: self.stderr,
        }
    }
}

} // verus!
