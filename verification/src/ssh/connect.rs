//! The options of an ssh connection.

use vstd::prelude::*;
use crate::ssh::ProgramKind;

verus! {

/// The options for connecting by way of an ssh program.
#[derive(Clone, Debug, Default)]
pub struct Options {
    /// The program or script to use. If unset, it is the program that `kind` implies, or `ssh`.
    pub command: Option<String>,
    /// If `true`, no shell is used to execute `command`, even if it looks like a script.
    pub disallow_shell: bool,
    /// The kind of client that `command` is. If unset, the stem of the program's name decides,
    /// or a call of the program itself.
    pub kind: Option<ProgramKind>,
}

impl Options {
    /// The program to run: the configured command; without one the executable of the
    /// configured kind; without that `ssh`.
    pub open spec fn command_text(&self) -> Seq<char> {
        match self.command {
            Some(command) => command@,
            None => match self.kind {
                Some(kind) => match kind.exe_name() {
                    Some(name) => name,
                    None => "ssh"@,
                },
                None => "ssh"@,
            },
        }
    }

    /// Returns the configured ssh command, `ssh` if neither the `command` nor the `kind`
    /// field says otherwise.
    pub fn ssh_command(&self) -> (command: &str)
        ensures
            command@ == self.command_text(),
    {
        match &self.command {
            Some(command) => command.as_str(),
            None => {
                match &self.kind {
                    Some(kind) => match kind.exe() {
                        Some(name) => name,
                        None => "ssh",
                    },
                    None => "ssh",
                }
            },
        }
    }
}

} // verus!
