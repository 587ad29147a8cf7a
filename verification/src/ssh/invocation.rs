//! The errors of turning a connection into the arguments of an ssh program.

use vstd::prelude::*;

verus! {

/// Why no arguments could be produced for the selected kind of client.
#[derive(Clone, Debug, PartialEq, Eq)]
pub enum Error {
    /// The user name could be mistaken for a command-line argument.
    AmbiguousUserName {
        /// The user name as the URL holds it.
        user: String,
    },
    /// The host name could be mistaken for a command-line argument.
    AmbiguousHostName {
        /// The host name as the URL holds it.
        host: String,
    },
    /// The simple kind of client cannot do what was asked of it.
    Unsupported {
        /// The simple command that should have been invoked.
        command: String,
        /// The function that it does not support.
        function: String,
    },
}

} // verus!
