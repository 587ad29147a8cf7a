//! Building blocks of a version-control toolkit, each with a machine-checked contract.
//!
//! The heart of the crate is the content-filter pipeline, which converts a tracked file
//! between its worktree form and the form stored in the repository: [`pipeline`] selects and
//! orders the stages of one conversion, [`driver`] decides what the answer of an external
//! filter program means, [`eol`] and [`ident`] are the built-in text transforms, and
//! [`output`] is what a conversion hands back.
//!
//! Two smaller parts take the decisions of neighbouring components: [`ssh`] picks the program
//! and the kind of client of an ssh connection, and [`worktree`] tells the directory stack of
//! a checkout what to read and what to create.
//!
//! The library performs no input or output of its own. Whatever runs a process, reads a
//! file or asks the object store is handed in by the caller, and the contracts say what the
//! library makes of every answer.

pub mod bytes;
pub mod driver;
pub mod eol;
pub mod ident;
pub mod output;
pub mod pipeline;
pub mod ssh;
pub mod worktree;
