//! The error taxonomy of the pseudo-terminal session: every fallible
//! operation returns one of these typed values.

use crate::text::{dec_seq, push_dec};
use vstd::prelude::*;
use vstd::string::StringExecFns;

verus! {

/// The externally visible failure categories of the core.
#[derive(Debug, Clone, PartialEq, Eq)]
pub enum Error {
    /// OS-level pty allocation failed; carries the underlying cause's
    /// description.
    PtyCreation(String),
    /// The child process could not be started.
    SpawnCommand(String),
    /// A read or write on the pty failed; carries the I/O error's
    /// description.
    PtyIo(String),
    /// The caller supplied zero rows or columns to `spawn` or `resize`.
    InvalidSize { rows: u16, cols: u16 },
    /// The command executable could not be found.
    CommandNotFound(String),
}

/// The I/O error type of std, whose description [`Error::PtyIo`] carries.
#[verifier::external_type_specification]
#[verifier::external_body]
pub struct ExIoError(std::io::Error);

impl Error {
    /// The message of this error.
    pub open spec fn message_seq(self) -> Seq<char> {
        match self {
            Error::PtyCreation(s) => "failed to create PTY: "@ + s@,
            Error::SpawnCommand(s) => "failed to spawn command: "@ + s@,
            Error::PtyIo(s) => "PTY I/O error: "@ + s@,
            Error::InvalidSize { rows, cols } => "invalid terminal size: "@ + dec_seq(rows as nat)
                + "x"@ + dec_seq(cols as nat),
            Error::CommandNotFound(s) => "command not found: "@ + s@,
        }
    }

    /// Render the message of this error.
    pub fn message(&self) -> (r: String)
        ensures
            r@ == self.message_seq(),
    {
        match self {
            Error::PtyCreation(s) => {
                let mut m = String::from_str("failed to create PTY: ");
                m.append(s.as_str());
                m
            },
            Error::SpawnCommand(s) => {
                let mut m = String::from_str("failed to spawn command: ");
                m.append(s.as_str());
                m
            },
            Error::PtyIo(s) => {
                let mut m = String::from_str("PTY I/O error: ");
                m.append(s.as_str());
                m
            },
            Error::InvalidSize { rows, cols } => {
                let mut m = String::from_str("invalid terminal size: ");
                push_dec(&mut m, *rows);
                m.append("x");
                push_dec(&mut m, *cols);
                proof {
                    assert(m@ =~= self.message_seq());
                }
                m
            },
            Error::CommandNotFound(s) => {
                let mut m = String::from_str("command not found: ");
                m.append(s.as_str());
                m
            },
        }
    }

    /// Wrap a std I/O error as [`Error::PtyIo`], keeping its description:
    /// the carried string is what the error displays as, as vstd's
    /// specification of `to_string` states it.
    pub fn from_io(e: std::io::Error) -> (r: Error)
        ensures
            r matches Error::PtyIo(s) && vstd::string::to_string_from_display_ensures::<
                std::io::Error,
            >(&e, s),
    {
        Error::PtyIo(e.to_string())
    }
}

} // verus!
