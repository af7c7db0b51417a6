//! The decisions of a pseudo-terminal session: validating requested sizes
//! before any OS resource is touched, recording the last-requested size, and
//! classifying the failures of the OS-level setup steps.
//!
//! The OS-level side of a session — allocating the pty pair, starting the
//! child process, and the background reader thread that feeds a bounded
//! channel of output chunks — is raw I/O and lives with the embedding; it
//! consults these functions for every decision it makes.

use crate::error::Error;
use vstd::prelude::*;

verus! {

/// Capacity, in chunks, of the bounded channel that delivers the reader
/// thread's output to consumers.
pub const CHANNEL_CAPACITY: usize = 256;

/// Size, in bytes, of the reader thread's reusable read buffer; one channel
/// message carries at most this many bytes.
pub const READ_BUFFER_SIZE: usize = 4096;

/// Check a requested terminal size: zero rows or columns is rejected with
/// [`Error::InvalidSize`] carrying the offending pair, so callers can fail
/// before any OS-level allocation is attempted.
pub fn validate_size(rows: u16, cols: u16) -> (r: Result<(), Error>)
    ensures
        (rows == 0 || cols == 0) ==> (r matches Err(e) && e == (Error::InvalidSize { rows, cols })),
        rows > 0 && cols > 0 ==> r is Ok,
{
    if rows == 0 || cols == 0 {
        Err(Error::InvalidSize { rows, cols })
    } else {
        Ok(())
    }
}

/// The last-requested size of a pseudo-terminal: rows and columns in
/// character cells, plus the two pixel fields carried for parity with the
/// underlying pty interface (always zero here, not otherwise used).
#[derive(Debug, Clone, Copy, PartialEq, Eq, Structural)]
pub struct PtySize {
    pub rows: u16,
    pub cols: u16,
    pub pixel_width: u16,
    pub pixel_height: u16,
}

impl PtySize {
    /// Record an initial size. Zero rows or columns is rejected with
    /// `InvalidSize` and nothing is recorded.
    pub fn new(rows: u16, cols: u16) -> (r: Result<PtySize, Error>)
        ensures
            (rows == 0 || cols == 0) ==> (r matches Err(e) && e == (Error::InvalidSize {
                rows,
                cols,
            })),
            rows > 0 && cols > 0 ==> (r matches Ok(s) && s == (PtySize {
                rows,
                cols,
                pixel_width: 0,
                pixel_height: 0,
            })),
    {
        match validate_size(rows, cols) {
            Ok(()) => Ok(PtySize { rows, cols, pixel_width: 0, pixel_height: 0 }),
            Err(e) => Err(e),
        }
    }

    /// Record a new size. Zero rows or columns is rejected with
    /// `InvalidSize` and the recorded size is left unchanged.
    pub fn resize(&mut self, rows: u16, cols: u16) -> (r: Result<(), Error>)
        ensures
            (rows == 0 || cols == 0) ==> (r matches Err(e) && e == (Error::InvalidSize {
                rows,
                cols,
            }) && *final(self) == *old(self)),
            rows > 0 && cols > 0 ==> (r is Ok && *final(self) == (PtySize {
                rows,
                cols,
                ..*old(self)
            })),
    {
        match validate_size(rows, cols) {
            Ok(()) => {
                self.rows = rows;
                self.cols = cols;
                Ok(())
            },
            Err(e) => Err(e),
        }
    }

    /// The recorded (rows, cols).
    pub fn size(&self) -> (rc: (u16, u16))
        ensures
            rc == (self.rows, self.cols),
    {
        (self.rows, self.cols)
    }
}

/// The OS-level steps of bringing a session up that can fail.
#[derive(Debug, Clone, Copy, PartialEq, Eq, Structural)]
pub enum SpawnStep {
    /// Allocating the pty pair.
    OpenPty,
    /// Starting the child process on the pty's slave side; `not_found`
    /// records whether the OS reported the executable as absent.
    SpawnChild { not_found: bool },
    /// Taking the exclusive writer of the pty's master side.
    TakeWriter,
    /// Cloning the reader of the pty's master side.
    CloneReader,
}

/// Classify a failed setup step: pty allocation and writer and reader
/// extraction surface as `PtyCreation`; a failure to start the command
/// surfaces as `CommandNotFound` naming the command when the OS reported
/// the executable as absent, and as the generic `SpawnCommand` otherwise,
/// so callers can tell "no pty available", "command missing", and "command
/// unauthorized" apart. `command` is consulted only for the child step.
pub fn spawn_error(step: SpawnStep, command: String, detail: String) -> (r: Error)
    ensures
        r == (match step {
            SpawnStep::SpawnChild { not_found } => if not_found {
                Error::CommandNotFound(command)
            } else {
                Error::SpawnCommand(detail)
            },
            _ => Error::PtyCreation(detail),
        }),
{
    match step {
        SpawnStep::SpawnChild { not_found } => {
            if not_found {
                Error::CommandNotFound(command)
            } else {
                Error::SpawnCommand(detail)
            }
        },
        _ => Error::PtyCreation(detail),
    }
}

} // verus!
