//! Error taxonomy for blocking frame operations.
//!
//! Every failure here is scoped to a single track: `Interrupted` means a
//! blocking wait was cancelled by an external stop or termination signal,
//! `Timeout` means a blocking wait exceeded its deadline. Both are
//! recoverable by the caller.

use vstd::prelude::*;

verus! {

/// Why a frame-buffer operation could not complete.
#[derive(Debug)]
pub enum PlayerFrameError {
    /// The wait was cancelled by an external stop/termination signal.
    Interrupted(String),
    /// The wait exceeded its deadline.
    Timeout(String),
}

impl PlayerFrameError {
    /// True exactly on the `Interrupted` variant.
    pub open spec fn is_interrupted(&self) -> bool {
        matches!(self, PlayerFrameError::Interrupted(_))
    }

    /// True exactly on the `Timeout` variant.
    pub open spec fn is_timeout(&self) -> bool {
        matches!(self, PlayerFrameError::Timeout(_))
    }

    /// A human-readable description of the failure.
    pub fn describe(&self) -> (r: String)
        ensures
            self.is_interrupted() ==> r@ =~= "Frame was interrupted"@,
            self.is_timeout() ==> r@ =~= "Frame timed out"@,
    {
        match self {
            PlayerFrameError::Interrupted(_) => "Frame was interrupted".to_owned(),
            PlayerFrameError::Timeout(_) => "Frame timed out".to_owned(),
        }
    }
}

} // verus!
