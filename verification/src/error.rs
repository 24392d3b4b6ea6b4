//! The typed errors that the library's decisions can produce.
//!
//! I/O failures (a failed write to the control file, a failed directory
//! read) are surfaced unchanged by the unverified callers and have no
//! variant here.

use vstd::prelude::*;
use vstd::string::StringExecFns;

verus! {

/// An error from the library's own checks.
#[derive(Debug)]
pub enum ZloopError {
    /// The control path does not exist: the driver is not loaded.
    DriverNotPresent,
    /// The control path exists but is not a character-special file.
    DriverWrongType,
    /// The staging directory for an `add` is missing; carries the path
    /// that was expected to exist.
    StagingPathMissing(String),
}

impl ZloopError {
    /// The diagnostic text for this error.
    pub open spec fn message_spec(&self) -> Seq<char> {
        match self {
            ZloopError::DriverNotPresent => "zloop driver not found"@,
            ZloopError::DriverWrongType => "/dev/zloop-control is not a character device"@,
            ZloopError::StagingPathMissing(p) => "zloop path "@ + p@ + " does not exist"@,
        }
    }

    /// Renders the diagnostic text.
    pub fn message(&self) -> (m: String)
        ensures
            m@ == self.message_spec(),
    {
        match self {
            ZloopError::DriverNotPresent => "zloop driver not found".to_owned(),
            ZloopError::DriverWrongType => "/dev/zloop-control is not a character device".to_owned(),
            ZloopError::StagingPathMissing(p) => {
                let mut m = "zloop path ".to_owned();
                m.append(p.as_str());
                m.append(" does not exist");
                proof {
                    assert(m@ =~= self.message_spec());
                }
                m
            },
        }
    }
}

} // verus!
