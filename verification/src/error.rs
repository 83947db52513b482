use vstd::prelude::*;

verus! {

/// Why a dump call returned no data.
#[derive(Debug, Clone, Copy, PartialEq, Eq)]
pub enum DumpError {
    /// The pipe could not be created, or reading from it failed. Holds the
    /// error number of the operating system, where it gave one.
    Io(Option<i32>),
    /// The remote object reported that it could not complete the dump. Holds
    /// its status code.
    Status(i32),
}

impl DumpError {
    /// True for a failure of the pipe, false for one that the remote object
    /// reported.
    pub fn is_io(&self) -> (r: bool)
        ensures
            r == (*self is Io),
    {
        match self {
            DumpError::Io(_) => true,
            DumpError::Status(_) => false,
        }
    }

    /// The number that came with the failure: the error number of the
    /// operating system or the status code of the remote object.
    pub fn code(&self) -> (r: Option<i32>)
        ensures
            r == match *self {
                DumpError::Io(errno) => errno,
                DumpError::Status(status) => Some(status),
            },
    {
        match self {
            DumpError::Io(errno) => *errno,
            DumpError::Status(status) => Some(*status),
        }
    }
}

} // verus!
