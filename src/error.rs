use vstd::prelude::*;

verus! {

/// Declares std::io::Error, carried opaquely as the host's report of a failure.
#[verifier::external_type_specification]
#[verifier::external_body]
pub struct ExIoError(std::io::Error);

/// The failures this library reports.
#[derive(Debug)]
pub enum Error {
    /// The host reported a failure while opening or configuring the device file.
    StdError(std::io::Error),
    /// The interface name does not fit the kernel's name buffer, or holds a zero byte.
    InvalidName,
}

pub type Result<T> = std::result::Result<T, Error>;

impl From<std::io::Error> for Error {
    fn from(e: std::io::Error) -> (r: Error)
        ensures
            r == Error::StdError(e),
    {
        Error::StdError(e)
    }
}

impl vstd::std_specs::convert::FromSpecImpl<std::io::Error> for Error {
    open spec fn obeys_from_spec() -> bool {
        true
    }

    open spec fn from_spec(e: std::io::Error) -> Error {
        Error::StdError(e)
    }
}

} // verus!
