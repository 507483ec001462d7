use vstd::prelude::*;

use crate::status::Status;

verus! {

/// std's I/O error, carried through unchanged.
#[verifier::external_type_specification]
#[verifier::external_body]
pub struct ExIoError(std::io::Error);

#[derive(Debug)]
pub enum Error {
    IoError(std::io::Error),
    NotmuchError(Status),
    UnspecifiedError,
}

pub type Result<T> = core::result::Result<T, Error>;

impl From<Status> for Error {
    fn from(err: Status) -> (r: Error)
        ensures
            r == Error::NotmuchError(err),
    {
        Error::NotmuchError(err)
    }
}

impl vstd::std_specs::convert::FromSpecImpl<Status> for Error {
    open spec fn obeys_from_spec() -> bool {
        true
    }

    open spec fn from_spec(err: Status) -> Error {
        Error::NotmuchError(err)
    }
}

impl From<std::io::Error> for Error {
    fn from(err: std::io::Error) -> (r: Error)
        ensures
            r == Error::IoError(err),
    {
        Error::IoError(err)
    }
}

impl vstd::std_specs::convert::FromSpecImpl<std::io::Error> for Error {
    open spec fn obeys_from_spec() -> bool {
        true
    }

    open spec fn from_spec(err: std::io::Error) -> Error {
        Error::IoError(err)
    }
}

} // verus!
