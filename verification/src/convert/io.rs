//! Standard I/O failures, as internal errors carrying their description.

use vstd::prelude::*;
use vstd::std_specs::convert::FromSpecImpl;

use crate::error::{is_fresh, Error};
use crate::kind::AppErrorKind;

verus! {

/// `std::io::Error`, carried without looking inside.
#[verifier::external_type_specification]
#[verifier::external_body]
pub struct ExIoError(std::io::Error);

/// The `Display` text of a `std::io::Error`. It depends on how the error
/// was made (an operating-system code is described by the platform), so
/// nothing is stated of it.
#[verifier::external_body]
fn io_error_text(err: &std::io::Error) -> String {
    err.to_string()
}

impl From<std::io::Error> for Error {
    /// An I/O failure becomes an `Internal` error whose message is the
    /// failure's description.
    fn from(err: std::io::Error) -> (r: Error)
        ensures
            is_fresh(r, AppErrorKind::Internal),
            r.message is Some,
    {
        Error::internal(io_error_text(&err))
    }
}

impl FromSpecImpl<std::io::Error> for Error {
    open spec fn obeys_from_spec() -> bool {
        false
    }

    open spec fn from_spec(value: std::io::Error) -> Error {
        arbitrary()
    }
}

} // verus!
