//! The crate-wide error taxonomy: control-plane errors, file and
//! file-descriptor errors, kernel-interface errors, and isolation-layer
//! launch errors. Every fallible step attaches a contextual description,
//! so the top-level message is self-describing.

use crate::firecracker::api;
use vstd::prelude::*;
use vstd::string::*;

verus! {

#[derive(Debug, PartialEq, Eq)]
pub enum Error {
    /// Control-plane API error.
    Api(api::Error),
    /// A file or file-descriptor operation failed; carries a description
    /// of the attempted step and the reported errno.
    Io { context: String, errno: i32 },
    /// A kernel-interface operation (mount, unmount, namespace switch,
    /// lock) failed; carries a description and the reported errno.
    System { context: String, errno: i32 },
    /// The isolation layer failed to launch the jail process.
    Jailer(String),
}

/// View of [`Error::message`] results, one rendering per variant.
pub open spec fn spec_crate_error_message(e: Error) -> Seq<char> {
    match e {
        Error::Api(_) => "Firecracker API error"@,
        Error::Io { context, .. } => "i/o error: "@ + context@,
        Error::System { context, .. } => "system error: "@ + context@,
        Error::Jailer(_) => "jailer error"@,
    }
}

impl Clone for Error {
    /// A clone carries the same variant and payload.
    fn clone(&self) -> (r: Self)
        ensures
            r == *self,
    {
        match self {
            Error::Api(e) => Error::Api(e.clone()),
            Error::Io { context, errno } => Error::Io {
                context: context.clone(),
                errno: *errno,
            },
            Error::System { context, errno } => Error::System {
                context: context.clone(),
                errno: *errno,
            },
            Error::Jailer(m) => Error::Jailer(m.clone()),
        }
    }
}

impl Error {
    /// Human-readable description of the error; the cause (API error
    /// detail or errno) is kept alongside and not folded into the text.
    pub fn message(&self) -> (r: String)
        ensures
            r@ == spec_crate_error_message(*self),
    {
        match self {
            Error::Api(_) => "Firecracker API error".to_owned(),
            Error::Io { context, .. } => {
                let mut r = "i/o error: ".to_owned();
                r.append(context.as_str());
                r
            },
            Error::System { context, .. } => {
                let mut r = "system error: ".to_owned();
                r.append(context.as_str());
                r
            },
            Error::Jailer(_) => "jailer error".to_owned(),
        }
    }
}

} // verus!
