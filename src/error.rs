//! The errors that the service reports to its clients.
use vstd::prelude::*;
use vstd::string::*;

verus! {

/// Why a request failed.
#[derive(Debug)]
pub enum Error {
    NotFound,
    BadRequest,
    StorageError,
    NotUtf8,
    Empty,
    UnsupportedFile(String),
    MissingFile,
}

/// The HTTP status that reports an error: a server error for storage
/// failures, a client error for everything else.
pub open spec fn status_of(e: Error) -> u16 {
    match e {
        Error::NotFound => 404,
        Error::StorageError => 500,
        _ => 400,
    }
}

impl Error {
    pub fn status_code(&self) -> (r: u16)
        ensures
            r == status_of(*self),
    {
        match self {
            Error::NotFound => 404,
            Error::BadRequest => 400,
            Error::StorageError => 500,
            Error::NotUtf8 => 400,
            Error::Empty => 400,
            Error::UnsupportedFile(..) => 400,
            Error::MissingFile => 400,
        }
    }

    /// The message shown to the client.
    pub fn message(&self) -> (r: String)
        ensures
            self is NotFound ==> r@ == "not found"@,
            self is BadRequest ==> r@ == "bad request"@,
            self is StorageError ==> r@ == "storage error"@,
            self is NotUtf8 ==> r@ == "file contents are not recognized and not valid UTF-8"@,
            self is Empty ==> r@ == "empty content"@,
            self is MissingFile ==> r@ == "missing file"@,
            self matches Error::UnsupportedFile(m) ==> r@ == "unsupported file type '"@ + m@
                + "'"@,
    {
        match self {
            Error::NotFound => String::from_str("not found"),
            Error::BadRequest => String::from_str("bad request"),
            Error::StorageError => String::from_str("storage error"),
            Error::NotUtf8 => String::from_str(
                "file contents are not recognized and not valid UTF-8",
            ),
            Error::Empty => String::from_str("empty content"),
            Error::UnsupportedFile(m) => {
                let mut r = String::from_str("unsupported file type '");
                r.append(m.as_str());
                r.append("'");
                r
            },
            Error::MissingFile => String::from_str("missing file"),
        }
    }
}

} // verus!
