//! The errors a request can end in, and how failures of the database become them.
use vstd::prelude::*;
use vstd::string::*;

verus! {

/// The errors a request can end in.
#[derive(Debug, PartialEq)]
pub enum Error {
    /// Answered with status 400; the text says why.
    BadRequest(String),
    /// Answered with status 403.
    Forbidden,
    /// Answered with status 500.
    InternalServerError,
}

/// How a statement against the database failed, as far as the handlers tell failures apart.
#[derive(Debug, PartialEq, Eq, Clone, Copy)]
pub enum DbFailure {
    /// The query found no row.
    NotFound,
    /// The statement broke a uniqueness constraint.
    UniqueViolation,
    /// Any other failure.
    Other,
}

/// `e` is the error that the database failure `f` is answered with.
pub open spec fn is_db_error(e: Error, f: DbFailure) -> bool {
    match f {
        DbFailure::NotFound => e matches Error::BadRequest(m) && m@ == "Not found"@,
        DbFailure::UniqueViolation => e matches Error::BadRequest(m) && m@ == "Already exists"@,
        DbFailure::Other => e is InternalServerError,
    }
}

/// The HTTP status of an error.
pub open spec fn status_of(e: Error) -> u16 {
    match e {
        Error::BadRequest(_) => 400,
        Error::Forbidden => 403,
        Error::InternalServerError => 500,
    }
}

impl Error {
    /// The error a database failure is answered with: a missing row and a duplicate are bad
    /// requests, anything else an internal server error.
    pub fn from(failure: DbFailure) -> (e: Error)
        ensures
            is_db_error(e, failure),
    {
        match failure {
            DbFailure::NotFound => Error::BadRequest(String::from_str("Not found")),
            DbFailure::UniqueViolation => Error::BadRequest(String::from_str("Already exists")),
            DbFailure::Other => Error::InternalServerError,
        }
    }

    /// The HTTP status the error is answered with.
    pub fn status_code(&self) -> (code: u16)
        ensures
            code == status_of(*self),
            *self matches Error::BadRequest(_) ==> code == 400,
            *self matches Error::Forbidden ==> code == 403,
            *self matches Error::InternalServerError ==> code == 500,
    {
        match self {
            Error::BadRequest(_) => 400,
            Error::Forbidden => 403,
            Error::InternalServerError => 500,
        }
    }

    /// The text the error is answered with: the reason of a bad request, else a fixed text.
    pub fn message(&self) -> (text: String)
        ensures
            match *self {
                Error::BadRequest(m) => text@ == m@,
                Error::Forbidden => text@ == "Forbidden"@,
                Error::InternalServerError => text@ == "Internal Server Error"@,
            },
    {
        match self {
            Error::BadRequest(m) => m.clone(),
            Error::Forbidden => String::from_str("Forbidden"),
            Error::InternalServerError => String::from_str("Internal Server Error"),
        }
    }
}

/// A bad request is answered with status 400 whatever its text; a forbidden request with 403
/// and an internal server error with 500.
pub proof fn lemma_status_by_kind(e: Error)
    ensures
        e matches Error::BadRequest(_) ==> status_of(e) == 400,
        e matches Error::Forbidden ==> status_of(e) == 403,
        e matches Error::InternalServerError ==> status_of(e) == 500,
        forall|m: String| #[trigger] status_of(Error::BadRequest(m)) == 400,
{
}

/// Every failure of the database is answered with an error: a bad request (400) when the row
/// is missing or already exists, an internal server error (500) otherwise.
pub proof fn lemma_db_error_status(e: Error, f: DbFailure)
    requires
        is_db_error(e, f),
    ensures
        status_of(e) == (if f == DbFailure::Other {
            500u16
        } else {
            400u16
        }),
{
}

} // verus!
