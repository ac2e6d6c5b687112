use vstd::prelude::*;

use crate::clock::Timestamp;
use crate::error::{ObsidianError, ReqError};
use crate::json::{body_record, read_one};
use crate::schools::{NameChange, PasswordChange};
use crate::text::{decimal_usize, parse_usize, same_text};

verus! {

/// The step that reads the whole request body before routing.
#[derive(Debug, Clone, Copy, PartialEq, Eq, Structural)]
pub struct RequestBody {}

impl RequestBody {
    pub fn new() -> (r: RequestBody)
        ensures
            r == (RequestBody {}),
    {
        RequestBody {}
    }
}

/// The step that authenticates a request and records the school it acts
/// for.
#[derive(Debug, Clone, Copy, PartialEq, Eq, Structural)]
pub struct SchoolID {}

impl SchoolID {
    pub fn new() -> (r: SchoolID)
        ensures
            r == (SchoolID {}),
    {
        SchoolID {}
    }
}

/// Mutating routes take JSON only: the media type must be
/// `application/json` (parameters aside).
pub fn check_content_type(media_type: Option<&str>) -> (r: Result<(), ObsidianError>)
    ensures
        r is Ok <==> (media_type is Some && media_type->Some_0@ == "application/json"@),
        r is Err ==> r == Err::<(), ObsidianError>(
            ObsidianError::RequestError(ReqError::WrongContentType),
        ),
{
    match media_type {
        Some(t) => if same_text(t, "application/json") {
            Ok(())
        } else {
            Err(ObsidianError::RequestError(ReqError::WrongContentType))
        },
        None => Err(ObsidianError::RequestError(ReqError::WrongContentType)),
    }
}

/// Reads the `id` path parameter, an unsigned decimal number.
pub fn get_id(raw: &str) -> (r: Result<usize, ObsidianError>)
    ensures
        match decimal_usize(raw@) {
            Some(id) => r == Ok::<usize, ObsidianError>(id),
            None => r == Err::<usize, ObsidianError>(ObsidianError::RequestError(ReqError::NoID)),
        },
{
    match parse_usize(raw) {
        Some(id) => Ok(id),
        None => Err(ObsidianError::RequestError(ReqError::NoID)),
    }
}

/// A change of a school's settings: the shape of the body decides which.
#[derive(Debug)]
pub enum SchoolEdit {
    Password(PasswordChange),
    Name(NameChange),
}

/// Reads the body of a school edit: as a password change if it has that
/// shape, else as a renaming.
pub fn read_school_edit(body: &str) -> (r: Result<SchoolEdit, ObsidianError>)
    ensures
        match r {
            Ok(SchoolEdit::Password(p)) => body_record::<PasswordChange>(body@, Timestamp { micros: 0 })
                == Some(p@),
            Ok(SchoolEdit::Name(n)) => body_record::<PasswordChange>(body@, Timestamp { micros: 0 }) is None
                && body_record::<NameChange>(body@, Timestamp { micros: 0 }) == Some(n@),
            Err(e) => e == ObsidianError::ParseError && body_record::<PasswordChange>(
                body@,
                Timestamp { micros: 0 },
            ) is None && body_record::<NameChange>(body@, Timestamp { micros: 0 }) is None,
        },
{
    let now = Timestamp { micros: 0 };
    match read_one::<PasswordChange>(body, now) {
        Ok(p) => Ok(SchoolEdit::Password(p)),
        Err(_) => match read_one::<NameChange>(body, now) {
            Ok(n) => Ok(SchoolEdit::Name(n)),
            Err(e) => Err(e),
        },
    }
}

/// What a route does.
#[derive(Debug, Clone, Copy, PartialEq, Eq, Structural)]
pub enum Operation {
    Index,
    Show,
    Edit,
    New,
    Delete,
}

pub open spec fn success_status_of(op: Operation) -> u16 {
    match op {
        Operation::New => 201,
        Operation::Delete => 204,
        _ => 200,
    }
}

impl Operation {
    /// The status of a successful response: 201 for a creation, 204 (no
    /// body) for a deletion, 200 otherwise.
    pub fn success_status(&self) -> (r: u16)
        ensures
            r == success_status_of(*self),
    {
        match self {
            Operation::New => 201,
            Operation::Delete => 204,
            _ => 200,
        }
    }
}

} // verus!
