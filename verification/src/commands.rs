//! Typed command responses.
//!
//! Every generic acknowledgement carries an integer status code and a
//! human-readable status text. The no-op probe has its own response type with
//! the same shape, because its parse failure is tolerated where any other
//! command's is an error.

use crate::err::ClientError;
use crate::json;
use vstd::prelude::*;

verus! {

/// A response shape the command engine can deserialize a line into. The
/// session's execution primitive is generic over this, so each caller picks
/// the shape it expects.
pub trait FromJsonLine: Sized {
    /// Whether `line` parses as this shape.
    spec fn line_ok(line: Seq<char>) -> bool;

    /// Whether `v` is the parse of `line`.
    spec fn of_line(line: Seq<char>, v: Self) -> bool;

    /// Parses one response line, or reports a deserialization error.
    fn parse_line(line: &str) -> (r: Result<Self, ClientError>)
        ensures
            Self::line_ok(line@) ==> (r matches Ok(v) && Self::of_line(line@, v)),
            !Self::line_ok(line@) ==> (r matches Err(e) && e == ClientError::Deserialize),
    ;
}

/// The generic acknowledgement: a status code (0 reports success) and a
/// status text.
#[derive(Clone, Debug, PartialEq, Eq)]
pub struct Status {
    pub status_code: i64,
    pub status_text: String,
}

impl Status {
    /// Converts a failure status into an error; a success status passes
    /// through unchanged. Kept apart from the exchange itself so callers can
    /// inspect or log a failure status before deciding it is fatal.
    pub fn assert_ok(self) -> (r: Result<Status, ClientError>)
        ensures
            self.status_code == 0 ==> r == Ok::<Status, ClientError>(self),
            self.status_code != 0 ==> r == Err::<Status, ClientError>(
                ClientError::CommandStatus(self),
            ),
    {
        if self.status_code == 0 {
            Ok(self)
        } else {
            Err(ClientError::CommandStatus(self))
        }
    }
}

impl FromJsonLine for Status {
    open spec fn line_ok(line: Seq<char>) -> bool {
        json::status_fields(line) is Some
    }

    open spec fn of_line(line: Seq<char>, v: Self) -> bool {
        json::status_fields(line) == Some((v.status_code, v.status_text@))
    }

    fn parse_line(line: &str) -> (r: Result<Self, ClientError>) {
        match json::parse_status_fields(line) {
            Some((code, text)) => Ok(Status { status_code: code, status_text: text }),
            None => Err(ClientError::Deserialize),
        }
    }
}

/// The no-op probe's response. On some firmware states the probe's reply does
/// not have this shape at all; the session tolerates that (and only that)
/// parse failure.
#[derive(Clone, Debug, PartialEq, Eq)]
pub struct NoOp {
    pub status_code: i64,
    pub status_text: String,
}

impl FromJsonLine for NoOp {
    open spec fn line_ok(line: Seq<char>) -> bool {
        json::status_fields(line) is Some
    }

    open spec fn of_line(line: Seq<char>, v: Self) -> bool {
        json::status_fields(line) == Some((v.status_code, v.status_text@))
    }

    fn parse_line(line: &str) -> (r: Result<Self, ClientError>) {
        match json::parse_status_fields(line) {
            Some((code, text)) => Ok(NoOp { status_code: code, status_text: text }),
            None => Err(ClientError::Deserialize),
        }
    }
}

} // verus!
