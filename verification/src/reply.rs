//! What comes back from one exchange with the store.

use crate::error::{AppError, ErrorKind, Failure};
use crate::wire::{status_line, status_text};
use vstd::prelude::*;
use vstd::string::StringExecFns;

verus! {

/// An HTTP status code. Every value lies between 100 and 999.
#[derive(Clone, Copy, Debug, PartialEq, Eq)]
pub struct Status {
    code: u16,
}

impl View for Status {
    type V = u16;

    closed spec fn view(&self) -> u16 {
        self.code
    }
}

impl Status {
    #[verifier::type_invariant]
    spec fn in_range(self) -> bool {
        100 <= self.code < 1000
    }

    /// Accepts the codes from 100 to 999 and no others.
    pub fn new(code: u16) -> (status: Option<Status>)
        ensures
            100 <= code < 1000 ==> (status matches Some(s) && s@ == code),
            !(100 <= code < 1000) ==> status is None,
    {
        if 100 <= code && code < 1000 {
            Some(Status { code })
        } else {
            None
        }
    }

    /// The numeric code.
    pub fn code(&self) -> (code: u16)
        ensures
            code == self@,
            100 <= code < 1000,
    {
        proof {
            use_type_invariant(self);
        }
        self.code
    }

    /// Whether the code lies between 200 and 299.
    pub fn is_success(&self) -> (success: bool)
        ensures
            success == successful(self@),
    {
        200 <= self.code && self.code < 300
    }

    /// The status written out: its number and its reason phrase.
    pub fn line(&self) -> (text: String)
        ensures
            text@ == status_line(self@),
    {
        proof {
            use_type_invariant(self);
        }
        status_text(self.code)
    }
}

/// The outcome of one exchange, before anything is made of the body.
#[derive(Clone, Debug, PartialEq, Eq)]
pub enum Reply {
    /// The exchange failed before a response arrived: no connection, a
    /// timeout, a response that is not HTTP. The text says why.
    Failed(String),
    /// A response arrived with this status, but its body could not be read.
    Unread { status: Status, reason: String },
    /// A response arrived with this status and this body.
    Received { status: Status, body: String },
}

/// The outcome of one exchange whose body should hold rows of type `T`.
#[derive(Clone, Debug, PartialEq, Eq)]
pub enum Fetched<T> {
    /// The exchange failed before a response arrived: no connection, a
    /// timeout, a response that is not HTTP. The text says why.
    Failed(String),
    /// A response arrived with this status, but its body could not be read.
    Unread { status: Status, reason: String },
    /// A response arrived with this status and this body, which does not
    /// decode as a list of rows; `complaint` is what the decoder said.
    Undecoded { status: Status, body: String, complaint: String },
    /// A response arrived with this status and this body, which decodes as
    /// these rows, in the order in which the body holds them.
    Decoded { status: Status, body: String, rows: Vec<T> },
}

/// A result with its error reduced to kind and message.
pub open spec fn outcome<T>(result: Result<T, AppError>) -> Result<T, Failure> {
    match result {
        Ok(value) => Ok(value),
        Err(error) => Err(error@),
    }
}

/// A failure of the given kind with the given message.
pub open spec fn failed<T>(kind: ErrorKind, message: Seq<char>) -> Result<T, Failure> {
    Err(Failure { kind, message })
}

/// Whether the status lies between 200 and 299.
pub open spec fn successful(status: u16) -> bool {
    200 <= status < 300
}

/// How an exchange is classified, in this order. An exchange that brought
/// no response, or a body that could not be read, is a failure of
/// transport. A status outside 200 to 299 is a failure that the store's
/// query layer reports; its message is the body, which holds the store's
/// report. A body that does not decode is a decode failure, whose complaint
/// is preceded by `preface`. Otherwise the rows are handed on.
pub open spec fn classified<T>(fetched: Fetched<T>, preface: Seq<char>) -> Result<Vec<T>, Failure> {
    match fetched {
        Fetched::Failed(reason) => failed(ErrorKind::Transport, reason@),
        Fetched::Unread { reason, .. } => failed(ErrorKind::Transport, reason@),
        Fetched::Undecoded { status, body, complaint } => if !successful(status@) {
            failed(ErrorKind::RemoteQueryFailure, body@)
        } else {
            failed(ErrorKind::ResponseDecodeFailure, preface + complaint@)
        },
        Fetched::Decoded { status, body, rows } => if !successful(status@) {
            failed(ErrorKind::RemoteQueryFailure, body@)
        } else {
            Ok(rows)
        },
    }
}

/// Whether the exchange succeeded and brought exactly these rows.
pub open spec fn delivers<T>(fetched: Fetched<T>, rows: Vec<T>) -> bool {
    fetched matches Fetched::Decoded { status, rows: decoded, .. } && successful(status@)
        && decoded == rows
}

impl<T> Fetched<T> {
    /// Hands the rows on, or classifies the failure.
    pub fn into_rows(self, preface: &str) -> (result: Result<Vec<T>, AppError>)
        ensures
            outcome(result) == classified(self, preface@),
    {
        match self {
            Fetched::Failed(reason) => Err(AppError::RequestError(reason)),
            Fetched::Unread { reason, .. } => Err(AppError::RequestError(reason)),
            Fetched::Undecoded { status, body, complaint } => {
                if !status.is_success() {
                    Err(AppError::PostgrestError(body))
                } else {
                    let mut message = String::from_str(preface);
                    message.append(complaint.as_str());
                    Err(AppError::JsonParseError(message))
                }
            },
            Fetched::Decoded { status, body, rows } => {
                if !status.is_success() {
                    Err(AppError::PostgrestError(body))
                } else {
                    Ok(rows)
                }
            },
        }
    }

    /// Hands the rows on, or classifies the failure; the decoder's complaint
    /// stands alone.
    pub fn into_plain_rows(self) -> (result: Result<Vec<T>, AppError>)
        ensures
            outcome(result) == classified(self, Seq::empty()),
    {
        proof {
            reveal_strlit("");
            assert(""@ =~= Seq::<char>::empty());
        }
        self.into_rows("")
    }
}

/// The first of the rows, if there is one.
pub open spec fn first_of<T>(rows: Seq<T>) -> Option<T> {
    if rows.len() == 0 {
        None
    } else {
        Some(rows[0])
    }
}

/// Takes the first of the rows, if there is one. An empty list is an
/// ordinary outcome here, never a fault.
pub fn first_row<T>(rows: Vec<T>) -> (row: Option<T>)
    ensures
        row == first_of(rows@),
{
    let mut rows = rows;
    if rows.len() == 0 {
        None
    } else {
        Some(rows.swap_remove(0))
    }
}

} // verus!
