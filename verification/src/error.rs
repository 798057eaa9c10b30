//! The error taxonomy of the service and the uniform error envelope.
//!
//! Every failure of a handler is one of the variants below; a pure, total
//! mapping takes each variant to its HTTP status code, its taxonomy name and
//! a human-readable message.

use vstd::prelude::*;

verus! {

/// Mathematical model of an error value: every string field is abstracted
/// to its character sequence.
#[verifier::ext_equal]
pub enum ErrorModel {
    NotFound { entity: Seq<char> },
    Internal { err: Seq<char> },
    Database { error: Seq<char> },
    InvalidField { field: Seq<char>, explanation: Seq<char> },
    BusyUsername { username: Seq<char> },
}

/// A handler failure.
#[derive(Debug)]
pub enum Error {
    /// The requested entity does not exist.
    NotFound { entity: String },
    /// A framework-level extraction or decoding failure.
    Internal { err: String },
    /// The persistence layer failed unexpectedly.
    Database { error: String },
    /// A supplied parameter violates a validation rule.
    InvalidField { field: String, explanation: String },
    /// The requested username is already held by a different record.
    BusyUsername { username: String },
}

impl View for Error {
    type V = ErrorModel;

    open spec fn view(&self) -> ErrorModel {
        match self {
            Error::NotFound { entity } => ErrorModel::NotFound { entity: entity@ },
            Error::Internal { err } => ErrorModel::Internal { err: err@ },
            Error::Database { error } => ErrorModel::Database { error: error@ },
            Error::InvalidField { field, explanation } => ErrorModel::InvalidField {
                field: field@,
                explanation: explanation@,
            },
            Error::BusyUsername { username } => ErrorModel::BusyUsername { username: username@ },
        }
    }
}

/// The HTTP status code owed to each error kind.
pub open spec fn spec_status_code(e: ErrorModel) -> u16 {
    match e {
        ErrorModel::NotFound { .. } => 404,
        ErrorModel::Internal { .. } => 500,
        ErrorModel::Database { .. } => 500,
        ErrorModel::InvalidField { .. } => 400,
        ErrorModel::BusyUsername { .. } => 400,
    }
}

/// The taxonomy name of each error kind.
pub open spec fn spec_name(e: ErrorModel) -> Seq<char> {
    match e {
        ErrorModel::NotFound { .. } => "NotFound"@,
        ErrorModel::Internal { .. } => "Internal"@,
        ErrorModel::Database { .. } => "Database"@,
        ErrorModel::InvalidField { .. } => "InvalidField"@,
        ErrorModel::BusyUsername { .. } => "BusyUsername"@,
    }
}

/// The human-readable message of each error value.
pub open spec fn spec_message(e: ErrorModel) -> Seq<char> {
    match e {
        ErrorModel::NotFound { entity } => entity + " was not found"@,
        ErrorModel::Internal { err } => "Internal Error "@ + err,
        ErrorModel::Database { error } => "Database Error "@ + error,
        ErrorModel::InvalidField { field, explanation } => "Invalid field: `"@ + field
            + "`, it should be "@ + explanation,
        ErrorModel::BusyUsername { username } => "Username `"@ + username
            + "` is busy, try another"@,
    }
}

impl Error {
    /// The taxonomy name of this error.
    pub fn name(&self) -> (r: String)
        ensures
            r@ == spec_name(self@),
    {
        match self {
            Error::NotFound { .. } => "NotFound".to_owned(),
            Error::Internal { .. } => "Internal".to_owned(),
            Error::Database { .. } => "Database".to_owned(),
            Error::InvalidField { .. } => "InvalidField".to_owned(),
            Error::BusyUsername { .. } => "BusyUsername".to_owned(),
        }
    }

    /// The HTTP status code this error is reported with.
    pub fn status_code(&self) -> (r: u16)
        ensures
            r == spec_status_code(self@),
    {
        match self {
            Error::NotFound { .. } => 404,
            Error::Internal { .. } => 500,
            Error::Database { .. } => 500,
            Error::InvalidField { .. } => 400,
            Error::BusyUsername { .. } => 400,
        }
    }

    /// The human-readable message of this error.
    pub fn message(&self) -> (r: String)
        ensures
            r@ == spec_message(self@),
    {
        match self {
            Error::NotFound { entity } => {
                let mut m = entity.clone();
                m.append(" was not found");
                m
            },
            Error::Internal { err } => {
                let mut m = "Internal Error ".to_owned();
                m.append(err.as_str());
                m
            },
            Error::Database { error } => {
                let mut m = "Database Error ".to_owned();
                m.append(error.as_str());
                m
            },
            Error::InvalidField { field, explanation } => {
                let mut m = "Invalid field: `".to_owned();
                m.append(field.as_str());
                m.append("`, it should be ");
                m.append(explanation.as_str());
                m
            },
            Error::BusyUsername { username } => {
                let mut m = "Username `".to_owned();
                m.append(username.as_str());
                m.append("` is busy, try another");
                m
            },
        }
    }

    /// The uniform error envelope: `code` mirrors the HTTP status, `error`
    /// is the taxonomy name, `message` the explanation.
    pub fn to_response(&self) -> (r: ErrorResponse)
        ensures
            r.code == spec_status_code(self@),
            r.error@ == spec_name(self@),
            r.message@ == spec_message(self@),
    {
        ErrorResponse { code: self.status_code(), error: self.name(), message: self.message() }
    }
}

impl Default for Error {
    /// The catch-all error value.
    fn default() -> (r: Self)
        ensures
            r@ == (ErrorModel::Internal { err: "please try again later"@ }),
    {
        Error::Internal { err: "please try again later".to_owned() }
    }
}

/// The body of every failure response.
pub struct ErrorResponse {
    pub code: u16,
    pub error: String,
    pub message: String,
}

} // verus!
