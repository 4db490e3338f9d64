//! Errors of the admin API and the response each one becomes.

use vstd::prelude::*;
use vstd::string::StringExecFns;
use crate::types::{
    error_response, ApiResponse, STATUS_BAD_REQUEST, STATUS_INTERNAL_SERVER_ERROR,
    STATUS_NOT_FOUND,
};

verus! {

/// What can go wrong in a handler. Each variant carries its detail text;
/// for `Database` that is the store's own error message.
#[derive(Debug)]
pub enum AdminError {
    NotFound(String),
    Database(String),
    BadRequest(String),
    PdfGeneration(String),
}

impl AdminError {
    /// The status code this error is sent with.
    pub open spec fn spec_status(&self) -> u16 {
        match self {
            AdminError::NotFound(_) => STATUS_NOT_FOUND,
            AdminError::Database(_) => STATUS_INTERNAL_SERVER_ERROR,
            AdminError::BadRequest(_) => STATUS_BAD_REQUEST,
            AdminError::PdfGeneration(_) => STATUS_INTERNAL_SERVER_ERROR,
        }
    }

    /// The message of this error: what kind it is, then its detail.
    pub open spec fn spec_message(&self) -> Seq<char> {
        match self {
            AdminError::NotFound(d) => "Not found: "@ + d@,
            AdminError::Database(d) => "Database error: "@ + d@,
            AdminError::BadRequest(d) => "Bad request: "@ + d@,
            AdminError::PdfGeneration(d) => "PDF generation error: "@ + d@,
        }
    }

    pub fn status(&self) -> (r: u16)
        ensures
            r == self.spec_status(),
    {
        match self {
            AdminError::NotFound(_) => STATUS_NOT_FOUND,
            AdminError::Database(_) => STATUS_INTERNAL_SERVER_ERROR,
            AdminError::BadRequest(_) => STATUS_BAD_REQUEST,
            AdminError::PdfGeneration(_) => STATUS_INTERNAL_SERVER_ERROR,
        }
    }

    /// The message, as it is shown to the caller.
    pub fn message(&self) -> (r: String)
        ensures
            r@ == self.spec_message(),
    {
        match self {
            AdminError::NotFound(d) => {
                let mut m = String::from_str("Not found: ");
                m.append(d.as_str());
                m
            },
            AdminError::Database(d) => {
                let mut m = String::from_str("Database error: ");
                m.append(d.as_str());
                m
            },
            AdminError::BadRequest(d) => {
                let mut m = String::from_str("Bad request: ");
                m.append(d.as_str());
                m
            },
            AdminError::PdfGeneration(d) => {
                let mut m = String::from_str("PDF generation error: ");
                m.append(d.as_str());
                m
            },
        }
    }

    /// The error envelope for this error, with its status and message.
    pub fn into_response(self) -> (r: ApiResponse)
        ensures
            r.is_error(self.spec_status(), self.spec_message()),
    {
        let status = self.status();
        let message = self.message();
        error_response(status, message.as_str())
    }
}

} // verus!
