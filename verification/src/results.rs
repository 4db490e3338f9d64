//! Responses of the endpoints that return what one statement selects:
//! lookups, reports, and the row that a detail page builds on.

use vstd::prelude::*;
use crate::types::{
    error_response, not_found, not_found_message, ApiResponse, DataResponse, ResponseBody,
    STATUS_INTERNAL_SERVER_ERROR, STATUS_NOT_FOUND, STATUS_OK,
};

verus! {

/// The response of an endpoint that returns one JSON value from the store
/// as it is: that value, or an internal error with the store's message.
pub fn json_completed(result: Result<serde_json::Value, String>) -> (r: ApiResponse)
    ensures
        match result {
            Ok(data) => r.is_row(data),
            Err(e) => r.is_error(STATUS_INTERNAL_SERVER_ERROR, e@),
        },
{
    match result {
        Ok(data) => ApiResponse { status: STATUS_OK, body: ResponseBody::Row(data) },
        Err(e) => error_response(STATUS_INTERNAL_SERVER_ERROR, e.as_str()),
    }
}

/// The response of a report: the rows under `data`, or an internal error
/// with the store's message.
pub fn report_completed(result: Result<serde_json::Value, String>) -> (r: ApiResponse)
    ensures
        match result {
            Ok(data) => r.is_data(data, None),
            Err(e) => r.is_error(STATUS_INTERNAL_SERVER_ERROR, e@),
        },
{
    match result {
        Ok(data) => ApiResponse {
            status: STATUS_OK,
            body: ResponseBody::Data(DataResponse { data, total: None }),
        },
        Err(e) => error_response(STATUS_INTERNAL_SERVER_ERROR, e.as_str()),
    }
}

/// The row that a detail endpoint builds on, or the response that ends the
/// request: not found, naming `what`, if there is no such row, and an
/// internal error with the store's message if the store failed.
pub fn detail_row(what: &str, result: Result<Option<serde_json::Value>, String>) -> (r: Result<
    serde_json::Value,
    ApiResponse,
>)
    ensures
        match result {
            Ok(Some(row)) => r == Ok::<serde_json::Value, ApiResponse>(row),
            Ok(None) => r is Err && r->Err_0.is_error(STATUS_NOT_FOUND, not_found_message(what@)),
            Err(e) => r is Err && r->Err_0.is_error(STATUS_INTERNAL_SERVER_ERROR, e@),
        },
{
    match result {
        Ok(Some(row)) => Ok(row),
        Ok(None) => Err(not_found(what)),
        Err(e) => Err(error_response(STATUS_INTERNAL_SERVER_ERROR, e.as_str())),
    }
}

} // verus!
