//! Response envelopes and the status each one is sent with.

use vstd::prelude::*;
use vstd::string::StringExecFns;

verus! {

pub const STATUS_OK: u16 = 200;

pub const STATUS_CREATED: u16 = 201;

pub const STATUS_BAD_REQUEST: u16 = 400;

pub const STATUS_NOT_FOUND: u16 = 404;

pub const STATUS_INTERNAL_SERVER_ERROR: u16 = 500;

/// Paginated response: `{ data: [...], total: N }`.
#[derive(Debug)]
pub struct PaginatedResponse {
    pub data: Vec<serde_json::Value>,
    pub total: i64,
}

/// Paginated response with a totals row: `{ data, total, totals }`.
#[derive(Debug)]
pub struct PaginatedWithTotals {
    pub data: Vec<serde_json::Value>,
    pub total: i64,
    pub totals: serde_json::Value,
}

/// Response to a create: `{ success: true, id: "uuid" }`.
#[derive(Debug)]
pub struct CreateResponse {
    pub success: bool,
    pub id: String,
}

/// Response to an update or a delete: `{ success: true }`.
#[derive(Debug)]
pub struct SuccessResponse {
    pub success: bool,
}

/// Error response: `{ error: "message" }`.
#[derive(Debug)]
pub struct ErrorBody {
    pub error: String,
}

/// A JSON value under `data`, with a `total` beside it where there is one:
/// `{ data: ... }` or `{ data: ..., total: N }`.
#[derive(Debug)]
pub struct DataResponse {
    pub data: serde_json::Value,
    pub total: Option<i64>,
}

/// The body of a response.
#[derive(Debug)]
pub enum ResponseBody {
    /// A JSON value as the store returned it: the body is that value.
    Row(serde_json::Value),
    Data(DataResponse),
    Page(PaginatedResponse),
    PageWithTotals(PaginatedWithTotals),
    Created(CreateResponse),
    Success(SuccessResponse),
    Error(ErrorBody),
}

/// A response: the status code and the body to serialize.
#[derive(Debug)]
pub struct ApiResponse {
    pub status: u16,
    pub body: ResponseBody,
}

impl ApiResponse {
    /// The plain success envelope, with status 200.
    pub open spec fn is_success(&self) -> bool {
        &&& self.status == STATUS_OK
        &&& self.body matches ResponseBody::Success(s) && s.success
    }

    /// The created envelope for `id`, with status 201.
    pub open spec fn is_created(&self, id: Seq<char>) -> bool {
        &&& self.status == STATUS_CREATED
        &&& self.body matches ResponseBody::Created(c) && c.success && c.id@ == id
    }

    /// The error envelope with the given status and message.
    pub open spec fn is_error(&self, status: u16, message: Seq<char>) -> bool {
        &&& self.status == status
        &&& self.body matches ResponseBody::Error(e) && e.error@ == message
    }

    /// The given row as the whole body, with status 200.
    pub open spec fn is_row(&self, row: serde_json::Value) -> bool {
        &&& self.status == STATUS_OK
        &&& self.body matches ResponseBody::Row(r) && r == row
    }

    /// The page envelope with the given rows and total, with status 200.
    pub open spec fn is_page(&self, data: Seq<serde_json::Value>, total: i64) -> bool {
        &&& self.status == STATUS_OK
        &&& self.body matches ResponseBody::Page(p) && p.data@ == data && p.total == total
    }

    /// The given value under `data`, with the given total if any, with
    /// status 200.
    pub open spec fn is_data(&self, data: serde_json::Value, total: Option<i64>) -> bool {
        &&& self.status == STATUS_OK
        &&& self.body matches ResponseBody::Data(d) && d.data == data && d.total == total
    }

    /// The page envelope with totals, with status 200.
    pub open spec fn is_page_with_totals(
        &self,
        data: Seq<serde_json::Value>,
        total: i64,
        totals: serde_json::Value,
    ) -> bool {
        &&& self.status == STATUS_OK
        &&& self.body matches ResponseBody::PageWithTotals(p) && p.data@ == data && p.total
            == total && p.totals == totals
    }
}

/// The message of a not-found response for an entity label.
pub open spec fn not_found_message(entity: Seq<char>) -> Seq<char> {
    entity + " not found"@
}

pub fn success_response() -> (r: ApiResponse)
    ensures
        r.is_success(),
{
    ApiResponse { status: STATUS_OK, body: ResponseBody::Success(SuccessResponse { success: true }) }
}

pub fn created_response(id: String) -> (r: ApiResponse)
    ensures
        r.is_created(id@),
{
    ApiResponse {
        status: STATUS_CREATED,
        body: ResponseBody::Created(CreateResponse { success: true, id }),
    }
}

pub fn error_response(status: u16, message: &str) -> (r: ApiResponse)
    ensures
        r.is_error(status, message@),
{
    ApiResponse { status, body: ResponseBody::Error(ErrorBody { error: String::from_str(message) }) }
}

pub fn not_found(entity: &str) -> (r: ApiResponse)
    ensures
        r.is_error(STATUS_NOT_FOUND, not_found_message(entity@)),
{
    let mut message = String::from_str(entity);
    message.append(" not found");
    error_response(STATUS_NOT_FOUND, message.as_str())
}

} // verus!
