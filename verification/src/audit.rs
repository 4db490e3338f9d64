//! Reading the audit log: how many records are asked for, the statements,
//! and the response for what the store returned.

use vstd::prelude::*;
use vstd::string::StringExecFns;
use crate::crud::Statement;
use crate::text::optional_strings;
use crate::types::{
    error_response, ApiResponse, DataResponse, ResponseBody, STATUS_INTERNAL_SERVER_ERROR,
    STATUS_OK,
};

verus! {

/// Query parameters of the recent-activity endpoint.
pub struct AuditQuery {
    pub limit: Option<i64>,
}

/// The number of records to return: 50 if none is asked for, and never
/// more than 500.
pub open spec fn audit_limit_of(limit: Option<i64>) -> i64 {
    let asked: i64 = match limit {
        Some(n) => n,
        None => 50,
    };
    if asked > 500 {
        500
    } else {
        asked
    }
}

/// The statement that selects the most recent audit records, newest
/// first, as one JSON array. Its parameter is the limit.
pub open spec fn audit_recent_sql() -> Seq<char> {
    "SELECT COALESCE(json_agg(row_to_json(t)), '[]') FROM (SELECT * FROM admin_audit_log ORDER BY created_at DESC LIMIT $1) t"@
}

/// What the recent-activity endpoint asks of the store.
pub struct AuditRecentPlan {
    pub sql: &'static str,
    pub limit: i64,
}

/// Recent activity, first half: the statement and the limit bound to it.
pub fn audit_recent_handler(params: &AuditQuery) -> (plan: AuditRecentPlan)
    ensures
        plan.sql@ == audit_recent_sql(),
        plan.limit == audit_limit_of(params.limit),
{
    let asked: i64 = match params.limit {
        Some(n) => n,
        None => 50,
    };
    let limit: i64 = if asked > 500 {
        500
    } else {
        asked
    };
    AuditRecentPlan {
        sql: "SELECT COALESCE(json_agg(row_to_json(t)), '[]') FROM (SELECT * FROM admin_audit_log ORDER BY created_at DESC LIMIT $1) t",
        limit,
    }
}

/// Recent activity, second half: the records under `data` with the limit
/// as `total`, or an internal error with the store's message.
pub fn audit_recent_completed(limit: i64, result: Result<serde_json::Value, String>) -> (r:
    ApiResponse)
    ensures
        match result {
            Ok(data) => r.is_data(data, Some(limit)),
            Err(e) => r.is_error(STATUS_INTERNAL_SERVER_ERROR, e@),
        },
{
    match result {
        Ok(data) => ApiResponse {
            status: STATUS_OK,
            body: ResponseBody::Data(DataResponse { data, total: Some(limit) }),
        },
        Err(e) => error_response(STATUS_INTERNAL_SERVER_ERROR, e.as_str()),
    }
}

/// The statement that selects the audit records of one row, newest first,
/// as one JSON array. Its parameters are the entity type and the row id.
pub open spec fn audit_entity_sql() -> Seq<char> {
    "SELECT COALESCE(json_agg(row_to_json(t)), '[]') FROM (SELECT * FROM admin_audit_log WHERE entity_type = $1 AND entity_id = $2 ORDER BY created_at DESC) t"@
}

/// History of one row, first half: the statement, with the entity type
/// and the row id bound to it.
pub fn audit_entity_handler(entity_type: &str, entity_id: u128) -> (s: Statement)
    ensures
        s.is(audit_entity_sql(), seq![Some(entity_type@)], Some(entity_id)),
{
    let mut binds: Vec<Option<String>> = Vec::new();
    binds.push(Some(String::from_str(entity_type)));
    let s = Statement {
        sql: String::from_str(
            "SELECT COALESCE(json_agg(row_to_json(t)), '[]') FROM (SELECT * FROM admin_audit_log WHERE entity_type = $1 AND entity_id = $2 ORDER BY created_at DESC) t",
        ),
        binds,
        id: Some(entity_id),
    };
    assert(optional_strings(s.binds@) =~= seq![Some(entity_type@)]);
    s
}

} // verus!
