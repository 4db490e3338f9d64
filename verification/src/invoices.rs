//! The invoice list, which returns the sums over all matching invoices
//! beside the page, and the invoice document offered for download.

use vstd::prelude::*;
use vstd::string::StringExecFns;
use crate::crud::{generic_list, list_count_sql, list_data_sql};
use crate::entities::InvoiceEntity;
use crate::export::attachment;
use crate::query::{build_filters, filters_of, where_clause_of, PaginationQuery, QueryParams};
use crate::schema::AdminEntity;
use crate::text::strings;
use crate::types::{
    error_response, ApiResponse, PaginatedWithTotals, ResponseBody,
    STATUS_INTERNAL_SERVER_ERROR, STATUS_OK,
};

verus! {

/// The statement that sums the amounts and the payments of the invoices
/// matching a list request.
pub open spec fn invoice_totals_sql(params: QueryParams) -> Seq<char> {
    "SELECT COALESCE(SUM(amount), 0)::float8, COALESCE(SUM(paid), 0)::float8 FROM admin_invoices "@
        + where_clause_of(filters_of(InvoiceEntity::model(), params).conditions)
}

/// The three statements of an invoice list request. All take the same
/// bound values.
pub struct InvoiceListPlan {
    pub data_sql: String,
    pub count_sql: String,
    pub totals_sql: String,
    pub bind_values: Vec<String>,
}

/// The message of the first error among the three results of an invoice
/// list request.
pub open spec fn first_invoice_error(
    data: Result<Vec<serde_json::Value>, String>,
    count: Result<i64, String>,
    totals: Result<serde_json::Value, String>,
) -> Seq<char> {
    match data {
        Err(e) => e@,
        Ok(_) => match count {
            Err(e) => e@,
            Ok(_) => match totals {
                Err(e) => e@,
                Ok(_) => Seq::empty(),
            },
        },
    }
}

/// Invoice list, first half: the statements of a list request on the
/// invoice schema, and the statement for the sums.
pub fn invoices_list_handler(params: &PaginationQuery) -> (plan: InvoiceListPlan)
    ensures
        plan.data_sql@ == list_data_sql(InvoiceEntity::model(), params@),
        plan.count_sql@ == list_count_sql(InvoiceEntity::model(), params@),
        plan.totals_sql@ == invoice_totals_sql(params@),
        strings(plan.bind_values@) == filters_of(InvoiceEntity::model(), params@).bind_values,
{
    let schema = InvoiceEntity::schema();
    let list = generic_list(&schema, params);
    let where_clause = build_filters(&schema, params).where_clause();
    let mut totals_sql = String::from_str(
        "SELECT COALESCE(SUM(amount), 0)::float8, COALESCE(SUM(paid), 0)::float8 FROM admin_invoices ",
    );
    totals_sql.append(where_clause.as_str());
    InvoiceListPlan {
        data_sql: list.data_sql,
        count_sql: list.count_sql,
        totals_sql,
        bind_values: list.bind_values,
    }
}

/// Invoice list, second half: the page with the sums if all three
/// statements succeeded, else an internal error with the store's message,
/// that of the data statement first, then that of the count.
pub fn invoices_list_completed(
    data: Result<Vec<serde_json::Value>, String>,
    count: Result<i64, String>,
    totals: Result<serde_json::Value, String>,
) -> (r: ApiResponse)
    ensures
        match (data, count, totals) {
            (Ok(rows), Ok(total), Ok(sums)) => r.is_page_with_totals(rows@, total, sums),
            _ => r.is_error(
                STATUS_INTERNAL_SERVER_ERROR,
                first_invoice_error(data, count, totals),
            ),
        },
{
    match data {
        Ok(rows) => match count {
            Ok(total) => match totals {
                Ok(sums) => ApiResponse {
                    status: STATUS_OK,
                    body: ResponseBody::PageWithTotals(
                        PaginatedWithTotals { data: rows, total, totals: sums },
                    ),
                },
                Err(e) => error_response(STATUS_INTERNAL_SERVER_ERROR, e.as_str()),
            },
            Err(e) => error_response(STATUS_INTERNAL_SERVER_ERROR, e.as_str()),
        },
        Err(e) => error_response(STATUS_INTERNAL_SERVER_ERROR, e.as_str()),
    }
}

/// The file name of the document of the invoice with the given reference.
pub open spec fn invoice_filename(reference: Seq<char>) -> Seq<char> {
    "invoice-"@ + reference + ".pdf"@
}

/// The `Content-Disposition` of the document of the invoice with the given
/// reference.
pub fn invoice_pdf_disposition(reference: &str) -> (r: String)
    ensures
        r@ == attachment(invoice_filename(reference@)),
{
    let mut r = String::from_str("attachment; filename=\"");
    r.append("invoice-");
    r.append(reference);
    r.append(".pdf");
    r.append("\"");
    proof {
        assert(r@ =~= attachment(invoice_filename(reference@)));
    }
    r
}

} // verus!
