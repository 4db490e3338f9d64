//! The five generic operations on an entity type. Each one is split where
//! the store is asked: a first function turns the request into either a
//! response or the statement to run, and a second one turns what the store
//! returned into the response and the audit record to write.

use vstd::prelude::*;
use vstd::string::StringExecFns;
use crate::json::{
    has_member, is_object, json_kind, json_member, json_to_sql_string, member, sql_text, JsonKind,
};
use crate::query::{
    build_filters, filters_of, placeholder, resolved_order, resolved_sort, validated_sort,
    where_clause_of, PaginationQuery, QueryParams,
};
use crate::schema::{texts, EntitySchema, SchemaModel};
use crate::text::{decimal, join, join_texts, optional_strings, push_decimal, strings};
use crate::types::{
    created_response, error_response, not_found, not_found_message, success_response,
    ApiResponse, PaginatedResponse, ResponseBody, STATUS_BAD_REQUEST,
    STATUS_INTERNAL_SERVER_ERROR, STATUS_NOT_FOUND, STATUS_OK,
};

verus! {

/// A statement for the store. Parameters `$1`, `$2`, ... take `binds` in
/// order, each a text or, where there is none, SQL NULL; the row id, where
/// there is one, is the parameter after them.
#[derive(Debug)]
pub struct Statement {
    pub sql: String,
    pub binds: Vec<Option<String>>,
    pub id: Option<u128>,
}

impl Statement {
    /// Whether this statement has the given text, bound values and row id.
    pub open spec fn is(
        &self,
        sql: Seq<char>,
        binds: Seq<Option<Seq<char>>>,
        id: Option<u128>,
    ) -> bool {
        self.sql@ == sql && optional_strings(self.binds@) == binds && self.id == id
    }
}

/// What the first half of an operation decides.
#[derive(Debug)]
pub enum Step {
    /// Answer at once; the store is not asked.
    Respond(ApiResponse),
    /// Run this statement and hand the result to the second half.
    Execute(Statement),
}

/// The two statements of a list request. Both take the same bound values.
#[derive(Debug)]
pub struct ListPlan {
    /// Selects the rows of the requested window, each as a JSON object.
    pub data_sql: String,
    /// Counts the rows that match, whatever the window.
    pub count_sql: String,
    pub bind_values: Vec<String>,
}

/// The record of one mutation, as the audit log takes it. Parameters `$1`
/// to `$5` of `sql` take the five fields below in order.
#[derive(Debug)]
pub struct AuditWrite<'a> {
    pub sql: String,
    pub entity_type: String,
    pub entity_id: String,
    pub action: String,
    pub old_values: Option<&'a serde_json::Value>,
    pub new_values: Option<&'a serde_json::Value>,
}

impl<'a> AuditWrite<'a> {
    /// Whether this is the audit record of the given mutation.
    pub open spec fn records(
        &self,
        entity_type: Seq<char>,
        entity_id: Seq<char>,
        action: Seq<char>,
        old_values: Option<&'a serde_json::Value>,
        new_values: Option<&'a serde_json::Value>,
    ) -> bool {
        &&& self.sql@ == audit_sql()
        &&& self.entity_type@ == entity_type
        &&& self.entity_id@ == entity_id
        &&& self.action@ == action
        &&& self.old_values == old_values
        &&& self.new_values == new_values
    }
}

/// What the second half of a mutation decides: the response, and the audit
/// record to write if the mutation took place. The response does not wait
/// for the audit write, nor depend on how it ends.
#[derive(Debug)]
pub struct Outcome<'a> {
    pub response: ApiResponse,
    pub audit: Option<AuditWrite<'a>>,
}

impl<'a> Outcome<'a> {
    /// Whether there is an audit record, and it is that of the given mutation.
    pub open spec fn audits(
        &self,
        entity_type: Seq<char>,
        entity_id: Seq<char>,
        action: Seq<char>,
        old_values: Option<&'a serde_json::Value>,
        new_values: Option<&'a serde_json::Value>,
    ) -> bool {
        self.audit matches Some(w) && w.records(
            entity_type,
            entity_id,
            action,
            old_values,
            new_values,
        )
    }
}

/// The insert into the audit log. The set of changed fields is always empty.
pub open spec fn audit_sql() -> Seq<char> {
    "INSERT INTO admin_audit_log (entity_type, entity_id, action, old_values, new_values, changed_fields) VALUES ($1, $2::uuid, $3, $4, $5, '{}')"@
}

/// The page asked for: 1 if none is, and never below 1.
pub open spec fn page_of(page: Option<i64>) -> int {
    match page {
        Some(p) => if p < 1 {
            1
        } else {
            p as int
        },
        None => 1,
    }
}

/// The page size asked for: 25 if none is.
pub open spec fn per_page_of(per_page: Option<i64>) -> int {
    match per_page {
        Some(n) => n as int,
        None => 25,
    }
}

/// The window of a list request. A page size of zero or below asks for all
/// rows: there is no window then, whatever the page.
pub open spec fn limit_offset(page: Option<i64>, per_page: Option<i64>) -> Seq<char> {
    if per_page_of(per_page) > 0 {
        "LIMIT "@ + decimal(per_page_of(per_page) as nat) + " OFFSET "@ + decimal(
            ((page_of(page) - 1) * per_page_of(per_page)) as nat,
        )
    } else {
        Seq::empty()
    }
}

/// The statement that selects the rows of a list request.
pub open spec fn list_data_sql(schema: SchemaModel, params: QueryParams) -> Seq<char> {
    "SELECT row_to_json(t) FROM (SELECT * FROM "@ + schema.table_name + " "@ + where_clause_of(
        filters_of(schema, params).conditions,
    ) + " ORDER BY "@ + resolved_sort(schema, params.sort) + " "@ + resolved_order(params.order)
        + " "@ + limit_offset(params.page, params.per_page) + ") t"@
}

/// The statement that counts the rows matching a list request.
pub open spec fn list_count_sql(schema: SchemaModel, params: QueryParams) -> Seq<char> {
    "SELECT COUNT(*)::bigint FROM "@ + schema.table_name + " "@ + where_clause_of(
        filters_of(schema, params).conditions,
    )
}

/// The statement that selects one row by id.
pub open spec fn get_sql(table: Seq<char>) -> Seq<char> {
    "SELECT row_to_json(t) FROM (SELECT * FROM "@ + table + " WHERE id = $1) t"@
}

/// The statement that deletes one row by id.
pub open spec fn delete_sql(table: Seq<char>) -> Seq<char> {
    "DELETE FROM "@ + table + " WHERE id = $1 RETURNING id::text"@
}

/// The writable columns that the body has a member for, in the schema's
/// order. Members under any other name play no part.
pub open spec fn present_fields(writable: Seq<Seq<char>>, body: serde_json::Value) -> Seq<
    Seq<char>,
> {
    writable.filter(|f: Seq<char>| has_member(body, f))
}

/// The values bound for the present columns: for each, the text of the
/// body's member of that name, or SQL NULL where the member is null.
pub open spec fn bound_values(present: Seq<Seq<char>>, body: serde_json::Value) -> Seq<
    Option<Seq<char>>,
> {
    Seq::new(present.len(), |i: int| sql_text(member(body, present[i])))
}

/// The parameters `$1` to `$n`.
pub open spec fn placeholders(n: nat) -> Seq<Seq<char>> {
    Seq::new(n, |i: int| placeholder((i + 1) as nat))
}

/// The columns of an insert: the id, then the present columns.
pub open spec fn insert_columns(present: Seq<Seq<char>>) -> Seq<Seq<char>> {
    seq!["id"@] + present
}

/// The values of an insert: a fresh id made by the store, then one
/// parameter per present column.
pub open spec fn insert_values(n: nat) -> Seq<Seq<char>> {
    seq!["gen_random_uuid()"@] + placeholders(n)
}

/// The insert statement for the present columns.
pub open spec fn insert_sql(table: Seq<char>, present: Seq<Seq<char>>) -> Seq<char> {
    "INSERT INTO "@ + table + " ("@ + join(insert_columns(present), ", "@) + ") VALUES ("@ + join(
        insert_values(present.len()),
        ", "@,
    ) + ") RETURNING id::text"@
}

/// Assignment of parameter `idx` to a column.
pub open spec fn set_clause(field: Seq<char>, idx: nat) -> Seq<char> {
    field + " = "@ + placeholder(idx)
}

/// The assignments of an update: one per present column, then the refresh
/// of the modification time.
pub open spec fn update_sets(present: Seq<Seq<char>>) -> Seq<Seq<char>> {
    Seq::new(present.len(), |i: int| set_clause(present[i], (i + 1) as nat)).push(
        "updated_at = NOW()"@,
    )
}

/// The update statement for the present columns. The row id is the
/// parameter after theirs.
pub open spec fn update_sql(table: Seq<char>, present: Seq<Seq<char>>) -> Seq<char> {
    "UPDATE "@ + table + " SET "@ + join(update_sets(present), ", "@) + " WHERE id = "@
        + placeholder(present.len() + 1) + " RETURNING id::text"@
}

/// The message of the first error among the two results of a list request.
pub open spec fn first_error(
    data: Result<Vec<serde_json::Value>, String>,
    count: Result<i64, String>,
) -> Seq<char> {
    match data {
        Err(e) => e@,
        Ok(_) => match count {
            Err(e) => e@,
            Ok(_) => Seq::empty(),
        },
    }
}

fn window(page: Option<i64>, per_page: Option<i64>) -> (r: String)
    ensures
        r@ == limit_offset(page, per_page),
{
    let page: i64 = match page {
        Some(p) => if p < 1 {
            1
        } else {
            p
        },
        None => 1,
    };
    let per_page: i64 = match per_page {
        Some(n) => n,
        None => 25,
    };
    if per_page > 0 {
        let size: u128 = per_page as u128;
        let skipped: u128 = (page - 1) as u128;
        assert(skipped * size <= 0x7fff_ffff_ffff_ffff * 0x7fff_ffff_ffff_ffff) by (nonlinear_arith)
            requires
                skipped <= 0x7fff_ffff_ffff_ffff,
                size <= 0x7fff_ffff_ffff_ffff,
        ;
        let offset: u128 = skipped * size;
        let mut out = String::from_str("LIMIT ");
        push_decimal(&mut out, size);
        out.append(" OFFSET ");
        push_decimal(&mut out, offset);
        out
    } else {
        String::new()
    }
}

/// List, first half: the two statements for the request.
pub fn generic_list(schema: &EntitySchema, params: &PaginationQuery) -> (plan: ListPlan)
    ensures
        plan.data_sql@ == list_data_sql(schema@, params@),
        plan.count_sql@ == list_count_sql(schema@, params@),
        strings(plan.bind_values@) == filters_of(schema@, params@).bind_values,
{
    let qb = build_filters(schema, params);
    let where_clause = qb.where_clause();
    let (sort_field, sort_order) = validated_sort(schema, params);
    let limit_offset = window(params.page, params.per_page);

    let mut data_sql = String::from_str("SELECT row_to_json(t) FROM (SELECT * FROM ");
    data_sql.append(schema.table_name);
    data_sql.append(" ");
    data_sql.append(where_clause.as_str());
    data_sql.append(" ORDER BY ");
    data_sql.append(sort_field);
    data_sql.append(" ");
    data_sql.append(sort_order);
    data_sql.append(" ");
    data_sql.append(limit_offset.as_str());
    data_sql.append(") t");

    let mut count_sql = String::from_str("SELECT COUNT(*)::bigint FROM ");
    count_sql.append(schema.table_name);
    count_sql.append(" ");
    count_sql.append(where_clause.as_str());

    ListPlan { data_sql, count_sql, bind_values: qb.bind_values }
}

/// List, second half: the page if both statements succeeded, else an
/// internal error with the store's message, that of the data statement
/// first.
pub fn list_completed(
    data: Result<Vec<serde_json::Value>, String>,
    count: Result<i64, String>,
) -> (r: ApiResponse)
    ensures
        match (data, count) {
            (Ok(rows), Ok(total)) => r.is_page(rows@, total),
            _ => r.is_error(STATUS_INTERNAL_SERVER_ERROR, first_error(data, count)),
        },
{
    match data {
        Ok(rows) => match count {
            Ok(total) => ApiResponse {
                status: STATUS_OK,
                body: ResponseBody::Page(PaginatedResponse { data: rows, total }),
            },
            Err(e) => error_response(STATUS_INTERNAL_SERVER_ERROR, e.as_str()),
        },
        Err(e) => error_response(STATUS_INTERNAL_SERVER_ERROR, e.as_str()),
    }
}

/// Get by id, first half: the statement that selects the row.
pub fn generic_get_by_id(schema: &EntitySchema, id: u128) -> (s: Statement)
    ensures
        s.is(get_sql(schema@.table_name), Seq::empty(), Some(id)),
{
    let mut sql = String::from_str("SELECT row_to_json(t) FROM (SELECT * FROM ");
    sql.append(schema.table_name);
    sql.append(" WHERE id = $1) t");
    let s = Statement { sql, binds: Vec::new(), id: Some(id) };
    assert(optional_strings(s.binds@) =~= Seq::empty());
    s
}

/// Get by id, second half: the row, or not found, or an internal error
/// with the store's message.
pub fn get_completed(schema: &EntitySchema, result: Result<Option<serde_json::Value>, String>) -> (r:
    ApiResponse)
    ensures
        match result {
            Ok(Some(row)) => r.is_row(row),
            Ok(None) => r.is_error(
                STATUS_NOT_FOUND,
                not_found_message(schema@.entity_label),
            ),
            Err(e) => r.is_error(STATUS_INTERNAL_SERVER_ERROR, e@),
        },
{
    match result {
        Ok(Some(row)) => ApiResponse { status: STATUS_OK, body: ResponseBody::Row(row) },
        Ok(None) => not_found(schema.entity_label),
        Err(e) => error_response(STATUS_INTERNAL_SERVER_ERROR, e.as_str()),
    }
}

/// The audit record of one mutation.
pub fn write_audit<'a>(
    entity_type: &str,
    entity_id: &str,
    action: &str,
    old_values: Option<&'a serde_json::Value>,
    new_values: Option<&'a serde_json::Value>,
) -> (w: AuditWrite<'a>)
    ensures
        w.records(entity_type@, entity_id@, action@, old_values, new_values),
{
    AuditWrite {
        sql: String::from_str(
            "INSERT INTO admin_audit_log (entity_type, entity_id, action, old_values, new_values, changed_fields) VALUES ($1, $2::uuid, $3, $4, $5, '{}')",
        ),
        entity_type: String::from_str(entity_type),
        entity_id: String::from_str(entity_id),
        action: String::from_str(action),
        old_values,
        new_values,
    }
}

/// The present columns of a body, with the value bound for each.
struct FieldValues {
    columns: Vec<&'static str>,
    values: Vec<Option<String>>,
}

/// Walks the writable columns in order and keeps those the body has a
/// member for, each with the text of that member.
fn collect_fields(schema: &EntitySchema, body: &serde_json::Value) -> (r: FieldValues)
    ensures
        texts(r.columns@) == present_fields(schema@.writable_fields, *body),
        optional_strings(r.values@) == bound_values(
            present_fields(schema@.writable_fields, *body),
            *body,
        ),
{
    let mut columns: Vec<&'static str> = Vec::new();
    let mut values: Vec<Option<String>> = Vec::new();
    let mut i: usize = 0;
    proof {
        reveal(Seq::filter);
        assert(schema@.writable_fields.take(0) =~= Seq::<Seq<char>>::empty());
        let none = present_fields(schema@.writable_fields.take(0), *body);
        assert(texts(columns@) =~= none);
        assert(optional_strings(values@) =~= bound_values(none, *body));
    }
    while i < schema.writable_fields.len()
        invariant
            i <= schema.writable_fields@.len(),
            columns@.len() == values@.len(),
            texts(columns@) == present_fields(
                schema@.writable_fields.take(i as int),
                *body,
            ),
            optional_strings(values@) == bound_values(
                present_fields(schema@.writable_fields.take(i as int), *body),
                *body,
            ),
        decreases schema.writable_fields@.len() - i,
    {
        let field: &'static str = schema.writable_fields[i];
        let ghost before = present_fields(schema@.writable_fields.take(i as int), *body);
        let ghost old_columns = columns@;
        let ghost old_values = values@;
        proof {
            let upto = schema@.writable_fields.take(i as int);
            assert(schema@.writable_fields.take(i + 1) =~= upto.push(field@));
            upto.lemma_filter_push(field@, |f: Seq<char>| has_member(*body, f));
        }
        match json_member(body, field) {
            Some(val) => {
                columns.push(field);
                values.push(json_to_sql_string(val));
                proof {
                    let now = before.push(field@);
                    assert(texts(columns@) =~= texts(old_columns).push(field@));
                    assert forall|j: int| 0 <= j < now.len() implies optional_strings(
                        values@,
                    )[j] == bound_values(now, *body)[j] by {
                        if j < before.len() {
                            assert(optional_strings(old_values)[j] == bound_values(
                                before,
                                *body,
                            )[j]);
                            assert(values@[j] == old_values[j]);
                        }
                    }
                    assert(optional_strings(values@) =~= bound_values(now, *body));
                }
            },
            None => {},
        }
        i += 1;
    }
    assert(schema@.writable_fields.take(i as int) =~= schema@.writable_fields);
    FieldValues { columns, values }
}

/// Create, first half. A body that is no JSON object is refused before
/// the store is asked. Otherwise the insert sets the writable columns that
/// the body has a member for, each to the text of its member, or to SQL
/// NULL where the member is null; the id is always made by the store.
pub fn generic_create(schema: &EntitySchema, body: &serde_json::Value) -> (step: Step)
    ensures
        match step {
            Step::Respond(r) => !is_object(*body) && r.is_error(
                STATUS_BAD_REQUEST,
                "Expected JSON object"@,
            ),
            Step::Execute(s) => is_object(*body) && s.is(
                insert_sql(schema@.table_name, present_fields(schema@.writable_fields, *body)),
                bound_values(present_fields(schema@.writable_fields, *body), *body),
                None,
            ),
        },
{
    match json_kind(body) {
        JsonKind::Object => {},
        _ => {
            return Step::Respond(error_response(STATUS_BAD_REQUEST, "Expected JSON object"));
        },
    }
    let found = collect_fields(schema, body);
    let ghost present = present_fields(schema@.writable_fields, *body);

    let mut columns: Vec<String> = Vec::new();
    columns.push(String::from_str("id"));
    let mut placeholders: Vec<String> = Vec::new();
    placeholders.push(String::from_str("gen_random_uuid()"));
    let mut i: usize = 0;
    proof {
        assert(strings(columns@) =~= insert_columns(present.take(0)));
        assert(strings(placeholders@) =~= insert_values(0));
    }
    while i < found.columns.len()
        invariant
            i <= found.columns@.len(),
            texts(found.columns@) == present,
            columns@.len() == i + 1,
            placeholders@.len() == i + 1,
            strings(columns@) == insert_columns(present.take(i as int)),
            strings(placeholders@) == insert_values(i as nat),
        decreases found.columns@.len() - i,
    {
        let ghost old_columns = columns@;
        let ghost old_placeholders = placeholders@;
        columns.push(String::from_str(found.columns[i]));
        let mut mark = String::from_str("$");
        push_decimal(&mut mark, i as u128 + 1);
        placeholders.push(mark);
        proof {
            assert(present[i as int] == found.columns@[i as int]@);
            let want_columns = insert_columns(present.take(i + 1));
            assert forall|j: int| 0 <= j < i + 2 implies strings(columns@)[j]
                == want_columns[j] by {
                if j < i + 1 {
                    assert(strings(old_columns)[j] == insert_columns(present.take(i as int))[j]);
                    assert(columns@[j] == old_columns[j]);
                }
            }
            assert(strings(columns@) =~= want_columns);
            let want_marks = insert_values((i + 1) as nat);
            assert forall|j: int| 0 <= j < i + 2 implies strings(placeholders@)[j]
                == want_marks[j] by {
                if j < i + 1 {
                    assert(strings(old_placeholders)[j] == insert_values(i as nat)[j]);
                    assert(placeholders@[j] == old_placeholders[j]);
                }
            }
            assert(strings(placeholders@) =~= want_marks);
        }
        i += 1;
    }
    assert(present.take(i as int) =~= present);

    let mut sql = String::from_str("INSERT INTO ");
    sql.append(schema.table_name);
    sql.append(" (");
    sql.append(join_texts(&columns, ", ").as_str());
    sql.append(") VALUES (");
    sql.append(join_texts(&placeholders, ", ").as_str());
    sql.append(") RETURNING id::text");
    Step::Execute(Statement { sql, binds: found.values, id: None })
}

/// Create, second half. If the store returned the new id, the response is
/// the created envelope for it and there is one audit record, of a create
/// of that row with the whole request body as its new values. If the store
/// failed, the response is an internal error with the store's message and
/// there is no audit record.
pub fn create_completed<'a>(
    schema: &EntitySchema,
    body: &'a serde_json::Value,
    result: Result<String, String>,
) -> (out: Outcome<'a>)
    ensures
        match result {
            Ok(id) => out.response.is_created(id@) && out.audits(
                schema@.entity_label,
                id@,
                "create"@,
                None,
                Some(body),
            ),
            Err(e) => out.response.is_error(STATUS_INTERNAL_SERVER_ERROR, e@) && out.audit
                is None,
        },
{
    match result {
        Ok(id) => {
            let audit = write_audit(schema.entity_label, id.as_str(), "create", None, Some(body));
            Outcome { response: created_response(id), audit: Some(audit) }
        },
        Err(e) => Outcome {
            response: error_response(STATUS_INTERNAL_SERVER_ERROR, e.as_str()),
            audit: None,
        },
    }
}

/// Update, first half. A body that is no JSON object, or one without a
/// member for any writable column, is refused before the store is asked.
/// Otherwise the update sets the writable columns that the body has a
/// member for, each to the text of its member, or to SQL NULL where the
/// member is null, and refreshes the modification time.
pub fn generic_update(schema: &EntitySchema, id: u128, body: &serde_json::Value) -> (step: Step)
    ensures
        match step {
            Step::Respond(r) => if !is_object(*body) {
                r.is_error(STATUS_BAD_REQUEST, "Expected JSON object"@)
            } else {
                present_fields(schema@.writable_fields, *body).len() == 0 && r.is_error(
                    STATUS_BAD_REQUEST,
                    "No valid fields to update"@,
                )
            },
            Step::Execute(s) => is_object(*body) && present_fields(
                schema@.writable_fields,
                *body,
            ).len() > 0 && s.is(
                update_sql(schema@.table_name, present_fields(schema@.writable_fields, *body)),
                bound_values(present_fields(schema@.writable_fields, *body), *body),
                Some(id),
            ),
        },
{
    match json_kind(body) {
        JsonKind::Object => {},
        _ => {
            return Step::Respond(error_response(STATUS_BAD_REQUEST, "Expected JSON object"));
        },
    }
    let found = collect_fields(schema, body);
    let ghost present = present_fields(schema@.writable_fields, *body);

    let mut sets: Vec<String> = Vec::new();
    let mut i: usize = 0;
    while i < found.columns.len()
        invariant
            i <= found.columns@.len(),
            texts(found.columns@) == present,
            sets@.len() == i,
            forall|j: int| 0 <= j < i ==> sets@[j]@ == set_clause(present[j], (j + 1) as nat),
        decreases found.columns@.len() - i,
    {
        let mut set = String::from_str(found.columns[i]);
        set.append(" = ");
        set.append("$");
        push_decimal(&mut set, i as u128 + 1);
        proof {
            assert(present[i as int] == found.columns@[i as int]@);
            assert(set@ =~= set_clause(present[i as int], (i + 1) as nat));
        }
        sets.push(set);
        i += 1;
    }
    if sets.len() == 0 {
        return Step::Respond(error_response(STATUS_BAD_REQUEST, "No valid fields to update"));
    }
    sets.push(String::from_str("updated_at = NOW()"));
    assert(strings(sets@) =~= update_sets(present));

    let mut sql = String::from_str("UPDATE ");
    sql.append(schema.table_name);
    sql.append(" SET ");
    sql.append(join_texts(&sets, ", ").as_str());
    sql.append(" WHERE id = ");
    sql.append("$");
    push_decimal(&mut sql, found.columns.len() as u128 + 1);
    sql.append(" RETURNING id::text");
    proof {
        assert(sql@ =~= update_sql(schema@.table_name, present));
    }
    Step::Execute(Statement { sql, binds: found.values, id: Some(id) })
}

/// Update, second half. If the store returned the id of the row it
/// changed, the response is the success envelope and there is one audit
/// record, of an update of that row with the whole request body as its new
/// values. If no row has the id, the response is not found; if the store
/// failed, an internal error with its message. Neither leaves an audit
/// record.
pub fn update_completed<'a>(
    schema: &EntitySchema,
    body: &'a serde_json::Value,
    result: Result<Option<String>, String>,
) -> (out: Outcome<'a>)
    ensures
        match result {
            Ok(Some(id)) => out.response.is_success() && out.audits(
                schema@.entity_label,
                id@,
                "update"@,
                None,
                Some(body),
            ),
            Ok(None) => out.response.is_error(
                STATUS_NOT_FOUND,
                not_found_message(schema@.entity_label),
            ) && out.audit is None,
            Err(e) => out.response.is_error(STATUS_INTERNAL_SERVER_ERROR, e@) && out.audit
                is None,
        },
{
    match result {
        Ok(Some(id)) => {
            let audit = write_audit(schema.entity_label, id.as_str(), "update", None, Some(body));
            Outcome { response: success_response(), audit: Some(audit) }
        },
        Ok(None) => Outcome { response: not_found(schema.entity_label), audit: None },
        Err(e) => Outcome {
            response: error_response(STATUS_INTERNAL_SERVER_ERROR, e.as_str()),
            audit: None,
        },
    }
}

/// Delete, first half: the statement that removes the row.
pub fn generic_delete(schema: &EntitySchema, id: u128) -> (s: Statement)
    ensures
        s.is(delete_sql(schema@.table_name), Seq::empty(), Some(id)),
{
    let mut sql = String::from_str("DELETE FROM ");
    sql.append(schema.table_name);
    sql.append(" WHERE id = $1 RETURNING id::text");
    let s = Statement { sql, binds: Vec::new(), id: Some(id) };
    assert(optional_strings(s.binds@) =~= Seq::empty());
    s
}

/// Delete, second half. If the store returned the id of the row it
/// removed, the response is the success envelope and there is one audit
/// record, of a delete of that row, without new values. If no row has the
/// id, the response is not found; if the store failed, an internal error
/// with its message. Neither leaves an audit record.
pub fn delete_completed(schema: &EntitySchema, result: Result<Option<String>, String>) -> (out:
    Outcome<'static>)
    ensures
        match result {
            Ok(Some(id)) => out.response.is_success() && out.audits(
                schema@.entity_label,
                id@,
                "delete"@,
                None,
                None,
            ),
            Ok(None) => out.response.is_error(
                STATUS_NOT_FOUND,
                not_found_message(schema@.entity_label),
            ) && out.audit is None,
            Err(e) => out.response.is_error(STATUS_INTERNAL_SERVER_ERROR, e@) && out.audit
                is None,
        },
{
    match result {
        Ok(Some(id)) => {
            let audit = write_audit(schema.entity_label, id.as_str(), "delete", None, None);
            Outcome { response: success_response(), audit: Some(audit) }
        },
        Ok(None) => Outcome { response: not_found(schema.entity_label), audit: None },
        Err(e) => Outcome {
            response: error_response(STATUS_INTERNAL_SERVER_ERROR, e.as_str()),
            audit: None,
        },
    }
}

} // verus!
