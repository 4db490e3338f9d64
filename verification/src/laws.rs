//! Laws of the query builder and the dispatcher, over their models.

use vstd::prelude::*;
use crate::crud::{
    bound_values, insert_sql, limit_offset, list_count_sql, list_data_sql, page_of, per_page_of,
    present_fields, update_sql,
};
use crate::json::{has_member, is_object, json_shape, member, sql_text};
use crate::query::{
    active_filters, filter_active, filters_of, resolved_order, resolved_sort, search_condition,
    search_pattern, QueryModel, QueryParams,
};
use crate::schema::SchemaModel;

verus! {

/// Filtering keeps nothing where the predicate holds of no element.
proof fn lemma_filter_none<A>(s: Seq<A>, p: spec_fn(A) -> bool)
    requires
        forall|i: int| 0 <= i < s.len() ==> !p(s[i]),
    ensures
        s.filter(p) == Seq::<A>::empty(),
    decreases s.len(),
{
    reveal(Seq::filter);
    if s.len() > 0 {
        lemma_filter_none(s.drop_last(), p);
    } else {
        assert(s =~= Seq::<A>::empty());
    }
}

/// Two predicates that agree on every element keep the same elements.
proof fn lemma_filter_agree<A>(s: Seq<A>, p: spec_fn(A) -> bool, q: spec_fn(A) -> bool)
    requires
        forall|i: int| 0 <= i < s.len() ==> p(s[i]) == q(s[i]),
    ensures
        s.filter(p) == s.filter(q),
    decreases s.len(),
{
    reveal(Seq::filter);
    if s.len() > 0 {
        lemma_filter_agree(s.drop_last(), p, q);
    }
}

/// Whether a request searches: it has a term that is not empty, and the
/// schema has a column to search.
pub open spec fn searches(schema: SchemaModel, params: QueryParams) -> bool {
    params.search matches Some(s) && s.len() > 0 && schema.search_fields.len() > 0
}

/// A list request without search, filter, sort or order selects from the
/// whole table, by the schema's default sort column, descending; and the
/// count statement counts the whole table. Neither binds a value.
pub proof fn law_plain_list(schema: SchemaModel, params: QueryParams)
    requires
        params.search is None,
        params.sort is None,
        params.order is None,
        params.filters == Map::<Seq<char>, Seq<char>>::empty(),
    ensures
        filters_of(schema, params) == QueryModel::empty(),
        list_data_sql(schema, params) == "SELECT row_to_json(t) FROM (SELECT * FROM "@
            + schema.table_name + " "@ + Seq::<char>::empty() + " ORDER BY "@ + schema.default_sort
            + " "@ + "DESC"@ + " "@ + limit_offset(params.page, params.per_page) + ") t"@,
        list_count_sql(schema, params) == "SELECT COUNT(*)::bigint FROM "@ + schema.table_name
            + " "@ + Seq::<char>::empty(),
{
    lemma_filter_none(schema.filter_fields, |f: Seq<char>| filter_active(params.filters, f));
    let got = filters_of(schema, params);
    assert(got.conditions =~= Seq::<Seq<char>>::empty());
    assert(got.bind_values =~= Seq::<Seq<char>>::empty());
}

/// A sort column outside the schema's whitelist changes nothing: both
/// statements and the bound values are those of the request without a sort
/// column.
pub proof fn law_unlisted_sort_is_ignored(schema: SchemaModel, params: QueryParams, sort: Seq<char>)
    requires
        !schema.sortable_fields.contains(sort),
    ensures
        list_data_sql(schema, QueryParams { sort: Some(sort), ..params }) == list_data_sql(
            schema,
            QueryParams { sort: None, ..params },
        ),
        list_count_sql(schema, QueryParams { sort: Some(sort), ..params }) == list_count_sql(
            schema,
            QueryParams { sort: None, ..params },
        ),
        filters_of(schema, QueryParams { sort: Some(sort), ..params }) == filters_of(
            schema,
            QueryParams { sort: None, ..params },
        ),
{
}

/// The sort column of a statement is always one of the schema's own: a
/// column of the whitelist, or the default.
pub proof fn law_sort_column_is_the_schemas(schema: SchemaModel, sort: Option<Seq<char>>)
    ensures
        resolved_sort(schema, sort) == schema.default_sort || schema.sortable_fields.contains(
            resolved_sort(schema, sort),
        ),
{
}

/// The order `asc` sorts ascending, which is not the default direction.
/// Any other order changes nothing: the statement is that of the request
/// without an order.
pub proof fn law_only_asc_sorts_ascending(schema: SchemaModel, params: QueryParams, order: Seq<char>)
    ensures
        resolved_order(Some("asc"@)) == "ASC"@,
        resolved_order(None) == "DESC"@,
        "ASC"@ != "DESC"@,
        order != "asc"@ ==> list_data_sql(schema, QueryParams { order: Some(order), ..params })
            == list_data_sql(schema, QueryParams { order: None, ..params }),
{
    reveal_strlit("ASC");
    reveal_strlit("DESC");
    assert("ASC"@.len() != "DESC"@.len());
}

/// With a page size of zero or below there is no window, and the page asked
/// for plays no part.
pub proof fn law_no_page_size_no_window(
    schema: SchemaModel,
    params: QueryParams,
    page: Option<i64>,
    other_page: Option<i64>,
)
    requires
        per_page_of(params.per_page) <= 0,
    ensures
        limit_offset(page, params.per_page) == Seq::<char>::empty(),
        list_data_sql(schema, QueryParams { page, ..params }) == list_data_sql(
            schema,
            QueryParams { page: other_page, ..params },
        ),
{
}

/// A page of zero or below, or none, is page 1.
pub proof fn law_page_floor(schema: SchemaModel, params: QueryParams, page: i64)
    requires
        page <= 0,
    ensures
        page_of(Some(page)) == 1,
        page_of(None) == 1,
        list_data_sql(schema, QueryParams { page: Some(page), ..params }) == list_data_sql(
            schema,
            QueryParams { page: Some(1), ..params },
        ),
        list_data_sql(schema, QueryParams { page: None, ..params }) == list_data_sql(
            schema,
            QueryParams { page: Some(1), ..params },
        ),
{
}

/// A request that searches has the search group as its first condition:
/// every search column of the schema matched against parameter 1, to which
/// the term between wildcards is bound. The count statement has the same
/// conditions as the data statement.
pub proof fn law_search_covers_search_fields(schema: SchemaModel, params: QueryParams)
    requires
        searches(schema, params),
    ensures
        filters_of(schema, params).conditions.len() > 0,
        filters_of(schema, params).conditions[0] == search_condition(schema.search_fields, 1),
        filters_of(schema, params).bind_values.len() > 0,
        filters_of(schema, params).bind_values[0] == search_pattern(params.search->Some_0),
{
}

/// The text of the list statements depends on the request only through
/// whether it searches, which filter columns it filters on, the resolved
/// sort column and direction, and the window. The search term and the
/// filter values are bound, and never part of the text.
pub proof fn law_list_text_ignores_values(schema: SchemaModel, a: QueryParams, b: QueryParams)
    requires
        searches(schema, a) == searches(schema, b),
        active_filters(schema.filter_fields, a.filters) == active_filters(
            schema.filter_fields,
            b.filters,
        ),
        resolved_sort(schema, a.sort) == resolved_sort(schema, b.sort),
        resolved_order(a.order) == resolved_order(b.order),
        a.page == b.page,
        a.per_page == b.per_page,
    ensures
        list_data_sql(schema, a) == list_data_sql(schema, b),
        list_count_sql(schema, a) == list_count_sql(schema, b),
{
    assert(filters_of(schema, a).conditions =~= filters_of(schema, b).conditions);
}

/// Every column that an insert or update sets is a writable column of the
/// schema for which the body has a member.
pub proof fn law_written_columns_are_writable(writable: Seq<Seq<char>>, body: serde_json::Value)
    ensures
        forall|c: Seq<char>| #[trigger]
            present_fields(writable, body).contains(c) ==> writable.contains(c) && has_member(
                body,
                c,
            ),
{
    broadcast use Seq::lemma_filter_contains_rev;

}

/// Under a well-formed schema no insert or update sets, from the body, the
/// id of a row or the time of its creation or last update: the id is
/// made by the store, and the time of the last update is that of the
/// update.
pub proof fn law_store_columns_stay_with_the_store(schema: SchemaModel, body: serde_json::Value)
    requires
        schema.wf(),
    ensures
        !present_fields(schema.writable_fields, body).contains("id"@),
        !present_fields(schema.writable_fields, body).contains("created_at"@),
        !present_fields(schema.writable_fields, body).contains("updated_at"@),
{
    law_written_columns_are_writable(schema.writable_fields, body);
}

/// Null alone is bound as SQL NULL: a JSON value of any other kind is
/// bound as a text.
pub proof fn law_only_null_binds_null(v: serde_json::Value)
    ensures
        sql_text(v) is None <==> json_shape(v) is Null,
{
}

/// A writable column whose member in the body is null is bound as SQL
/// NULL, whatever else the body holds.
pub proof fn law_null_member_binds_null(schema: SchemaModel, body: serde_json::Value, i: int)
    requires
        0 <= i < present_fields(schema.writable_fields, body).len(),
        json_shape(member(body, present_fields(schema.writable_fields, body)[i])) is Null,
    ensures
        bound_values(present_fields(schema.writable_fields, body), body)[i] is None,
{
}

/// Members of a body under names that are not writable play no part: two
/// bodies that agree on every writable column give the same insert, the
/// same update, and the same bound values.
pub proof fn law_unwritable_members_are_ignored(
    schema: SchemaModel,
    a: serde_json::Value,
    b: serde_json::Value,
)
    requires
        is_object(a),
        is_object(b),
        forall|i: int|
            0 <= i < schema.writable_fields.len() ==> has_member(a, schema.writable_fields[i])
                == has_member(b, schema.writable_fields[i]),
        forall|i: int|
            0 <= i < schema.writable_fields.len() && has_member(a, schema.writable_fields[i])
                ==> member(a, schema.writable_fields[i]) == member(b, schema.writable_fields[i]),
    ensures
        present_fields(schema.writable_fields, a) == present_fields(schema.writable_fields, b),
        bound_values(present_fields(schema.writable_fields, a), a) == bound_values(
            present_fields(schema.writable_fields, b),
            b,
        ),
        insert_sql(schema.table_name, present_fields(schema.writable_fields, a)) == insert_sql(
            schema.table_name,
            present_fields(schema.writable_fields, b),
        ),
        update_sql(schema.table_name, present_fields(schema.writable_fields, a)) == update_sql(
            schema.table_name,
            present_fields(schema.writable_fields, b),
        ),
{
    lemma_filter_agree(
        schema.writable_fields,
        |f: Seq<char>| has_member(a, f),
        |f: Seq<char>| has_member(b, f),
    );
    let present = present_fields(schema.writable_fields, a);
    law_written_columns_are_writable(schema.writable_fields, a);
    assert forall|i: int| 0 <= i < present.len() implies bound_values(present, a)[i]
        == bound_values(present, b)[i] by {
        assert(present.contains(present[i]));
        let j = choose|j: int|
            0 <= j < schema.writable_fields.len() && schema.writable_fields[j] == present[i];
        assert(member(a, schema.writable_fields[j]) == member(b, schema.writable_fields[j]));
    }
    assert(bound_values(present, a) =~= bound_values(present, b));
}

} // verus!
