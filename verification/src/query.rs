//! The query builder: from a list request and a schema to SQL conditions,
//! their bound values, and the resolved sort.

use vstd::prelude::*;
use vstd::string::StringExecFns;
use crate::filters::FilterMap;
use crate::schema::{texts, EntitySchema, SchemaModel};
use crate::text::{decimal, join, join_texts, push_decimal, same_text, strings, text_of};

verus! {

/// What a list request asks for, as plain values.
pub struct QueryParams {
    pub page: Option<i64>,
    pub per_page: Option<i64>,
    pub search: Option<Seq<char>>,
    pub sort: Option<Seq<char>>,
    pub order: Option<Seq<char>>,
    pub filters: Map<Seq<char>, Seq<char>>,
}

/// Query parameters of a list request.
#[derive(Debug)]
pub struct PaginationQuery {
    pub page: Option<i64>,
    pub per_page: Option<i64>,
    pub search: Option<String>,
    pub sort: Option<String>,
    pub order: Option<String>,
    /// Field-specific filters, such as `status=Let`.
    pub filters: FilterMap,
}

impl View for PaginationQuery {
    type V = QueryParams;

    open spec fn view(&self) -> QueryParams {
        QueryParams {
            page: self.page,
            per_page: self.per_page,
            search: text_of(self.search),
            sort: text_of(self.sort),
            order: text_of(self.order),
            filters: self.filters@,
        }
    }
}

impl Default for PaginationQuery {
    /// A request that names nothing.
    fn default() -> (r: Self)
        ensures
            r@ == (QueryParams {
                page: None,
                per_page: None,
                search: None,
                sort: None,
                order: None,
                filters: Map::empty(),
            }),
    {
        PaginationQuery {
            page: None,
            per_page: None,
            search: None,
            sort: None,
            order: None,
            filters: FilterMap::new(),
        }
    }
}

/// The positional parameter with the given number.
pub open spec fn placeholder(idx: nat) -> Seq<char> {
    "$"@ + decimal(idx)
}

/// Case-insensitive substring match of one column, rendered as text,
/// against parameter `idx`.
pub open spec fn search_term(field: Seq<char>, idx: nat) -> Seq<char> {
    field + "::text ILIKE "@ + placeholder(idx)
}

/// One term per search column, all against parameter `idx`.
pub open spec fn search_terms(fields: Seq<Seq<char>>, idx: nat) -> Seq<Seq<char>> {
    Seq::new(fields.len(), |i: int| search_term(fields[i], idx))
}

/// The search group: the terms of all search columns, joined by OR.
pub open spec fn search_condition(fields: Seq<Seq<char>>, idx: nat) -> Seq<char> {
    "("@ + join(search_terms(fields, idx), " OR "@) + ")"@
}

/// The value bound for a search: the term between two wildcards.
pub open spec fn search_pattern(search: Seq<char>) -> Seq<char> {
    "%"@ + search + "%"@
}

/// Exact match of one column against parameter `idx`.
pub open spec fn filter_condition(field: Seq<char>, idx: nat) -> Seq<char> {
    field + " = "@ + placeholder(idx)
}

/// The WHERE clause for a list of conditions; empty when there is none.
pub open spec fn where_clause_of(conditions: Seq<Seq<char>>) -> Seq<char> {
    if conditions.len() == 0 {
        Seq::empty()
    } else {
        "WHERE "@ + join(conditions, " AND "@)
    }
}

/// Conditions and the values bound to their parameters. Parameter `$n`
/// takes the n-th bound value.
pub struct QueryModel {
    pub conditions: Seq<Seq<char>>,
    pub bind_values: Seq<Seq<char>>,
}

impl QueryModel {
    pub open spec fn empty() -> QueryModel {
        QueryModel { conditions: Seq::empty(), bind_values: Seq::empty() }
    }

    /// Adds the search group, unless the term is empty or no column is
    /// searchable. All terms of the group share one new parameter.
    pub open spec fn with_search(self, search: Seq<char>, fields: Seq<Seq<char>>) -> QueryModel {
        if search.len() == 0 || fields.len() == 0 {
            self
        } else {
            QueryModel {
                conditions: self.conditions.push(
                    search_condition(fields, self.bind_values.len() + 1),
                ),
                bind_values: self.bind_values.push(search_pattern(search)),
            }
        }
    }

    /// Adds an exact match on `field`, with `value` bound to a new parameter.
    pub open spec fn with_filter(self, field: Seq<char>, value: Seq<char>) -> QueryModel {
        QueryModel {
            conditions: self.conditions.push(
                filter_condition(field, self.bind_values.len() + 1),
            ),
            bind_values: self.bind_values.push(value),
        }
    }

    /// Adds an exact match for each of the columns in `active`, in order,
    /// each bound to the value that `filters` has for it.
    pub open spec fn with_filters(
        self,
        active: Seq<Seq<char>>,
        filters: Map<Seq<char>, Seq<char>>,
    ) -> QueryModel {
        QueryModel {
            conditions: self.conditions + Seq::new(
                active.len(),
                |i: int| filter_condition(active[i], (self.bind_values.len() + i + 1) as nat),
            ),
            bind_values: self.bind_values + Seq::new(active.len(), |i: int| filters[active[i]]),
        }
    }
}

/// Whether the request filters on `field`: it names the column with a
/// value that is not empty.
pub open spec fn filter_active(filters: Map<Seq<char>, Seq<char>>, field: Seq<char>) -> bool {
    filters.contains_key(field) && filters[field].len() > 0
}

/// The filter columns that the request filters on, in the schema's order.
pub open spec fn active_filters(
    fields: Seq<Seq<char>>,
    filters: Map<Seq<char>, Seq<char>>,
) -> Seq<Seq<char>> {
    fields.filter(|f: Seq<char>| filter_active(filters, f))
}

/// The conditions of a list request: the search group, if any, then one
/// exact match per active filter column.
pub open spec fn filters_of(schema: SchemaModel, params: QueryParams) -> QueryModel {
    let base = match params.search {
        Some(s) => QueryModel::empty().with_search(s, schema.search_fields),
        None => QueryModel::empty(),
    };
    base.with_filters(active_filters(schema.filter_fields, params.filters), params.filters)
}

/// The sort column: the one asked for if the schema allows it, else the
/// schema's default.
pub open spec fn resolved_sort(schema: SchemaModel, sort: Option<Seq<char>>) -> Seq<char> {
    match sort {
        Some(s) => if schema.sortable_fields.contains(s) {
            s
        } else {
            schema.default_sort
        },
        None => schema.default_sort,
    }
}

/// The sort direction: ascending only for the exact token `asc`.
pub open spec fn resolved_order(order: Option<Seq<char>>) -> Seq<char> {
    if order == Some("asc"@) {
        "ASC"@
    } else {
        "DESC"@
    }
}

/// Collects SQL conditions and the values bound to them.
pub struct QueryBuilder {
    pub conditions: Vec<String>,
    pub bind_values: Vec<String>,
}

impl View for QueryBuilder {
    type V = QueryModel;

    open spec fn view(&self) -> QueryModel {
        QueryModel {
            conditions: strings(self.conditions@),
            bind_values: strings(self.bind_values@),
        }
    }
}

impl QueryBuilder {
    pub fn new() -> (r: Self)
        ensures
            r@ == QueryModel::empty(),
    {
        let r = Self { conditions: Vec::new(), bind_values: Vec::new() };
        assert(r@.conditions =~= Seq::empty());
        assert(r@.bind_values =~= Seq::empty());
        r
    }

    /// Adds the search group over `fields` for the term `search`.
    pub fn add_search(&mut self, search: &str, fields: &Vec<&'static str>)
        ensures
            final(self)@ == old(self)@.with_search(search@, texts(fields@)),
    {
        if search.is_empty() || fields.len() == 0 {
            return ;
        }
        let idx: u128 = self.bind_values.len() as u128 + 1;
        let mut conds: Vec<String> = Vec::new();
        let mut i: usize = 0;
        while i < fields.len()
            invariant
                i <= fields@.len(),
                conds@.len() == i,
                strings(conds@) == search_terms(texts(fields@).take(i as int), idx as nat),
            decreases fields@.len() - i,
        {
            let mut term = String::from_str(fields[i]);
            term.append("::text ILIKE ");
            term.append("$");
            push_decimal(&mut term, idx);
            proof {
                assert(term@ =~= search_term(fields@[i as int]@, idx as nat));
            }
            let ghost earlier = conds@;
            conds.push(term);
            proof {
                let want = search_terms(texts(fields@).take(i + 1), idx as nat);
                assert forall|j: int| 0 <= j < i + 1 implies strings(conds@)[j] == want[j] by {
                    assert(texts(fields@).take(i + 1)[j] == fields@[j]@);
                    if j < i {
                        assert(texts(fields@).take(i as int)[j] == fields@[j]@);
                        assert(strings(earlier)[j] == search_terms(
                            texts(fields@).take(i as int),
                            idx as nat,
                        )[j]);
                        assert(conds@[j] == earlier[j]);
                    } else {
                        assert(conds@[j]@ == search_term(fields@[i as int]@, idx as nat));
                    }
                }
                assert(strings(conds@) =~= want);
            }
            i += 1;
        }
        assert(texts(fields@).take(i as int) =~= texts(fields@));
        let mut group = String::from_str("(");
        let joined = join_texts(&conds, " OR ");
        group.append(joined.as_str());
        group.append(")");
        let mut pattern = String::from_str("%");
        pattern.append(search);
        pattern.append("%");
        self.conditions.push(group);
        self.bind_values.push(pattern);
        proof {
            let want = old(self)@.with_search(search@, texts(fields@));
            assert(self@.conditions =~= want.conditions);
            assert(self@.bind_values =~= want.bind_values);
        }
    }

    /// Adds an exact match on `field` for `value`.
    pub fn add_filter(&mut self, field: &str, value: &str)
        ensures
            final(self)@ == old(self)@.with_filter(field@, value@),
    {
        let idx: u128 = self.bind_values.len() as u128 + 1;
        let mut cond = String::from_str(field);
        cond.append(" = ");
        cond.append("$");
        push_decimal(&mut cond, idx);
        proof {
            assert(cond@ =~= filter_condition(field@, idx as nat));
        }
        self.conditions.push(cond);
        self.bind_values.push(String::from_str(value));
        proof {
            let want = old(self)@.with_filter(field@, value@);
            assert(self@.conditions =~= want.conditions);
            assert(self@.bind_values =~= want.bind_values);
        }
    }

    /// The WHERE clause over the conditions collected so far.
    pub fn where_clause(&self) -> (r: String)
        ensures
            r@ == where_clause_of(self@.conditions),
    {
        if self.conditions.len() == 0 {
            String::new()
        } else {
            let mut clause = String::from_str("WHERE ");
            let joined = join_texts(&self.conditions, " AND ");
            clause.append(joined.as_str());
            clause
        }
    }
}

/// Resolves the sort column and direction of a request against the schema.
/// The column returned is one of the schema's own names.
pub fn validated_sort(schema: &EntitySchema, params: &PaginationQuery) -> (r: (
    &'static str,
    &'static str,
))
    ensures
        r.0@ == resolved_sort(schema@, params@.sort),
        r.1@ == resolved_order(params@.order),
{
    let sort_order: &'static str = match &params.order {
        Some(o) => if same_text(o.as_str(), "asc") {
            "ASC"
        } else {
            "DESC"
        },
        None => "DESC",
    };
    match &params.sort {
        Some(s) => {
            let mut i: usize = 0;
            while i < schema.sortable_fields.len()
                invariant
                    i <= schema.sortable_fields@.len(),
                    params@.sort == Some(s@),
                    sort_order@ == resolved_order(params@.order),
                    forall|j: int| 0 <= j < i ==> schema@.sortable_fields[j] != s@,
                decreases schema.sortable_fields@.len() - i,
            {
                if same_text(schema.sortable_fields[i], s.as_str()) {
                    assert(schema@.sortable_fields[i as int] == s@);
                    return (schema.sortable_fields[i], sort_order);
                }
                i += 1;
            }
        },
        None => {},
    }
    (schema.default_sort, sort_order)
}

/// Builds the conditions of a list request: the search group, then one
/// exact match per filter column of the schema that the request names with
/// a value that is not empty. Columns outside the schema are never looked at.
pub fn build_filters(schema: &EntitySchema, params: &PaginationQuery) -> (qb: QueryBuilder)
    ensures
        qb@ == filters_of(schema@, params@),
{
    let mut qb = QueryBuilder::new();
    match &params.search {
        Some(search) => {
            qb.add_search(search.as_str(), &schema.search_fields);
        },
        None => {},
    }
    let ghost base = qb@;
    let ghost filters = params@.filters;
    let mut i: usize = 0;
    proof {
        assert(schema@.filter_fields.take(0) =~= Seq::<Seq<char>>::empty());
        reveal(Seq::filter);
        assert(qb@.conditions =~= base.with_filters(Seq::empty(), filters).conditions);
        assert(qb@.bind_values =~= base.with_filters(Seq::empty(), filters).bind_values);
    }
    while i < schema.filter_fields.len()
        invariant
            i <= schema.filter_fields@.len(),
            filters == params@.filters,
            qb@ == base.with_filters(
                active_filters(schema@.filter_fields.take(i as int), filters),
                filters,
            ),
        decreases schema.filter_fields@.len() - i,
    {
        let field: &'static str = schema.filter_fields[i];
        let ghost before = active_filters(schema@.filter_fields.take(i as int), filters);
        proof {
            let upto = schema@.filter_fields.take(i as int);
            assert(schema@.filter_fields.take(i + 1) =~= upto.push(field@));
            upto.lemma_filter_push(field@, |f: Seq<char>| filter_active(filters, f));
        }
        match params.filters.get(field) {
            Some(value) => {
                if !value.is_empty() {
                    qb.add_filter(field, value);
                    proof {
                        let want = base.with_filters(before.push(field@), filters);
                        assert(qb@.conditions =~= want.conditions);
                        assert(qb@.bind_values =~= want.bind_values);
                    }
                }
            },
            None => {},
        }
        i += 1;
    }
    assert(schema@.filter_fields.take(i as int) =~= schema@.filter_fields);
    qb
}

} // verus!
