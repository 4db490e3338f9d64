use property_admin::entities::{InvoiceEntity, OwnerEntity, PropertyEntity};
use property_admin::filters::FilterMap;
use property_admin::query::{build_filters, validated_sort, PaginationQuery, QueryBuilder};
use property_admin::schema::{AdminEntity, EntitySchema};
use property_admin::text::{join_texts, push_decimal, same_text};

fn text(s: &str) -> Option<String> {
    Some(s.to_string())
}

#[test]
fn same_text_compares_characters() {
    assert!(same_text("", ""));
    assert!(same_text("status", "status"));
    assert!(!same_text("status", "Status"));
    assert!(!same_text("status", "statu"));
    assert!(!same_text("a", ""));
    assert!(same_text("caf\u{e9}", "caf\u{e9}"));
    assert!(!same_text("caf\u{e9}", "cafe"));
}

#[test]
fn decimal_rendering() {
    let mut s = String::from("x");
    push_decimal(&mut s, 0);
    assert_eq!(s, "x0");
    let mut s = String::new();
    push_decimal(&mut s, 7);
    assert_eq!(s, "7");
    let mut s = String::new();
    push_decimal(&mut s, 10);
    assert_eq!(s, "10");
    let mut s = String::new();
    push_decimal(&mut s, 1234567890);
    assert_eq!(s, "1234567890");
    let mut s = String::new();
    push_decimal(&mut s, u128::MAX);
    assert_eq!(s, "340282366920938463463374607431768211455");
}

#[test]
fn join_puts_separator_between_parts() {
    assert_eq!(join_texts(&vec![], ", "), "");
    assert_eq!(join_texts(&vec!["a".to_string()], ", "), "a");
    assert_eq!(join_texts(&vec!["a".to_string(), "b".to_string(), "c".to_string()], " AND "), "a AND b AND c");
    assert_eq!(join_texts(&vec![String::new(), String::new()], ","), ",");
}

#[test]
fn filter_map_keeps_last_value_per_key() {
    let mut m = FilterMap::new();
    assert_eq!(m.get("status"), None);
    m.insert("status".to_string(), "Let".to_string());
    m.insert("type".to_string(), "income".to_string());
    assert_eq!(m.get("status"), Some("Let"));
    assert_eq!(m.get("type"), Some("income"));
    m.insert("status".to_string(), "Vacant".to_string());
    assert_eq!(m.get("status"), Some("Vacant"));
    assert_eq!(m.get("Status"), None);
    assert_eq!(FilterMap::default().get("status"), None);
}

#[test]
fn default_query_names_nothing() {
    let q = PaginationQuery::default();
    assert_eq!(q.page, None);
    assert_eq!(q.per_page, None);
    assert_eq!(q.search, None);
    assert_eq!(q.sort, None);
    assert_eq!(q.order, None);
    assert_eq!(q.filters.get("status"), None);
}

#[test]
fn new_builder_has_no_where_clause() {
    let qb = QueryBuilder::new();
    assert!(qb.conditions.is_empty());
    assert!(qb.bind_values.is_empty());
    assert_eq!(qb.where_clause(), "");
}

#[test]
fn add_search_builds_one_or_group_with_a_shared_parameter() {
    let mut qb = QueryBuilder::new();
    qb.add_search("oak", &vec!["property_name", "address"]);
    assert_eq!(qb.conditions, vec!["(property_name::text ILIKE $1 OR address::text ILIKE $1)"]);
    assert_eq!(qb.bind_values, vec!["%oak%"]);
    assert_eq!(
        qb.where_clause(),
        "WHERE (property_name::text ILIKE $1 OR address::text ILIKE $1)"
    );
}

#[test]
fn add_search_with_one_field() {
    let mut qb = QueryBuilder::new();
    qb.add_search("x", &vec!["name"]);
    assert_eq!(qb.conditions, vec!["(name::text ILIKE $1)"]);
}

#[test]
fn add_search_ignores_empty_term_and_empty_field_list() {
    let mut qb = QueryBuilder::new();
    qb.add_search("", &vec!["name"]);
    assert!(qb.conditions.is_empty());
    assert!(qb.bind_values.is_empty());
    qb.add_search("term", &vec![]);
    assert!(qb.conditions.is_empty());
    assert!(qb.bind_values.is_empty());
}

#[test]
fn add_filter_numbers_parameters_after_those_present() {
    let mut qb = QueryBuilder::new();
    qb.add_search("a", &vec!["name"]);
    qb.add_filter("status", "Let");
    qb.add_filter("type", "income");
    assert_eq!(qb.conditions, vec!["(name::text ILIKE $1)", "status = $2", "type = $3"]);
    assert_eq!(qb.bind_values, vec!["%a%", "Let", "income"]);
    assert_eq!(qb.where_clause(), "WHERE (name::text ILIKE $1) AND status = $2 AND type = $3");
}

#[test]
fn parameter_numbers_go_past_nine() {
    let mut qb = QueryBuilder::new();
    for _ in 0..11 {
        qb.add_filter("status", "x");
    }
    assert_eq!(qb.conditions[8], "status = $9");
    assert_eq!(qb.conditions[9], "status = $10");
    assert_eq!(qb.conditions[10], "status = $11");
}

#[test]
fn search_term_is_bound_never_spliced() {
    let mut qb = QueryBuilder::new();
    qb.add_search("'; DROP TABLE admin_properties; --", &vec!["name"]);
    qb.add_filter("status", "x' OR '1'='1");
    assert_eq!(qb.where_clause(), "WHERE (name::text ILIKE $1) AND status = $2");
    assert_eq!(qb.bind_values, vec!["%'; DROP TABLE admin_properties; --%", "x' OR '1'='1"]);
}

#[test]
fn sort_defaults_to_schema_default_descending() {
    let schema = PropertyEntity::schema();
    let q = PaginationQuery::default();
    assert_eq!(validated_sort(&schema, &q), ("created_at", "DESC"));
    let schema = InvoiceEntity::schema();
    assert_eq!(validated_sort(&schema, &q), ("invoice_date", "DESC"));
}

#[test]
fn sort_outside_whitelist_falls_back_to_default() {
    let schema = PropertyEntity::schema();
    let mut q = PaginationQuery::default();
    q.sort = text("id; DROP TABLE x");
    assert_eq!(validated_sort(&schema, &q), ("created_at", "DESC"));
    q.sort = text("tags");
    assert_eq!(validated_sort(&schema, &q), ("created_at", "DESC"));
    q.sort = text("Rent");
    assert_eq!(validated_sort(&schema, &q), ("created_at", "DESC"));
    q.sort = text("");
    assert_eq!(validated_sort(&schema, &q), ("created_at", "DESC"));
}

#[test]
fn sort_inside_whitelist_is_used() {
    let schema = PropertyEntity::schema();
    let mut q = PaginationQuery::default();
    q.sort = text("rent");
    assert_eq!(validated_sort(&schema, &q), ("rent", "DESC"));
    q.sort = text("updated_at");
    q.order = text("asc");
    assert_eq!(validated_sort(&schema, &q), ("updated_at", "ASC"));
}

#[test]
fn only_the_exact_token_asc_sorts_ascending() {
    let schema = PropertyEntity::schema();
    let mut q = PaginationQuery::default();
    for other in ["ASC", "Asc", "desc", "", " asc", "asc ", "ascending"] {
        q.order = text(other);
        assert_eq!(validated_sort(&schema, &q).1, "DESC");
    }
    q.order = text("asc");
    assert_eq!(validated_sort(&schema, &q).1, "ASC");
}

#[test]
fn build_filters_with_nothing_asked() {
    let qb = build_filters(&PropertyEntity::schema(), &PaginationQuery::default());
    assert!(qb.conditions.is_empty());
    assert!(qb.bind_values.is_empty());
}

#[test]
fn build_filters_search_then_filters_in_schema_order() {
    let schema = InvoiceEntity::schema();
    let mut q = PaginationQuery::default();
    q.search = text("rent");
    q.filters.insert("payee".to_string(), "ACME".to_string());
    q.filters.insert("status".to_string(), "Unpaid".to_string());
    let qb = build_filters(&schema, &q);
    assert_eq!(
        qb.conditions,
        vec![
            "(reference::text ILIKE $1 OR description::text ILIKE $1 OR contract_ref::text ILIKE $1 OR property_name::text ILIKE $1 OR payer::text ILIKE $1 OR payee::text ILIKE $1 OR status::text ILIKE $1)",
            "status = $2",
            "payee = $3",
        ]
    );
    assert_eq!(qb.bind_values, vec!["%rent%", "Unpaid", "ACME"]);
}

#[test]
fn build_filters_ignores_unknown_and_empty_filters() {
    let schema = PropertyEntity::schema();
    let mut q = PaginationQuery::default();
    q.filters.insert("rent".to_string(), "100".to_string());
    q.filters.insert("id); DROP TABLE x; --".to_string(), "1".to_string());
    q.filters.insert("status".to_string(), String::new());
    let qb = build_filters(&schema, &q);
    assert!(qb.conditions.is_empty());
    assert!(qb.bind_values.is_empty());
    q.filters.insert("status".to_string(), "Let".to_string());
    let qb = build_filters(&schema, &q);
    assert_eq!(qb.conditions, vec!["status = $1"]);
    assert_eq!(qb.bind_values, vec!["Let"]);
}

#[test]
fn build_filters_empty_search_adds_nothing() {
    let schema = PropertyEntity::schema();
    let mut q = PaginationQuery::default();
    q.search = text("");
    q.filters.insert("status".to_string(), "Let".to_string());
    let qb = build_filters(&schema, &q);
    assert_eq!(qb.conditions, vec!["status = $1"]);
}

#[test]
fn build_filters_without_filter_fields() {
    let schema = OwnerEntity::schema();
    let mut q = PaginationQuery::default();
    q.search = text("ann");
    q.filters.insert("status".to_string(), "x".to_string());
    let qb = build_filters(&schema, &q);
    assert_eq!(qb.conditions.len(), 1);
    assert_eq!(qb.bind_values, vec!["%ann%"]);
}

#[test]
fn build_filters_on_a_schema_without_search_fields() {
    let schema = EntitySchema {
        table_name: "t",
        entity_label: "things",
        search_fields: vec![],
        filter_fields: vec!["kind", "kind"],
        sortable_fields: vec!["created_at"],
        writable_fields: vec!["kind"],
        default_sort: "created_at",
    };
    let mut q = PaginationQuery::default();
    q.search = text("abc");
    q.filters.insert("kind".to_string(), "k".to_string());
    let qb = build_filters(&schema, &q);
    assert_eq!(qb.conditions, vec!["kind = $1", "kind = $2"]);
    assert_eq!(qb.bind_values, vec!["k", "k"]);
}
