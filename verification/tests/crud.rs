use property_admin::crud::{
    create_completed, delete_completed, generic_create, generic_delete, generic_get_by_id,
    generic_list, generic_update, get_completed, list_completed, update_completed, write_audit,
    Step,
};
use property_admin::entities::{InvoiceEntity, LeadNoteEntity, PropertyEntity, TenantEntity};
use property_admin::json::json_to_sql_string;
use property_admin::query::PaginationQuery;
use property_admin::schema::AdminEntity;
use property_admin::types::{ApiResponse, ResponseBody};
use serde_json::Value;

fn json(text: &str) -> Value {
    serde_json::from_str(text).unwrap()
}

fn text(s: &str) -> Option<String> {
    Some(s.to_string())
}

/// Bound values, each a text or SQL NULL.
fn bound(values: &[Option<&str>]) -> Vec<Option<String>> {
    values.iter().map(|v| v.map(str::to_string)).collect()
}

/// Bound values that are all texts.
fn texts(values: &[&str]) -> Vec<Option<String>> {
    values.iter().map(|v| Some(v.to_string())).collect()
}

fn error_of(r: &ApiResponse) -> (u16, String) {
    match &r.body {
        ResponseBody::Error(e) => (r.status, e.error.clone()),
        other => panic!("not an error response: {:?}", other),
    }
}

fn statement(step: Step) -> property_admin::crud::Statement {
    match step {
        Step::Execute(s) => s,
        Step::Respond(r) => panic!("answered at once: {:?}", r),
    }
}

fn refusal(step: Step) -> (u16, String) {
    match step {
        Step::Respond(r) => error_of(&r),
        Step::Execute(s) => panic!("asked the store: {:?}", s),
    }
}

const AUDIT_SQL: &str = "INSERT INTO admin_audit_log (entity_type, entity_id, action, old_values, new_values, changed_fields) VALUES ($1, $2::uuid, $3, $4, $5, '{}')";

#[test]
fn sql_text_of_scalars_and_null() {
    assert_eq!(json_to_sql_string(&json("\"Oak House\"")).as_deref(), Some("Oak House"));
    assert_eq!(json_to_sql_string(&json("\"\"")).as_deref(), Some(""));
    assert_eq!(json_to_sql_string(&json("\"say \\\"hi\\\"\"")).as_deref(), Some("say \"hi\""));
    assert_eq!(json_to_sql_string(&json("true")).as_deref(), Some("true"));
    assert_eq!(json_to_sql_string(&json("false")).as_deref(), Some("false"));
    assert_eq!(json_to_sql_string(&json("null")), None);
}

#[test]
fn sql_text_of_numbers() {
    assert_eq!(json_to_sql_string(&json("1200")).as_deref(), Some("1200"));
    assert_eq!(json_to_sql_string(&json("-5")).as_deref(), Some("-5"));
    assert_eq!(json_to_sql_string(&json("0")).as_deref(), Some("0"));
    assert_eq!(json_to_sql_string(&json("12.5")).as_deref(), Some("12.5"));
    assert_eq!(json_to_sql_string(&json("18446744073709551615")).as_deref(), Some("18446744073709551615"));
}

#[test]
fn sql_text_of_arrays_keeps_only_strings() {
    assert_eq!(json_to_sql_string(&json("[]")).as_deref(), Some("{}"));
    assert_eq!(json_to_sql_string(&json("[\"a\"]")).as_deref(), Some("{a}"));
    assert_eq!(json_to_sql_string(&json("[\"a\", \"b\", \"c\"]")).as_deref(), Some("{a,b,c}"));
    assert_eq!(json_to_sql_string(&json("[\"a\", 1, null, \"b\", true, [\"x\"], {\"k\": \"v\"}]")).as_deref(), Some("{a,b}"));
    assert_eq!(json_to_sql_string(&json("[1, 2]")).as_deref(), Some("{}"));
    assert_eq!(json_to_sql_string(&json("[\"\", \"\"]")).as_deref(), Some("{,}"));
}

#[test]
fn sql_text_of_nested_object_is_its_json_text() {
    assert_eq!(json_to_sql_string(&json("{}")).as_deref(), Some("{}"));
    assert_eq!(json_to_sql_string(&json("{ \"a\" : 1 }")).as_deref(), Some("{\"a\":1}"));
    assert_eq!(
        json_to_sql_string(&json("{\"a\": [1, \"x\"], \"b\": {\"c\": null}}")).as_deref(),
        Some("{\"a\":[1,\"x\"],\"b\":{\"c\":null}}")
    );
}

#[test]
fn list_with_no_parameters() {
    let plan = generic_list(&PropertyEntity::schema(), &PaginationQuery::default());
    assert_eq!(
        plan.data_sql,
        "SELECT row_to_json(t) FROM (SELECT * FROM admin_properties  ORDER BY created_at DESC LIMIT 25 OFFSET 0) t"
    );
    assert_eq!(plan.count_sql, "SELECT COUNT(*)::bigint FROM admin_properties ");
    assert!(plan.bind_values.is_empty());
}

#[test]
fn list_with_everything_asked() {
    let mut q = PaginationQuery::default();
    q.page = Some(3);
    q.per_page = Some(10);
    q.search = text("Oak");
    q.sort = text("rent");
    q.order = text("asc");
    q.filters.insert("status".to_string(), "Let".to_string());
    let plan = generic_list(&PropertyEntity::schema(), &q);
    assert_eq!(
        plan.data_sql,
        "SELECT row_to_json(t) FROM (SELECT * FROM admin_properties WHERE (property_name::text ILIKE $1 OR address::text ILIKE $1 OR contract_ref::text ILIKE $1 OR status::text ILIKE $1 OR image_folder::text ILIKE $1) AND status = $2 ORDER BY rent ASC LIMIT 10 OFFSET 20) t"
    );
    assert_eq!(
        plan.count_sql,
        "SELECT COUNT(*)::bigint FROM admin_properties WHERE (property_name::text ILIKE $1 OR address::text ILIKE $1 OR contract_ref::text ILIKE $1 OR status::text ILIKE $1 OR image_folder::text ILIKE $1) AND status = $2"
    );
    assert_eq!(plan.bind_values, vec!["%Oak%", "Let"]);
}

#[test]
fn list_unknown_sort_is_the_same_as_no_sort() {
    let schema = TenantEntity::schema();
    let mut q = PaginationQuery::default();
    let plain = generic_list(&schema, &q);
    q.sort = text("bank_account");
    let other = generic_list(&schema, &q);
    assert_eq!(plain.data_sql, other.data_sql);
    assert_eq!(plain.count_sql, other.count_sql);
    assert_eq!(plain.bind_values, other.bind_values);
}

#[test]
fn list_order_other_than_asc_is_the_same_as_no_order() {
    let schema = TenantEntity::schema();
    let mut q = PaginationQuery::default();
    let plain = generic_list(&schema, &q);
    q.order = text("DESCENDING");
    assert_eq!(generic_list(&schema, &q).data_sql, plain.data_sql);
    q.order = text("asc");
    let up = generic_list(&schema, &q);
    assert_ne!(up.data_sql, plain.data_sql);
    assert_eq!(
        up.data_sql,
        "SELECT row_to_json(t) FROM (SELECT * FROM admin_tenants  ORDER BY created_at ASC LIMIT 25 OFFSET 0) t"
    );
}

#[test]
fn list_without_page_size_limit() {
    let schema = PropertyEntity::schema();
    let mut q = PaginationQuery::default();
    q.per_page = Some(0);
    q.page = Some(7);
    let all = generic_list(&schema, &q);
    assert_eq!(
        all.data_sql,
        "SELECT row_to_json(t) FROM (SELECT * FROM admin_properties  ORDER BY created_at DESC ) t"
    );
    q.per_page = Some(-3);
    q.page = None;
    assert_eq!(generic_list(&schema, &q).data_sql, all.data_sql);
    q.per_page = Some(i64::MIN);
    assert_eq!(generic_list(&schema, &q).data_sql, all.data_sql);
}

#[test]
fn list_page_below_one_is_page_one() {
    let schema = PropertyEntity::schema();
    let mut q = PaginationQuery::default();
    q.per_page = Some(10);
    q.page = Some(1);
    let first = generic_list(&schema, &q).data_sql;
    assert!(first.ends_with("LIMIT 10 OFFSET 0) t"));
    for p in [0, -1, -100, i64::MIN] {
        q.page = Some(p);
        assert_eq!(generic_list(&schema, &q).data_sql, first);
    }
    q.page = None;
    assert_eq!(generic_list(&schema, &q).data_sql, first);
    q.page = Some(2);
    assert!(generic_list(&schema, &q).data_sql.ends_with("LIMIT 10 OFFSET 10) t"));
}

#[test]
fn list_offset_is_exact_for_the_largest_inputs() {
    let schema = PropertyEntity::schema();
    let mut q = PaginationQuery::default();
    q.page = Some(i64::MAX);
    q.per_page = Some(i64::MAX);
    let sql = generic_list(&schema, &q).data_sql;
    assert!(sql.ends_with(
        "LIMIT 9223372036854775807 OFFSET 85070591730234615838173535747377725442) t"
    ));
}

#[test]
fn list_completed_builds_the_page() {
    let rows = vec![json("{\"id\": \"a\"}"), json("{\"id\": \"b\"}")];
    let r = list_completed(Ok(rows.clone()), Ok(12));
    assert_eq!(r.status, 200);
    match r.body {
        ResponseBody::Page(p) => {
            assert_eq!(p.data, rows);
            assert_eq!(p.total, 12);
        }
        other => panic!("not a page: {:?}", other),
    }
}

#[test]
fn list_completed_reports_the_first_failure() {
    let r = list_completed(Err("data broke".to_string()), Ok(1));
    assert_eq!(error_of(&r), (500, "data broke".to_string()));
    let r = list_completed(Ok(vec![]), Err("count broke".to_string()));
    assert_eq!(error_of(&r), (500, "count broke".to_string()));
    let r = list_completed(Err("data broke".to_string()), Err("count broke".to_string()));
    assert_eq!(error_of(&r), (500, "data broke".to_string()));
}

#[test]
fn get_by_id_statement() {
    let s = generic_get_by_id(&PropertyEntity::schema(), 42);
    assert_eq!(s.sql, "SELECT row_to_json(t) FROM (SELECT * FROM admin_properties WHERE id = $1) t");
    assert!(s.binds.is_empty());
    assert_eq!(s.id, Some(42));
}

#[test]
fn get_completed_row_missing_and_failure() {
    let schema = PropertyEntity::schema();
    let row = json("{\"id\": \"x\", \"property_name\": \"Oak House\"}");
    let r = get_completed(&schema, Ok(Some(row.clone())));
    assert_eq!(r.status, 200);
    match r.body {
        ResponseBody::Row(v) => assert_eq!(v, row),
        other => panic!("not a row: {:?}", other),
    }
    let r = get_completed(&schema, Ok(None));
    assert_eq!(error_of(&r), (404, "properties not found".to_string()));
    let r = get_completed(&schema, Err("connection reset".to_string()));
    assert_eq!(error_of(&r), (500, "connection reset".to_string()));
}

#[test]
fn create_inserts_only_writable_fields_in_schema_order() {
    let body = json("{\"status\": \"Let\", \"id\": \"forced\", \"property_name\": \"Oak House\", \"created_at\": \"1999-01-01\", \"owner\": \"nobody\"}");
    let s = statement(generic_create(&PropertyEntity::schema(), &body));
    assert_eq!(
        s.sql,
        "INSERT INTO admin_properties (id, property_name, status) VALUES (gen_random_uuid(), $1, $2) RETURNING id::text"
    );
    assert_eq!(s.binds, texts(&["Oak House", "Let"]));
    assert_eq!(s.id, None);
}

#[test]
fn create_with_no_writable_field_still_inserts() {
    let s = statement(generic_create(&PropertyEntity::schema(), &json("{}")));
    assert_eq!(
        s.sql,
        "INSERT INTO admin_properties (id) VALUES (gen_random_uuid()) RETURNING id::text"
    );
    assert!(s.binds.is_empty());
    let s = statement(generic_create(&PropertyEntity::schema(), &json("{\"nope\": 1}")));
    assert_eq!(
        s.sql,
        "INSERT INTO admin_properties (id) VALUES (gen_random_uuid()) RETURNING id::text"
    );
}

#[test]
fn create_coerces_each_kind_of_value() {
    let body = json("{\"property_name\": \"Oak\", \"rent\": 1200.5, \"tags\": [\"a\", 3, \"b\"], \"address\": null, \"status\": true, \"contract_ref\": {\"n\": 1}}");
    let s = statement(generic_create(&PropertyEntity::schema(), &body));
    assert_eq!(
        s.sql,
        "INSERT INTO admin_properties (id, property_name, address, contract_ref, status, rent, tags) VALUES (gen_random_uuid(), $1, $2, $3, $4, $5, $6) RETURNING id::text"
    );
    assert_eq!(
        s.binds,
        bound(&[Some("Oak"), None, Some("{\"n\":1}"), Some("true"), Some("1200.5"), Some("{a,b}")])
    );
}

#[test]
fn create_with_all_lead_fields_numbers_past_nine() {
    let body = json("{\"name\":\"n\",\"email\":\"e\",\"phone\":\"p\",\"company\":\"c\",\"source\":\"s\",\"status\":\"st\",\"interest_type\":\"i\",\"property_name\":\"pn\",\"budget_min\":1,\"budget_max\":2,\"min_bedrooms\":3,\"min_sqm\":4}");
    let s = statement(generic_create(&property_admin::entities::LeadEntity::schema(), &body));
    assert_eq!(
        s.sql,
        "INSERT INTO admin_leads (id, name, email, phone, company, source, status, interest_type, property_name, budget_min, budget_max, min_bedrooms, min_sqm) VALUES (gen_random_uuid(), $1, $2, $3, $4, $5, $6, $7, $8, $9, $10, $11, $12) RETURNING id::text"
    );
    assert_eq!(s.binds, texts(&["n", "e", "p", "c", "s", "st", "i", "pn", "1", "2", "3", "4"]));
}

#[test]
fn create_refuses_a_body_that_is_no_object() {
    let schema = PropertyEntity::schema();
    for body in ["[]", "[{\"property_name\": \"x\"}]", "\"text\"", "12", "true", "null"] {
        assert_eq!(
            refusal(generic_create(&schema, &json(body))),
            (400, "Expected JSON object".to_string())
        );
    }
}

#[test]
fn create_completed_answers_and_audits() {
    let schema = PropertyEntity::schema();
    let body = json("{\"property_name\": \"Oak House\", \"extra\": 1}");
    let out = create_completed(&schema, &body, Ok("6f1c0c1e-0000-4000-8000-000000000001".to_string()));
    assert_eq!(out.response.status, 201);
    match &out.response.body {
        ResponseBody::Created(c) => {
            assert!(c.success);
            assert_eq!(c.id, "6f1c0c1e-0000-4000-8000-000000000001");
        }
        other => panic!("not created: {:?}", other),
    }
    let audit = out.audit.expect("one audit record");
    assert_eq!(audit.sql, AUDIT_SQL);
    assert_eq!(audit.entity_type, "properties");
    assert_eq!(audit.entity_id, "6f1c0c1e-0000-4000-8000-000000000001");
    assert_eq!(audit.action, "create");
    assert_eq!(audit.old_values, None);
    assert_eq!(audit.new_values, Some(&body));
}

#[test]
fn create_completed_failure_leaves_no_audit() {
    let schema = PropertyEntity::schema();
    let body = json("{}");
    let out = create_completed(&schema, &body, Err("duplicate key".to_string()));
    assert_eq!(error_of(&out.response), (500, "duplicate key".to_string()));
    assert!(out.audit.is_none());
}

#[test]
fn update_sets_writable_fields_and_refreshes_updated_at() {
    let body = json("{\"status\": \"Vacant\", \"rent\": 900, \"id\": \"other\", \"updated_at\": \"1999\"}");
    let s = statement(generic_update(&PropertyEntity::schema(), 7, &body));
    assert_eq!(
        s.sql,
        "UPDATE admin_properties SET status = $1, rent = $2, updated_at = NOW() WHERE id = $3 RETURNING id::text"
    );
    assert_eq!(s.binds, texts(&["Vacant", "900"]));
    assert_eq!(s.id, Some(7));
}

#[test]
fn update_with_one_field() {
    let s = statement(generic_update(&LeadNoteEntity::schema(), u128::MAX, &json("{\"content\": \"call back\"}")));
    assert_eq!(
        s.sql,
        "UPDATE admin_lead_notes SET content = $1, updated_at = NOW() WHERE id = $2 RETURNING id::text"
    );
    assert_eq!(s.binds, texts(&["call back"]));
    assert_eq!(s.id, Some(u128::MAX));
}

#[test]
fn update_refuses_a_body_without_writable_fields() {
    let schema = PropertyEntity::schema();
    assert_eq!(
        refusal(generic_update(&schema, 1, &json("{}"))),
        (400, "No valid fields to update".to_string())
    );
    assert_eq!(
        refusal(generic_update(&schema, 1, &json("{\"id\": \"x\", \"created_at\": \"y\", \"updated_at\": \"z\", \"Status\": \"Let\"}"))),
        (400, "No valid fields to update".to_string())
    );
}

#[test]
fn update_refuses_a_body_that_is_no_object() {
    let schema = PropertyEntity::schema();
    for body in ["[]", "\"status\"", "3", "false", "null"] {
        assert_eq!(
            refusal(generic_update(&schema, 1, &json(body))),
            (400, "Expected JSON object".to_string())
        );
    }
}

#[test]
fn update_completed_success_missing_and_failure() {
    let schema = InvoiceEntity::schema();
    let body = json("{\"status\": \"Paid\"}");
    let out = update_completed(&schema, &body, Ok(Some("id-1".to_string())));
    assert_eq!(out.response.status, 200);
    assert!(matches!(&out.response.body, ResponseBody::Success(s) if s.success));
    let audit = out.audit.expect("one audit record");
    assert_eq!(audit.sql, AUDIT_SQL);
    assert_eq!(audit.entity_type, "invoices");
    assert_eq!(audit.entity_id, "id-1");
    assert_eq!(audit.action, "update");
    assert_eq!(audit.old_values, None);
    assert_eq!(audit.new_values, Some(&body));

    let out = update_completed(&schema, &body, Ok(None));
    assert_eq!(error_of(&out.response), (404, "invoices not found".to_string()));
    assert!(out.audit.is_none());

    let out = update_completed(&schema, &body, Err("timeout".to_string()));
    assert_eq!(error_of(&out.response), (500, "timeout".to_string()));
    assert!(out.audit.is_none());
}

#[test]
fn delete_statement() {
    let s = generic_delete(&TenantEntity::schema(), 9);
    assert_eq!(s.sql, "DELETE FROM admin_tenants WHERE id = $1 RETURNING id::text");
    assert!(s.binds.is_empty());
    assert_eq!(s.id, Some(9));
}

#[test]
fn delete_completed_success_missing_and_failure() {
    let schema = TenantEntity::schema();
    let out = delete_completed(&schema, Ok(Some("id-9".to_string())));
    assert_eq!(out.response.status, 200);
    assert!(matches!(&out.response.body, ResponseBody::Success(s) if s.success));
    let audit = out.audit.expect("one audit record");
    assert_eq!(audit.entity_type, "tenants");
    assert_eq!(audit.entity_id, "id-9");
    assert_eq!(audit.action, "delete");
    assert_eq!(audit.old_values, None);
    assert_eq!(audit.new_values, None);

    let out = delete_completed(&schema, Ok(None));
    assert_eq!(error_of(&out.response), (404, "tenants not found".to_string()));
    assert!(out.audit.is_none());

    let out = delete_completed(&schema, Err("fk violation".to_string()));
    assert_eq!(error_of(&out.response), (500, "fk violation".to_string()));
    assert!(out.audit.is_none());
}

#[test]
fn write_audit_keeps_its_arguments() {
    let old = json("{\"a\": 1}");
    let new = json("{\"a\": 2}");
    let w = write_audit("owners", "id-3", "update", Some(&old), Some(&new));
    assert_eq!(w.sql, AUDIT_SQL);
    assert_eq!(w.entity_type, "owners");
    assert_eq!(w.entity_id, "id-3");
    assert_eq!(w.action, "update");
    assert_eq!(w.old_values, Some(&old));
    assert_eq!(w.new_values, Some(&new));
}

#[test]
fn property_lifecycle_create_then_search() {
    let schema = PropertyEntity::schema();
    let body = json("{\"property_name\": \"Oak House\", \"status\": \"Let\"}");
    let s = statement(generic_create(&schema, &body));
    assert_eq!(
        s.sql,
        "INSERT INTO admin_properties (id, property_name, status) VALUES (gen_random_uuid(), $1, $2) RETURNING id::text"
    );
    assert_eq!(s.binds, texts(&["Oak House", "Let"]));

    let id = "0b9f8d3e-5a54-4c6e-9f0a-3c1d2e4f5a6b";
    let out = create_completed(&schema, &body, Ok(id.to_string()));
    assert_eq!(out.response.status, 201);
    assert!(matches!(&out.response.body, ResponseBody::Created(c) if c.success && c.id == id));
    assert!(out.audit.is_some());

    let get = generic_get_by_id(&schema, 0x0b9f8d3e_5a54_4c6e_9f0a_3c1d2e4f5a6b);
    assert_eq!(get.id, Some(0x0b9f8d3e_5a54_4c6e_9f0a_3c1d2e4f5a6b));
    let row = json("{\"id\": \"0b9f8d3e-5a54-4c6e-9f0a-3c1d2e4f5a6b\", \"property_name\": \"Oak House\", \"status\": \"Let\", \"created_at\": \"2024-01-01T00:00:00Z\", \"updated_at\": \"2024-01-01T00:00:00Z\"}");
    let r = get_completed(&schema, Ok(Some(row.clone())));
    match &r.body {
        ResponseBody::Row(v) => {
            assert_eq!(v["property_name"], "Oak House");
            assert_eq!(v["status"], "Let");
            assert!(!v["id"].is_null() && !v["created_at"].is_null() && !v["updated_at"].is_null());
        }
        other => panic!("not a row: {:?}", other),
    }

    let mut q = PaginationQuery::default();
    q.search = text("Oak");
    let plan = generic_list(&schema, &q);
    assert_eq!(plan.bind_values, vec!["%Oak%"]);
    assert!(plan.data_sql.contains("property_name::text ILIKE $1"));
    let page = list_completed(Ok(vec![row.clone()]), Ok(1));
    match page.body {
        ResponseBody::Page(p) => {
            assert!(p.data.contains(&row));
            assert!(p.total >= 1);
        }
        other => panic!("not a page: {:?}", other),
    }
}

#[test]
fn sql_text_of_a_number_is_what_the_number_prints() {
    for text in ["0", "-0", "-0.0", "1.0", "0.1", "1e100", "1E-7", "-12.50", "9007199254740993", "-9223372036854775808", "1.7976931348623157e308", "123456789012345678901234567890"] {
        let value = json(text);
        match &value {
            Value::Number(n) => assert_eq!(json_to_sql_string(&value), Some(n.to_string())),
            other => panic!("not a number: {:?}", other),
        }
    }
    assert_eq!(json_to_sql_string(&json("1e100")).as_deref(), Some("1e+100"));
    assert_eq!(json_to_sql_string(&json("-0.0")).as_deref(), Some("-0.0"));
    assert_eq!(json_to_sql_string(&json("1.0")).as_deref(), Some("1.0"));
    assert_eq!(json_to_sql_string(&json("-12.50")).as_deref(), Some("-12.5"));
}

#[test]
fn sql_text_keeps_strings_as_they_are() {
    assert_eq!(json_to_sql_string(&json("\"caf\\u00e9 \\n tab\\t\"")).as_deref(), Some("caf\u{e9} \n tab\t"));
    assert_eq!(json_to_sql_string(&json("\"{a,b}\"")).as_deref(), Some("{a,b}"));
    assert_eq!(json_to_sql_string(&json("\"null\"")).as_deref(), Some("null"));
    assert_eq!(json_to_sql_string(&json("[\"a,b\", \"c\"]")).as_deref(), Some("{a,b,c}"));
}

#[test]
fn create_binds_null_for_a_null_member() {
    let body = json("{\"property_name\": \"A\", \"address\": null}");
    let s = statement(generic_create(&PropertyEntity::schema(), &body));
    assert_eq!(
        s.sql,
        "INSERT INTO admin_properties (id, property_name, address) VALUES (gen_random_uuid(), $1, $2) RETURNING id::text"
    );
    assert_eq!(s.binds, bound(&[Some("A"), None]));

    let body = json("{\"address\": \"\"}");
    let s = statement(generic_create(&PropertyEntity::schema(), &body));
    assert_eq!(s.binds, bound(&[Some("")]));
}

#[test]
fn update_binds_null_for_a_null_member() {
    let body = json("{\"end_date\": null, \"status\": \"Vacant\", \"rent\": null}");
    let s = statement(generic_update(&PropertyEntity::schema(), 3, &body));
    assert_eq!(
        s.sql,
        "UPDATE admin_properties SET status = $1, rent = $2, end_date = $3, updated_at = NOW() WHERE id = $4 RETURNING id::text"
    );
    assert_eq!(s.binds, bound(&[Some("Vacant"), None, None]));
    assert_eq!(s.id, Some(3));

    // A null member counts as a field to update.
    let s = statement(generic_update(&PropertyEntity::schema(), 3, &json("{\"tags\": null}")));
    assert_eq!(
        s.sql,
        "UPDATE admin_properties SET tags = $1, updated_at = NOW() WHERE id = $2 RETURNING id::text"
    );
    assert_eq!(s.binds, bound(&[None]));
}
