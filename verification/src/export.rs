//! Export of a whole table as text: which tables may be exported, the two
//! statements, and the file that is sent.

use vstd::prelude::*;
use vstd::string::StringExecFns;
use crate::text::{same_text, strings};
use crate::types::{error_response, ApiResponse, STATUS_BAD_REQUEST};

verus! {

/// The entities that may be exported, each with its table.
pub open spec fn export_tables() -> Seq<(Seq<char>, Seq<char>)> {
    seq![
        ("properties"@, "admin_properties"@),
        ("tenants"@, "admin_tenants"@),
        ("owners"@, "admin_owners"@),
        ("contracts"@, "admin_contracts"@),
        ("invoices"@, "admin_invoices"@),
        ("deposits"@, "admin_deposits"@),
        ("sepa-batches"@, "admin_sepa_batches"@),
        ("issues"@, "admin_issues"@),
        ("insurance"@, "admin_insurance"@),
        ("alerts"@, "admin_alerts"@),
        ("contacts"@, "admin_contacts"@),
        ("leads"@, "admin_leads"@),
        ("lead-notes"@, "admin_lead_notes"@),
    ]
}

/// The table of the first of `pairs` whose name is `entity`.
pub open spec fn table_for(pairs: Seq<(Seq<char>, Seq<char>)>, entity: Seq<char>) -> Option<
    Seq<char>,
>
    decreases pairs.len(),
{
    if pairs.len() == 0 {
        None
    } else if pairs[0].0 == entity {
        Some(pairs[0].1)
    } else {
        table_for(pairs.drop_first(), entity)
    }
}

/// The message for an entity that cannot be exported.
pub open spec fn unknown_entity_message(entity: Seq<char>) -> Seq<char> {
    "Unknown entity: "@ + entity
}

/// The statement that returns the column names of a table, joined by commas.
pub open spec fn export_columns_sql(table: Seq<char>) -> Seq<char> {
    "SELECT string_agg(column_name, ',') FROM information_schema.columns WHERE table_name = '"@
        + table + "' ORDER BY ordinal_position"@
}

/// The statement that returns every row of a table as JSON text, newest first.
pub open spec fn export_data_sql(table: Seq<char>) -> Seq<char> {
    "SELECT row_to_json(t)::text FROM (SELECT * FROM "@ + table + " ORDER BY created_at DESC) t"@
}

/// Each of the rows followed by a line break.
pub open spec fn lines(rows: Seq<Seq<char>>) -> Seq<char>
    decreases rows.len(),
{
    if rows.len() == 0 {
        Seq::empty()
    } else {
        lines(rows.drop_last()) + rows.last() + "\n"@
    }
}

/// The exported file: the column names on the first line, then one row
/// per line.
pub open spec fn export_file(columns: Seq<char>, rows: Seq<Seq<char>>) -> Seq<char> {
    columns + "\n"@ + lines(rows)
}

/// The `Content-Disposition` that offers a file under the given name.
pub open spec fn attachment(filename: Seq<char>) -> Seq<char> {
    "attachment; filename=\""@ + filename + "\""@
}

/// The two statements of an export. Neither takes a parameter: the table
/// name comes from the list of exportable tables, never from the request.
pub struct ExportPlan {
    pub columns_sql: String,
    pub data_sql: String,
}

fn tables() -> (r: Vec<(&'static str, &'static str)>)
    ensures
        r@.len() == export_tables().len(),
        forall|i: int|
            0 <= i < r@.len() ==> r@[i].0@ == export_tables()[i].0 && r@[i].1@
                == export_tables()[i].1,
{
    vec![
        ("properties", "admin_properties"),
        ("tenants", "admin_tenants"),
        ("owners", "admin_owners"),
        ("contracts", "admin_contracts"),
        ("invoices", "admin_invoices"),
        ("deposits", "admin_deposits"),
        ("sepa-batches", "admin_sepa_batches"),
        ("issues", "admin_issues"),
        ("insurance", "admin_insurance"),
        ("alerts", "admin_alerts"),
        ("contacts", "admin_contacts"),
        ("leads", "admin_leads"),
        ("lead-notes", "admin_lead_notes"),
    ]
}

/// Export, first half. An entity outside the list of exportable ones is
/// refused before the store is asked.
pub fn export_handler(entity: &str) -> (r: Result<ExportPlan, ApiResponse>)
    ensures
        match table_for(export_tables(), entity@) {
            Some(table) => r is Ok && r->Ok_0.columns_sql@ == export_columns_sql(table)
                && r->Ok_0.data_sql@ == export_data_sql(table),
            None => r is Err && r->Err_0.is_error(
                STATUS_BAD_REQUEST,
                unknown_entity_message(entity@),
            ),
        },
{
    let known = tables();
    let mut i: usize = 0;
    assert(export_tables().skip(0) =~= export_tables());
    while i < known.len()
        invariant
            i <= known@.len(),
            known@.len() == export_tables().len(),
            forall|j: int|
                0 <= j < known@.len() ==> known@[j].0@ == export_tables()[j].0 && known@[j].1@
                    == export_tables()[j].1,
            table_for(export_tables(), entity@) == table_for(
                export_tables().skip(i as int),
                entity@,
            ),
        decreases known@.len() - i,
    {
        proof {
            let rest = export_tables().skip(i as int);
            assert(rest[0] == export_tables()[i as int]);
            assert(rest.drop_first() =~= export_tables().skip(i + 1));
        }
        if same_text(known[i].0, entity) {
            let table: &'static str = known[i].1;
            let mut columns_sql = String::from_str(
                "SELECT string_agg(column_name, ',') FROM information_schema.columns WHERE table_name = '",
            );
            columns_sql.append(table);
            columns_sql.append("' ORDER BY ordinal_position");
            let mut data_sql = String::from_str("SELECT row_to_json(t)::text FROM (SELECT * FROM ");
            data_sql.append(table);
            data_sql.append(" ORDER BY created_at DESC) t");
            return Ok(ExportPlan { columns_sql, data_sql });
        }
        i += 1;
    }
    assert(export_tables().skip(i as int).len() == 0);
    let mut message = String::from_str("Unknown entity: ");
    message.append(entity);
    Err(error_response(STATUS_BAD_REQUEST, message.as_str()))
}

/// The file of an export: the column names, then the rows, each on a line
/// of its own.
pub fn export_csv(columns: String, rows: &Vec<String>) -> (csv: String)
    ensures
        csv@ == export_file(columns@, strings(rows@)),
{
    let mut csv = columns;
    csv.append("\n");
    let mut i: usize = 0;
    assert(strings(rows@).take(0) =~= Seq::<Seq<char>>::empty());
    while i < rows.len()
        invariant
            i <= rows@.len(),
            csv@ == export_file(columns@, strings(rows@).take(i as int)),
        decreases rows@.len() - i,
    {
        csv.append(rows[i].as_str());
        csv.append("\n");
        proof {
            let now = strings(rows@).take(i + 1);
            assert(now.drop_last() =~= strings(rows@).take(i as int));
            assert(now.last() == rows@[i as int]@);
            assert(csv@ =~= export_file(columns@, now));
        }
        i += 1;
    }
    assert(strings(rows@).take(i as int) =~= strings(rows@));
    csv
}

/// The `Content-Disposition` of the export of `entity`.
pub fn export_disposition(entity: &str) -> (r: String)
    ensures
        r@ == attachment(entity@ + ".csv"@),
{
    let mut r = String::from_str("attachment; filename=\"");
    r.append(entity);
    r.append(".csv");
    r.append("\"");
    proof {
        assert(r@ =~= attachment(entity@ + ".csv"@));
    }
    r
}

} // verus!
