//! The registered entity types, each with its table and its column whitelists.

use vstd::prelude::*;
use crate::schema::{texts, AdminEntity, EntitySchema, SchemaModel};

verus! {

/// Rental properties.
pub struct PropertyEntity;

impl AdminEntity for PropertyEntity {
    open spec fn model() -> SchemaModel {
        SchemaModel {
            table_name: "admin_properties"@,
            entity_label: "properties"@,
            search_fields: seq![
                "property_name"@,
                "address"@,
                "contract_ref"@,
                "status"@,
                "image_folder"@,
            ],
            filter_fields: seq![
                "status"@,
            ],
            sortable_fields: seq![
                "property_name"@,
                "address"@,
                "status"@,
                "rent"@,
                "start_date"@,
                "end_date"@,
                "created_at"@,
                "updated_at"@,
            ],
            writable_fields: seq![
                "property_name"@,
                "address"@,
                "contract_ref"@,
                "status"@,
                "rent"@,
                "start_date"@,
                "end_date"@,
                "tags"@,
                "image_folder"@,
            ],
            default_sort: "created_at"@,
        }
    }

    fn schema() -> (s: EntitySchema) {
        let s = EntitySchema {
            table_name: "admin_properties",
            entity_label: "properties",
            search_fields: vec![
                "property_name",
                "address",
                "contract_ref",
                "status",
                "image_folder",
            ],
            filter_fields: vec![
                "status",
            ],
            sortable_fields: vec![
                "property_name",
                "address",
                "status",
                "rent",
                "start_date",
                "end_date",
                "created_at",
                "updated_at",
            ],
            writable_fields: vec![
                "property_name",
                "address",
                "contract_ref",
                "status",
                "rent",
                "start_date",
                "end_date",
                "tags",
                "image_folder",
            ],
            default_sort: "created_at",
        };
        proof {
            assert(texts(s.search_fields@) =~= Self::model().search_fields);
            assert(texts(s.filter_fields@) =~= Self::model().filter_fields);
            assert(texts(s.sortable_fields@) =~= Self::model().sortable_fields);
            assert(texts(s.writable_fields@) =~= Self::model().writable_fields);
            assert(Self::model().sortable_fields[6] == Self::model().default_sort);
            reveal_strlit("id");
            reveal_strlit("created_at");
            reveal_strlit("updated_at");
            reveal_strlit("property_name");
            reveal_strlit("address");
            reveal_strlit("contract_ref");
            reveal_strlit("status");
            reveal_strlit("rent");
            reveal_strlit("start_date");
            reveal_strlit("end_date");
            reveal_strlit("tags");
            reveal_strlit("image_folder");
            let writable = Self::model().writable_fields;
            assert forall|i: int| 0 <= i < writable.len() implies writable[i] != "id"@ by {
                assert(writable[i].len() > 0);
            }
            assert("start_date"@[0] != "created_at"@[0]);
            assert forall|i: int| 0 <= i < writable.len() implies writable[i] != "created_at"@ by {
                assert(writable[i].len() > 0);
            }
            assert("start_date"@[0] != "updated_at"@[0]);
            assert forall|i: int| 0 <= i < writable.len() implies writable[i] != "updated_at"@ by {
                assert(writable[i].len() > 0);
            }
        }
        s
    }
}

/// Tenants.
pub struct TenantEntity;

impl AdminEntity for TenantEntity {
    open spec fn model() -> SchemaModel {
        SchemaModel {
            table_name: "admin_tenants"@,
            entity_label: "tenants"@,
            search_fields: seq![
                "name"@,
                "tax_id"@,
                "email"@,
                "phone"@,
                "property_name"@,
            ],
            filter_fields: seq![
                "is_legacy"@,
            ],
            sortable_fields: seq![
                "name"@,
                "email"@,
                "property_name"@,
                "created_at"@,
                "updated_at"@,
            ],
            writable_fields: seq![
                "name"@,
                "tax_id"@,
                "email"@,
                "phone"@,
                "address"@,
                "bank_account"@,
                "property_name"@,
                "property_address"@,
                "is_legacy"@,
            ],
            default_sort: "created_at"@,
        }
    }

    fn schema() -> (s: EntitySchema) {
        let s = EntitySchema {
            table_name: "admin_tenants",
            entity_label: "tenants",
            search_fields: vec![
                "name",
                "tax_id",
                "email",
                "phone",
                "property_name",
            ],
            filter_fields: vec![
                "is_legacy",
            ],
            sortable_fields: vec![
                "name",
                "email",
                "property_name",
                "created_at",
                "updated_at",
            ],
            writable_fields: vec![
                "name",
                "tax_id",
                "email",
                "phone",
                "address",
                "bank_account",
                "property_name",
                "property_address",
                "is_legacy",
            ],
            default_sort: "created_at",
        };
        proof {
            assert(texts(s.search_fields@) =~= Self::model().search_fields);
            assert(texts(s.filter_fields@) =~= Self::model().filter_fields);
            assert(texts(s.sortable_fields@) =~= Self::model().sortable_fields);
            assert(texts(s.writable_fields@) =~= Self::model().writable_fields);
            assert(Self::model().sortable_fields[3] == Self::model().default_sort);
            reveal_strlit("id");
            reveal_strlit("created_at");
            reveal_strlit("updated_at");
            reveal_strlit("name");
            reveal_strlit("tax_id");
            reveal_strlit("email");
            reveal_strlit("phone");
            reveal_strlit("address");
            reveal_strlit("bank_account");
            reveal_strlit("property_name");
            reveal_strlit("property_address");
            reveal_strlit("is_legacy");
            let writable = Self::model().writable_fields;
            assert forall|i: int| 0 <= i < writable.len() implies writable[i] != "id"@ by {
                assert(writable[i].len() > 0);
            }
            assert forall|i: int| 0 <= i < writable.len() implies writable[i] != "created_at"@ by {
                assert(writable[i].len() > 0);
            }
            assert forall|i: int| 0 <= i < writable.len() implies writable[i] != "updated_at"@ by {
                assert(writable[i].len() > 0);
            }
        }
        s
    }
}

/// Property owners.
pub struct OwnerEntity;

impl AdminEntity for OwnerEntity {
    open spec fn model() -> SchemaModel {
        SchemaModel {
            table_name: "admin_owners"@,
            entity_label: "owners"@,
            search_fields: seq![
                "name"@,
                "tax_id"@,
                "email"@,
                "phone"@,
                "property_name"@,
            ],
            filter_fields: Seq::empty(),
            sortable_fields: seq![
                "name"@,
                "email"@,
                "property_name"@,
                "created_at"@,
                "updated_at"@,
            ],
            writable_fields: seq![
                "name"@,
                "tax_id"@,
                "email"@,
                "phone"@,
                "address"@,
                "bank_account"@,
                "property_name"@,
                "property_address"@,
            ],
            default_sort: "created_at"@,
        }
    }

    fn schema() -> (s: EntitySchema) {
        let s = EntitySchema {
            table_name: "admin_owners",
            entity_label: "owners",
            search_fields: vec![
                "name",
                "tax_id",
                "email",
                "phone",
                "property_name",
            ],
            filter_fields: Vec::new(),
            sortable_fields: vec![
                "name",
                "email",
                "property_name",
                "created_at",
                "updated_at",
            ],
            writable_fields: vec![
                "name",
                "tax_id",
                "email",
                "phone",
                "address",
                "bank_account",
                "property_name",
                "property_address",
            ],
            default_sort: "created_at",
        };
        proof {
            assert(texts(s.search_fields@) =~= Self::model().search_fields);
            assert(texts(s.filter_fields@) =~= Self::model().filter_fields);
            assert(texts(s.sortable_fields@) =~= Self::model().sortable_fields);
            assert(texts(s.writable_fields@) =~= Self::model().writable_fields);
            assert(Self::model().sortable_fields[3] == Self::model().default_sort);
            reveal_strlit("id");
            reveal_strlit("created_at");
            reveal_strlit("updated_at");
            reveal_strlit("name");
            reveal_strlit("tax_id");
            reveal_strlit("email");
            reveal_strlit("phone");
            reveal_strlit("address");
            reveal_strlit("bank_account");
            reveal_strlit("property_name");
            reveal_strlit("property_address");
            let writable = Self::model().writable_fields;
            assert forall|i: int| 0 <= i < writable.len() implies writable[i] != "id"@ by {
                assert(writable[i].len() > 0);
            }
            assert forall|i: int| 0 <= i < writable.len() implies writable[i] != "created_at"@ by {
                assert(writable[i].len() > 0);
            }
            assert forall|i: int| 0 <= i < writable.len() implies writable[i] != "updated_at"@ by {
                assert(writable[i].len() > 0);
            }
        }
        s
    }
}

/// Rental contracts.
pub struct ContractEntity;

impl AdminEntity for ContractEntity {
    open spec fn model() -> SchemaModel {
        SchemaModel {
            table_name: "admin_contracts"@,
            entity_label: "contracts"@,
            search_fields: seq![
                "contract_ref"@,
                "property_name"@,
                "address"@,
                "tenant_name"@,
                "status"@,
            ],
            filter_fields: seq![
                "status"@,
            ],
            sortable_fields: seq![
                "contract_ref"@,
                "property_name"@,
                "tenant_name"@,
                "status"@,
                "rent"@,
                "total_value"@,
                "start_date"@,
                "end_date"@,
                "created_at"@,
                "updated_at"@,
            ],
            writable_fields: seq![
                "contract_ref"@,
                "property_name"@,
                "address"@,
                "tenant_name"@,
                "status"@,
                "rent"@,
                "total_value"@,
                "start_date"@,
                "end_date"@,
                "tags"@,
                "doc_count"@,
            ],
            default_sort: "created_at"@,
        }
    }

    fn schema() -> (s: EntitySchema) {
        let s = EntitySchema {
            table_name: "admin_contracts",
            entity_label: "contracts",
            search_fields: vec![
                "contract_ref",
                "property_name",
                "address",
                "tenant_name",
                "status",
            ],
            filter_fields: vec![
                "status",
            ],
            sortable_fields: vec![
                "contract_ref",
                "property_name",
                "tenant_name",
                "status",
                "rent",
                "total_value",
                "start_date",
                "end_date",
                "created_at",
                "updated_at",
            ],
            writable_fields: vec![
                "contract_ref",
                "property_name",
                "address",
                "tenant_name",
                "status",
                "rent",
                "total_value",
                "start_date",
                "end_date",
                "tags",
                "doc_count",
            ],
            default_sort: "created_at",
        };
        proof {
            assert(texts(s.search_fields@) =~= Self::model().search_fields);
            assert(texts(s.filter_fields@) =~= Self::model().filter_fields);
            assert(texts(s.sortable_fields@) =~= Self::model().sortable_fields);
            assert(texts(s.writable_fields@) =~= Self::model().writable_fields);
            assert(Self::model().sortable_fields[8] == Self::model().default_sort);
            reveal_strlit("id");
            reveal_strlit("created_at");
            reveal_strlit("updated_at");
            reveal_strlit("contract_ref");
            reveal_strlit("property_name");
            reveal_strlit("address");
            reveal_strlit("tenant_name");
            reveal_strlit("status");
            reveal_strlit("rent");
            reveal_strlit("total_value");
            reveal_strlit("start_date");
            reveal_strlit("end_date");
            reveal_strlit("tags");
            reveal_strlit("doc_count");
            let writable = Self::model().writable_fields;
            assert forall|i: int| 0 <= i < writable.len() implies writable[i] != "id"@ by {
                assert(writable[i].len() > 0);
            }
            assert("start_date"@[0] != "created_at"@[0]);
            assert forall|i: int| 0 <= i < writable.len() implies writable[i] != "created_at"@ by {
                assert(writable[i].len() > 0);
            }
            assert("start_date"@[0] != "updated_at"@[0]);
            assert forall|i: int| 0 <= i < writable.len() implies writable[i] != "updated_at"@ by {
                assert(writable[i].len() > 0);
            }
        }
        s
    }
}

/// Invoices, income and expense.
pub struct InvoiceEntity;

impl AdminEntity for InvoiceEntity {
    open spec fn model() -> SchemaModel {
        SchemaModel {
            table_name: "admin_invoices"@,
            entity_label: "invoices"@,
            search_fields: seq![
                "reference"@,
                "description"@,
                "contract_ref"@,
                "property_name"@,
                "payer"@,
                "payee"@,
                "status"@,
            ],
            filter_fields: seq![
                "status"@,
                "type"@,
                "expense_category"@,
                "payee"@,
            ],
            sortable_fields: seq![
                "reference"@,
                "description"@,
                "property_name"@,
                "payer"@,
                "payee"@,
                "status"@,
                "amount"@,
                "paid"@,
                "invoice_date"@,
                "payment_date"@,
                "type"@,
                "created_at"@,
                "updated_at"@,
            ],
            writable_fields: seq![
                "reference"@,
                "description"@,
                "contract_ref"@,
                "property_name"@,
                "payer"@,
                "payee"@,
                "status"@,
                "amount"@,
                "paid"@,
                "vat"@,
                "currency"@,
                "invoice_date"@,
                "payment_date"@,
                "type"@,
                "expense_category"@,
                "notes"@,
            ],
            default_sort: "invoice_date"@,
        }
    }

    fn schema() -> (s: EntitySchema) {
        let s = EntitySchema {
            table_name: "admin_invoices",
            entity_label: "invoices",
            search_fields: vec![
                "reference",
                "description",
                "contract_ref",
                "property_name",
                "payer",
                "payee",
                "status",
            ],
            filter_fields: vec![
                "status",
                "type",
                "expense_category",
                "payee",
            ],
            sortable_fields: vec![
                "reference",
                "description",
                "property_name",
                "payer",
                "payee",
                "status",
                "amount",
                "paid",
                "invoice_date",
                "payment_date",
                "type",
                "created_at",
                "updated_at",
            ],
            writable_fields: vec![
                "reference",
                "description",
                "contract_ref",
                "property_name",
                "payer",
                "payee",
                "status",
                "amount",
                "paid",
                "vat",
                "currency",
                "invoice_date",
                "payment_date",
                "type",
                "expense_category",
                "notes",
            ],
            default_sort: "invoice_date",
        };
        proof {
            assert(texts(s.search_fields@) =~= Self::model().search_fields);
            assert(texts(s.filter_fields@) =~= Self::model().filter_fields);
            assert(texts(s.sortable_fields@) =~= Self::model().sortable_fields);
            assert(texts(s.writable_fields@) =~= Self::model().writable_fields);
            assert(Self::model().sortable_fields[8] == Self::model().default_sort);
            reveal_strlit("id");
            reveal_strlit("created_at");
            reveal_strlit("updated_at");
            reveal_strlit("reference");
            reveal_strlit("description");
            reveal_strlit("contract_ref");
            reveal_strlit("property_name");
            reveal_strlit("payer");
            reveal_strlit("payee");
            reveal_strlit("status");
            reveal_strlit("amount");
            reveal_strlit("paid");
            reveal_strlit("vat");
            reveal_strlit("currency");
            reveal_strlit("invoice_date");
            reveal_strlit("payment_date");
            reveal_strlit("type");
            reveal_strlit("expense_category");
            reveal_strlit("notes");
            let writable = Self::model().writable_fields;
            assert forall|i: int| 0 <= i < writable.len() implies writable[i] != "id"@ by {
                assert(writable[i].len() > 0);
            }
            assert forall|i: int| 0 <= i < writable.len() implies writable[i] != "created_at"@ by {
                assert(writable[i].len() > 0);
            }
            assert forall|i: int| 0 <= i < writable.len() implies writable[i] != "updated_at"@ by {
                assert(writable[i].len() > 0);
            }
        }
        s
    }
}

/// Deposits.
pub struct DepositEntity;

impl AdminEntity for DepositEntity {
    open spec fn model() -> SchemaModel {
        SchemaModel {
            table_name: "admin_deposits"@,
            entity_label: "deposits"@,
            search_fields: seq![
                "property_name"@,
                "contract_ref"@,
                "payer"@,
                "payee"@,
                "status"@,
            ],
            filter_fields: seq![
                "status"@,
                "deposit_type"@,
            ],
            sortable_fields: seq![
                "property_name"@,
                "contract_ref"@,
                "status"@,
                "amount"@,
                "deposit_date"@,
                "created_at"@,
                "updated_at"@,
            ],
            writable_fields: seq![
                "deposit_date"@,
                "payment_date"@,
                "refund_date"@,
                "property_name"@,
                "contract_ref"@,
                "payer"@,
                "payee"@,
                "deposit_type"@,
                "status"@,
                "amount"@,
                "paid"@,
                "refunded"@,
            ],
            default_sort: "created_at"@,
        }
    }

    fn schema() -> (s: EntitySchema) {
        let s = EntitySchema {
            table_name: "admin_deposits",
            entity_label: "deposits",
            search_fields: vec![
                "property_name",
                "contract_ref",
                "payer",
                "payee",
                "status",
            ],
            filter_fields: vec![
                "status",
                "deposit_type",
            ],
            sortable_fields: vec![
                "property_name",
                "contract_ref",
                "status",
                "amount",
                "deposit_date",
                "created_at",
                "updated_at",
            ],
            writable_fields: vec![
                "deposit_date",
                "payment_date",
                "refund_date",
                "property_name",
                "contract_ref",
                "payer",
                "payee",
                "deposit_type",
                "status",
                "amount",
                "paid",
                "refunded",
            ],
            default_sort: "created_at",
        };
        proof {
            assert(texts(s.search_fields@) =~= Self::model().search_fields);
            assert(texts(s.filter_fields@) =~= Self::model().filter_fields);
            assert(texts(s.sortable_fields@) =~= Self::model().sortable_fields);
            assert(texts(s.writable_fields@) =~= Self::model().writable_fields);
            assert(Self::model().sortable_fields[5] == Self::model().default_sort);
            reveal_strlit("id");
            reveal_strlit("created_at");
            reveal_strlit("updated_at");
            reveal_strlit("deposit_date");
            reveal_strlit("payment_date");
            reveal_strlit("refund_date");
            reveal_strlit("property_name");
            reveal_strlit("contract_ref");
            reveal_strlit("payer");
            reveal_strlit("payee");
            reveal_strlit("deposit_type");
            reveal_strlit("status");
            reveal_strlit("amount");
            reveal_strlit("paid");
            reveal_strlit("refunded");
            let writable = Self::model().writable_fields;
            assert forall|i: int| 0 <= i < writable.len() implies writable[i] != "id"@ by {
                assert(writable[i].len() > 0);
            }
            assert forall|i: int| 0 <= i < writable.len() implies writable[i] != "created_at"@ by {
                assert(writable[i].len() > 0);
            }
            assert forall|i: int| 0 <= i < writable.len() implies writable[i] != "updated_at"@ by {
                assert(writable[i].len() > 0);
            }
        }
        s
    }
}

/// SEPA direct-debit batches.
pub struct SepaBatchEntity;

impl AdminEntity for SepaBatchEntity {
    open spec fn model() -> SchemaModel {
        SchemaModel {
            table_name: "admin_sepa_batches"@,
            entity_label: "sepa_batches"@,
            search_fields: seq![
                "batch_id"@,
                "creditor"@,
                "creditor_iban"@,
                "debtor"@,
                "debtor_iban"@,
                "reference"@,
            ],
            filter_fields: Seq::empty(),
            sortable_fields: seq![
                "batch_id"@,
                "collection_date"@,
                "creditor"@,
                "amount"@,
                "debtor"@,
                "created_at"@,
                "updated_at"@,
            ],
            writable_fields: seq![
                "batch_id"@,
                "collection_date"@,
                "creditor"@,
                "creditor_iban"@,
                "amount"@,
                "currency"@,
                "debtor"@,
                "debtor_iban"@,
                "mandate_id"@,
                "reference"@,
            ],
            default_sort: "created_at"@,
        }
    }

    fn schema() -> (s: EntitySchema) {
        let s = EntitySchema {
            table_name: "admin_sepa_batches",
            entity_label: "sepa_batches",
            search_fields: vec![
                "batch_id",
                "creditor",
                "creditor_iban",
                "debtor",
                "debtor_iban",
                "reference",
            ],
            filter_fields: Vec::new(),
            sortable_fields: vec![
                "batch_id",
                "collection_date",
                "creditor",
                "amount",
                "debtor",
                "created_at",
                "updated_at",
            ],
            writable_fields: vec![
                "batch_id",
                "collection_date",
                "creditor",
                "creditor_iban",
                "amount",
                "currency",
                "debtor",
                "debtor_iban",
                "mandate_id",
                "reference",
            ],
            default_sort: "created_at",
        };
        proof {
            assert(texts(s.search_fields@) =~= Self::model().search_fields);
            assert(texts(s.filter_fields@) =~= Self::model().filter_fields);
            assert(texts(s.sortable_fields@) =~= Self::model().sortable_fields);
            assert(texts(s.writable_fields@) =~= Self::model().writable_fields);
            assert(Self::model().sortable_fields[5] == Self::model().default_sort);
            reveal_strlit("id");
            reveal_strlit("created_at");
            reveal_strlit("updated_at");
            reveal_strlit("batch_id");
            reveal_strlit("collection_date");
            reveal_strlit("creditor");
            reveal_strlit("creditor_iban");
            reveal_strlit("amount");
            reveal_strlit("currency");
            reveal_strlit("debtor");
            reveal_strlit("debtor_iban");
            reveal_strlit("mandate_id");
            reveal_strlit("reference");
            let writable = Self::model().writable_fields;
            assert forall|i: int| 0 <= i < writable.len() implies writable[i] != "id"@ by {
                assert(writable[i].len() > 0);
            }
            assert("mandate_id"@[0] != "created_at"@[0]);
            assert forall|i: int| 0 <= i < writable.len() implies writable[i] != "created_at"@ by {
                assert(writable[i].len() > 0);
            }
            assert("mandate_id"@[0] != "updated_at"@[0]);
            assert forall|i: int| 0 <= i < writable.len() implies writable[i] != "updated_at"@ by {
                assert(writable[i].len() > 0);
            }
        }
        s
    }
}

/// Maintenance issues.
pub struct IssueEntity;

impl AdminEntity for IssueEntity {
    open spec fn model() -> SchemaModel {
        SchemaModel {
            table_name: "admin_issues"@,
            entity_label: "issues"@,
            search_fields: seq![
                "property_name"@,
                "title"@,
                "description"@,
                "priority"@,
                "status"@,
            ],
            filter_fields: seq![
                "status"@,
                "priority"@,
            ],
            sortable_fields: seq![
                "property_name"@,
                "title"@,
                "priority"@,
                "status"@,
                "cost"@,
                "created_at"@,
                "updated_at"@,
            ],
            writable_fields: seq![
                "property_name"@,
                "title"@,
                "description"@,
                "priority"@,
                "status"@,
                "cost"@,
            ],
            default_sort: "created_at"@,
        }
    }

    fn schema() -> (s: EntitySchema) {
        let s = EntitySchema {
            table_name: "admin_issues",
            entity_label: "issues",
            search_fields: vec![
                "property_name",
                "title",
                "description",
                "priority",
                "status",
            ],
            filter_fields: vec![
                "status",
                "priority",
            ],
            sortable_fields: vec![
                "property_name",
                "title",
                "priority",
                "status",
                "cost",
                "created_at",
                "updated_at",
            ],
            writable_fields: vec![
                "property_name",
                "title",
                "description",
                "priority",
                "status",
                "cost",
            ],
            default_sort: "created_at",
        };
        proof {
            assert(texts(s.search_fields@) =~= Self::model().search_fields);
            assert(texts(s.filter_fields@) =~= Self::model().filter_fields);
            assert(texts(s.sortable_fields@) =~= Self::model().sortable_fields);
            assert(texts(s.writable_fields@) =~= Self::model().writable_fields);
            assert(Self::model().sortable_fields[5] == Self::model().default_sort);
            reveal_strlit("id");
            reveal_strlit("created_at");
            reveal_strlit("updated_at");
            reveal_strlit("property_name");
            reveal_strlit("title");
            reveal_strlit("description");
            reveal_strlit("priority");
            reveal_strlit("status");
            reveal_strlit("cost");
            let writable = Self::model().writable_fields;
            assert forall|i: int| 0 <= i < writable.len() implies writable[i] != "id"@ by {
                assert(writable[i].len() > 0);
            }
            assert forall|i: int| 0 <= i < writable.len() implies writable[i] != "created_at"@ by {
                assert(writable[i].len() > 0);
            }
            assert forall|i: int| 0 <= i < writable.len() implies writable[i] != "updated_at"@ by {
                assert(writable[i].len() > 0);
            }
        }
        s
    }
}

/// Insurance policies.
pub struct InsuranceEntity;

impl AdminEntity for InsuranceEntity {
    open spec fn model() -> SchemaModel {
        SchemaModel {
            table_name: "admin_insurance"@,
            entity_label: "insurance"@,
            search_fields: seq![
                "property_name"@,
                "insurance_type"@,
                "company"@,
                "policy_number"@,
                "status"@,
            ],
            filter_fields: seq![
                "status"@,
                "insurance_type"@,
            ],
            sortable_fields: seq![
                "property_name"@,
                "company"@,
                "insurance_type"@,
                "status"@,
                "premium"@,
                "start_date"@,
                "end_date"@,
                "created_at"@,
                "updated_at"@,
            ],
            writable_fields: seq![
                "property_name"@,
                "insurance_type"@,
                "company"@,
                "policy_number"@,
                "start_date"@,
                "end_date"@,
                "premium"@,
                "status"@,
                "notes"@,
            ],
            default_sort: "created_at"@,
        }
    }

    fn schema() -> (s: EntitySchema) {
        let s = EntitySchema {
            table_name: "admin_insurance",
            entity_label: "insurance",
            search_fields: vec![
                "property_name",
                "insurance_type",
                "company",
                "policy_number",
                "status",
            ],
            filter_fields: vec![
                "status",
                "insurance_type",
            ],
            sortable_fields: vec![
                "property_name",
                "company",
                "insurance_type",
                "status",
                "premium",
                "start_date",
                "end_date",
                "created_at",
                "updated_at",
            ],
            writable_fields: vec![
                "property_name",
                "insurance_type",
                "company",
                "policy_number",
                "start_date",
                "end_date",
                "premium",
                "status",
                "notes",
            ],
            default_sort: "created_at",
        };
        proof {
            assert(texts(s.search_fields@) =~= Self::model().search_fields);
            assert(texts(s.filter_fields@) =~= Self::model().filter_fields);
            assert(texts(s.sortable_fields@) =~= Self::model().sortable_fields);
            assert(texts(s.writable_fields@) =~= Self::model().writable_fields);
            assert(Self::model().sortable_fields[7] == Self::model().default_sort);
            reveal_strlit("id");
            reveal_strlit("created_at");
            reveal_strlit("updated_at");
            reveal_strlit("property_name");
            reveal_strlit("insurance_type");
            reveal_strlit("company");
            reveal_strlit("policy_number");
            reveal_strlit("start_date");
            reveal_strlit("end_date");
            reveal_strlit("premium");
            reveal_strlit("status");
            reveal_strlit("notes");
            let writable = Self::model().writable_fields;
            assert forall|i: int| 0 <= i < writable.len() implies writable[i] != "id"@ by {
                assert(writable[i].len() > 0);
            }
            assert("start_date"@[0] != "created_at"@[0]);
            assert forall|i: int| 0 <= i < writable.len() implies writable[i] != "created_at"@ by {
                assert(writable[i].len() > 0);
            }
            assert("start_date"@[0] != "updated_at"@[0]);
            assert forall|i: int| 0 <= i < writable.len() implies writable[i] != "updated_at"@ by {
                assert(writable[i].len() > 0);
            }
        }
        s
    }
}

/// Alerts.
pub struct AlertEntity;

impl AdminEntity for AlertEntity {
    open spec fn model() -> SchemaModel {
        SchemaModel {
            table_name: "admin_alerts"@,
            entity_label: "alerts"@,
            search_fields: seq![
                "type"@,
                "entity_type"@,
                "title"@,
                "description"@,
                "status"@,
            ],
            filter_fields: seq![
                "status"@,
                "priority"@,
                "type"@,
            ],
            sortable_fields: seq![
                "type"@,
                "entity_type"@,
                "title"@,
                "status"@,
                "priority"@,
                "created_at"@,
                "updated_at"@,
            ],
            writable_fields: seq![
                "type"@,
                "entity_type"@,
                "entity_id"@,
                "title"@,
                "description"@,
                "status"@,
                "priority"@,
            ],
            default_sort: "created_at"@,
        }
    }

    fn schema() -> (s: EntitySchema) {
        let s = EntitySchema {
            table_name: "admin_alerts",
            entity_label: "alerts",
            search_fields: vec![
                "type",
                "entity_type",
                "title",
                "description",
                "status",
            ],
            filter_fields: vec![
                "status",
                "priority",
                "type",
            ],
            sortable_fields: vec![
                "type",
                "entity_type",
                "title",
                "status",
                "priority",
                "created_at",
                "updated_at",
            ],
            writable_fields: vec![
                "type",
                "entity_type",
                "entity_id",
                "title",
                "description",
                "status",
                "priority",
            ],
            default_sort: "created_at",
        };
        proof {
            assert(texts(s.search_fields@) =~= Self::model().search_fields);
            assert(texts(s.filter_fields@) =~= Self::model().filter_fields);
            assert(texts(s.sortable_fields@) =~= Self::model().sortable_fields);
            assert(texts(s.writable_fields@) =~= Self::model().writable_fields);
            assert(Self::model().sortable_fields[5] == Self::model().default_sort);
            reveal_strlit("id");
            reveal_strlit("created_at");
            reveal_strlit("updated_at");
            reveal_strlit("type");
            reveal_strlit("entity_type");
            reveal_strlit("entity_id");
            reveal_strlit("title");
            reveal_strlit("description");
            reveal_strlit("status");
            reveal_strlit("priority");
            let writable = Self::model().writable_fields;
            assert forall|i: int| 0 <= i < writable.len() implies writable[i] != "id"@ by {
                assert(writable[i].len() > 0);
            }
            assert forall|i: int| 0 <= i < writable.len() implies writable[i] != "created_at"@ by {
                assert(writable[i].len() > 0);
            }
            assert forall|i: int| 0 <= i < writable.len() implies writable[i] != "updated_at"@ by {
                assert(writable[i].len() > 0);
            }
        }
        s
    }
}

/// Contacts.
pub struct ContactEntity;

impl AdminEntity for ContactEntity {
    open spec fn model() -> SchemaModel {
        SchemaModel {
            table_name: "admin_contacts"@,
            entity_label: "contacts"@,
            search_fields: seq![
                "name"@,
                "email"@,
                "phone"@,
                "contact_type"@,
            ],
            filter_fields: seq![
                "contact_type"@,
            ],
            sortable_fields: seq![
                "name"@,
                "email"@,
                "contact_type"@,
                "created_at"@,
                "updated_at"@,
            ],
            writable_fields: seq![
                "name"@,
                "tax_id"@,
                "iban"@,
                "email"@,
                "phone"@,
                "address"@,
                "contact_type"@,
                "notes"@,
            ],
            default_sort: "created_at"@,
        }
    }

    fn schema() -> (s: EntitySchema) {
        let s = EntitySchema {
            table_name: "admin_contacts",
            entity_label: "contacts",
            search_fields: vec![
                "name",
                "email",
                "phone",
                "contact_type",
            ],
            filter_fields: vec![
                "contact_type",
            ],
            sortable_fields: vec![
                "name",
                "email",
                "contact_type",
                "created_at",
                "updated_at",
            ],
            writable_fields: vec![
                "name",
                "tax_id",
                "iban",
                "email",
                "phone",
                "address",
                "contact_type",
                "notes",
            ],
            default_sort: "created_at",
        };
        proof {
            assert(texts(s.search_fields@) =~= Self::model().search_fields);
            assert(texts(s.filter_fields@) =~= Self::model().filter_fields);
            assert(texts(s.sortable_fields@) =~= Self::model().sortable_fields);
            assert(texts(s.writable_fields@) =~= Self::model().writable_fields);
            assert(Self::model().sortable_fields[3] == Self::model().default_sort);
            reveal_strlit("id");
            reveal_strlit("created_at");
            reveal_strlit("updated_at");
            reveal_strlit("name");
            reveal_strlit("tax_id");
            reveal_strlit("iban");
            reveal_strlit("email");
            reveal_strlit("phone");
            reveal_strlit("address");
            reveal_strlit("contact_type");
            reveal_strlit("notes");
            let writable = Self::model().writable_fields;
            assert forall|i: int| 0 <= i < writable.len() implies writable[i] != "id"@ by {
                assert(writable[i].len() > 0);
            }
            assert forall|i: int| 0 <= i < writable.len() implies writable[i] != "created_at"@ by {
                assert(writable[i].len() > 0);
            }
            assert forall|i: int| 0 <= i < writable.len() implies writable[i] != "updated_at"@ by {
                assert(writable[i].len() > 0);
            }
        }
        s
    }
}

/// Sales leads.
pub struct LeadEntity;

impl AdminEntity for LeadEntity {
    open spec fn model() -> SchemaModel {
        SchemaModel {
            table_name: "admin_leads"@,
            entity_label: "leads"@,
            search_fields: seq![
                "name"@,
                "email"@,
                "phone"@,
                "company"@,
                "property_name"@,
                "status"@,
            ],
            filter_fields: seq![
                "status"@,
                "source"@,
                "interest_type"@,
                "assigned_to"@,
            ],
            sortable_fields: seq![
                "name"@,
                "company"@,
                "status"@,
                "source"@,
                "score"@,
                "contact_date"@,
                "follow_up_date"@,
                "created_at"@,
                "updated_at"@,
            ],
            writable_fields: seq![
                "name"@,
                "email"@,
                "phone"@,
                "company"@,
                "source"@,
                "status"@,
                "interest_type"@,
                "property_name"@,
                "budget_min"@,
                "budget_max"@,
                "min_bedrooms"@,
                "min_sqm"@,
                "preferred_area"@,
                "contact_date"@,
                "follow_up_date"@,
                "assigned_to"@,
                "score"@,
                "notes"@,
            ],
            default_sort: "created_at"@,
        }
    }

    fn schema() -> (s: EntitySchema) {
        let s = EntitySchema {
            table_name: "admin_leads",
            entity_label: "leads",
            search_fields: vec![
                "name",
                "email",
                "phone",
                "company",
                "property_name",
                "status",
            ],
            filter_fields: vec![
                "status",
                "source",
                "interest_type",
                "assigned_to",
            ],
            sortable_fields: vec![
                "name",
                "company",
                "status",
                "source",
                "score",
                "contact_date",
                "follow_up_date",
                "created_at",
                "updated_at",
            ],
            writable_fields: vec![
                "name",
                "email",
                "phone",
                "company",
                "source",
                "status",
                "interest_type",
                "property_name",
                "budget_min",
                "budget_max",
                "min_bedrooms",
                "min_sqm",
                "preferred_area",
                "contact_date",
                "follow_up_date",
                "assigned_to",
                "score",
                "notes",
            ],
            default_sort: "created_at",
        };
        proof {
            assert(texts(s.search_fields@) =~= Self::model().search_fields);
            assert(texts(s.filter_fields@) =~= Self::model().filter_fields);
            assert(texts(s.sortable_fields@) =~= Self::model().sortable_fields);
            assert(texts(s.writable_fields@) =~= Self::model().writable_fields);
            assert(Self::model().sortable_fields[7] == Self::model().default_sort);
            reveal_strlit("id");
            reveal_strlit("created_at");
            reveal_strlit("updated_at");
            reveal_strlit("name");
            reveal_strlit("email");
            reveal_strlit("phone");
            reveal_strlit("company");
            reveal_strlit("source");
            reveal_strlit("status");
            reveal_strlit("interest_type");
            reveal_strlit("property_name");
            reveal_strlit("budget_min");
            reveal_strlit("budget_max");
            reveal_strlit("min_bedrooms");
            reveal_strlit("min_sqm");
            reveal_strlit("preferred_area");
            reveal_strlit("contact_date");
            reveal_strlit("follow_up_date");
            reveal_strlit("assigned_to");
            reveal_strlit("score");
            reveal_strlit("notes");
            let writable = Self::model().writable_fields;
            assert forall|i: int| 0 <= i < writable.len() implies writable[i] != "id"@ by {
                assert(writable[i].len() > 0);
            }
            assert("budget_min"@[0] != "created_at"@[0]);
            assert("budget_max"@[0] != "created_at"@[0]);
            assert forall|i: int| 0 <= i < writable.len() implies writable[i] != "created_at"@ by {
                assert(writable[i].len() > 0);
            }
            assert("budget_min"@[0] != "updated_at"@[0]);
            assert("budget_max"@[0] != "updated_at"@[0]);
            assert forall|i: int| 0 <= i < writable.len() implies writable[i] != "updated_at"@ by {
                assert(writable[i].len() > 0);
            }
        }
        s
    }
}

/// Notes attached to a lead.
pub struct LeadNoteEntity;

impl AdminEntity for LeadNoteEntity {
    open spec fn model() -> SchemaModel {
        SchemaModel {
            table_name: "admin_lead_notes"@,
            entity_label: "lead_notes"@,
            search_fields: seq![
                "content"@,
                "author"@,
            ],
            filter_fields: seq![
                "lead_id"@,
                "author"@,
            ],
            sortable_fields: seq![
                "author"@,
                "created_at"@,
                "updated_at"@,
            ],
            writable_fields: seq![
                "lead_id"@,
                "content"@,
                "author"@,
            ],
            default_sort: "created_at"@,
        }
    }

    fn schema() -> (s: EntitySchema) {
        let s = EntitySchema {
            table_name: "admin_lead_notes",
            entity_label: "lead_notes",
            search_fields: vec![
                "content",
                "author",
            ],
            filter_fields: vec![
                "lead_id",
                "author",
            ],
            sortable_fields: vec![
                "author",
                "created_at",
                "updated_at",
            ],
            writable_fields: vec![
                "lead_id",
                "content",
                "author",
            ],
            default_sort: "created_at",
        };
        proof {
            assert(texts(s.search_fields@) =~= Self::model().search_fields);
            assert(texts(s.filter_fields@) =~= Self::model().filter_fields);
            assert(texts(s.sortable_fields@) =~= Self::model().sortable_fields);
            assert(texts(s.writable_fields@) =~= Self::model().writable_fields);
            assert(Self::model().sortable_fields[1] == Self::model().default_sort);
            reveal_strlit("id");
            reveal_strlit("created_at");
            reveal_strlit("updated_at");
            reveal_strlit("lead_id");
            reveal_strlit("content");
            reveal_strlit("author");
            let writable = Self::model().writable_fields;
            assert forall|i: int| 0 <= i < writable.len() implies writable[i] != "id"@ by {
                assert(writable[i].len() > 0);
            }
            assert forall|i: int| 0 <= i < writable.len() implies writable[i] != "created_at"@ by {
                assert(writable[i].len() > 0);
            }
            assert forall|i: int| 0 <= i < writable.len() implies writable[i] != "updated_at"@ by {
                assert(writable[i].len() > 0);
            }
        }
        s
    }
}

} // verus!
