//! Entity schemas: the table and the column whitelists of one entity type.

use vstd::prelude::*;

verus! {

/// The characters of each name in a list of static names.
pub open spec fn texts(items: Seq<&'static str>) -> Seq<Seq<char>> {
    Seq::new(items.len(), |i: int| items[i]@)
}

/// What a schema says, as plain sequences of characters.
pub struct SchemaModel {
    pub table_name: Seq<char>,
    pub entity_label: Seq<char>,
    pub search_fields: Seq<Seq<char>>,
    pub filter_fields: Seq<Seq<char>>,
    pub sortable_fields: Seq<Seq<char>>,
    pub writable_fields: Seq<Seq<char>>,
    pub default_sort: Seq<char>,
}

impl SchemaModel {
    /// A well-formed schema sorts by default on a column it allows sorting
    /// on, and lets no caller write the columns that the store maintains:
    /// the id of a row and the times of its creation and last update.
    pub open spec fn wf(self) -> bool {
        &&& self.sortable_fields.contains(self.default_sort)
        &&& !self.writable_fields.contains("id"@)
        &&& !self.writable_fields.contains("created_at"@)
        &&& !self.writable_fields.contains("updated_at"@)
    }
}

/// Static description of one entity type. Every SQL identifier that a
/// statement carries comes from a value of this type.
pub struct EntitySchema {
    /// Physical table.
    pub table_name: &'static str,
    /// Name used in messages and audit records.
    pub entity_label: &'static str,
    /// Columns matched by a free-text search, in order.
    pub search_fields: Vec<&'static str>,
    /// Columns a caller may filter on by exact value.
    pub filter_fields: Vec<&'static str>,
    /// Columns a caller may sort on.
    pub sortable_fields: Vec<&'static str>,
    /// Columns a caller may set on insert and update.
    pub writable_fields: Vec<&'static str>,
    /// Sort column used when the caller names none that is allowed.
    pub default_sort: &'static str,
}

impl View for EntitySchema {
    type V = SchemaModel;

    open spec fn view(&self) -> SchemaModel {
        SchemaModel {
            table_name: self.table_name@,
            entity_label: self.entity_label@,
            search_fields: texts(self.search_fields@),
            filter_fields: texts(self.filter_fields@),
            sortable_fields: texts(self.sortable_fields@),
            writable_fields: texts(self.writable_fields@),
            default_sort: self.default_sort@,
        }
    }
}

/// An entity type: it names its schema.
pub trait AdminEntity {
    /// The schema of this entity type.
    spec fn model() -> SchemaModel;

    /// Builds the schema; it is well formed.
    fn schema() -> (s: EntitySchema)
        ensures
            s@ == Self::model(),
            s@.wf(),
    ;
}

} // verus!
