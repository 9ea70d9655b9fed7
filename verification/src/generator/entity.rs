//! The typed columns of an entity.
use vstd::prelude::*;
use crate::model::rust_type::{get_sql_type_from_rust_type, sql_type_of_spec, RustTypeView};
use crate::model::table::{TableData, TableDataView};
use crate::schema::{SqlType, SqlTypeView};
use crate::text::{has_substring, lowercase, text_contains, to_lowercase};

verus! {

/// The kind of typed column that wraps a column of a given type.
#[derive(Debug, Clone, Copy, PartialEq, Eq, Structural)]
pub enum ColumnWrapper {
    StringColumn,
    NumericColumn,
    BooleanColumn,
    DateLikeColumn,
}

/// The wrapper of a custom column type, from its lowercased name: date-like
/// when it mentions `date` or `time`, numeric when it mentions `int`,
/// `numeric` or `float`, a string column otherwise.
pub open spec fn custom_wrapper_spec(lower: Seq<char>) -> ColumnWrapper {
    if has_substring(lower, "date"@) || has_substring(lower, "time"@) {
        ColumnWrapper::DateLikeColumn
    } else if has_substring(lower, "int"@) || has_substring(lower, "numeric"@) || has_substring(
        lower,
        "float"@,
    ) {
        ColumnWrapper::NumericColumn
    } else {
        ColumnWrapper::StringColumn
    }
}

/// The wrapper of each column type.
pub open spec fn wrapper_spec(t: SqlTypeView) -> ColumnWrapper {
    match t {
        SqlTypeView::Varchar(_) | SqlTypeView::Text | SqlTypeView::Char(_) =>
            ColumnWrapper::StringColumn,
        SqlTypeView::Integer | SqlTypeView::Float | SqlTypeView::Double =>
            ColumnWrapper::NumericColumn,
        SqlTypeView::Boolean => ColumnWrapper::BooleanColumn,
        SqlTypeView::Date | SqlTypeView::Timestamp => ColumnWrapper::DateLikeColumn,
        SqlTypeView::Custom(name) => custom_wrapper_spec(lowercase(name)),
    }
}

/// The wrapper of a custom column type whose lowercased name is `lower`.
pub fn custom_wrapper(lower: &str) -> (r: ColumnWrapper)
    ensures
        r == custom_wrapper_spec(lower@),
{
    if text_contains(lower, "date") || text_contains(lower, "time") {
        ColumnWrapper::DateLikeColumn
    } else if text_contains(lower, "int") || text_contains(lower, "numeric") || text_contains(
        lower,
        "float",
    ) {
        ColumnWrapper::NumericColumn
    } else {
        ColumnWrapper::StringColumn
    }
}

/// The wrapper of a column type.
pub fn sql_type_to_wrapper(t: &SqlType) -> (r: ColumnWrapper)
    ensures
        r == wrapper_spec(t@),
{
    match t {
        SqlType::Varchar(_) | SqlType::Text | SqlType::Char(_) => ColumnWrapper::StringColumn,
        SqlType::Integer | SqlType::Float | SqlType::Double => ColumnWrapper::NumericColumn,
        SqlType::Boolean => ColumnWrapper::BooleanColumn,
        SqlType::Date | SqlType::Timestamp => ColumnWrapper::DateLikeColumn,
        SqlType::Custom(name) => {
            let lower = to_lowercase(name.as_str());
            custom_wrapper(lower.as_str())
        },
    }
}

/// A typed column of an entity: the field of the `Columns` value (the
/// column name in lowercase), the column name, and its wrapper.
pub struct EntityColumn {
    pub field_name: String,
    pub column_name: String,
    pub wrapper: ColumnWrapper,
}

/// The view of an [`EntityColumn`].
pub struct EntityColumnView {
    pub field_name: Seq<char>,
    pub column_name: Seq<char>,
    pub wrapper: ColumnWrapper,
}

impl View for EntityColumn {
    type V = EntityColumnView;

    open spec fn view(&self) -> EntityColumnView {
        EntityColumnView {
            field_name: self.field_name@,
            column_name: self.column_name@,
            wrapper: self.wrapper,
        }
    }
}

impl DeepView for EntityColumn {
    type V = EntityColumnView;

    open spec fn deep_view(&self) -> EntityColumnView {
        self@
    }
}

/// The typed column of a column named `name` whose Rust type is `ty`.
pub open spec fn entity_column_spec(name: Seq<char>, ty: RustTypeView) -> EntityColumnView {
    EntityColumnView {
        field_name: lowercase(name),
        column_name: name,
        wrapper: wrapper_spec(sql_type_of_spec(ty)),
    }
}

/// The typed columns of an entity: the primary key first, then each column
/// in order.
pub open spec fn entity_columns_spec(t: TableDataView) -> Seq<EntityColumnView> {
    seq![entity_column_spec(t.primary_key.name, t.primary_key.ty)] + t.fields.map_values(
        |f: crate::model::field::FieldView| entity_column_spec(f.name, f.ty),
    )
}

fn entity_column(name: &String, ty: &crate::model::rust_type::RustType) -> (r: EntityColumn)
    ensures
        r@ == entity_column_spec(name@, ty@),
{
    let t = get_sql_type_from_rust_type(ty);
    EntityColumn {
        field_name: to_lowercase(name.as_str()),
        column_name: name.clone(),
        wrapper: sql_type_to_wrapper(&t),
    }
}

/// The typed columns of an entity, the primary key first.
pub fn entity_columns(table: &TableData) -> (r: Vec<EntityColumn>)
    ensures
        r.deep_view() == entity_columns_spec(table@),
{
    let mut r: Vec<EntityColumn> = Vec::new();
    r.push(entity_column(&table.primary_key.name, &table.primary_key.ty));
    let mut i: usize = 0;
    while i < table.fields.len()
        invariant
            i <= table.fields.len(),
            r.len() == i + 1,
            r@[0].deep_view() == entity_column_spec(table@.primary_key.name, table@.primary_key.ty),
            forall|k: int|
                0 <= k < i ==> #[trigger] r@[k + 1].deep_view() == entity_column_spec(
                    table.fields@[k].name@,
                    table.fields@[k].ty@,
                ),
        decreases table.fields.len() - i,
    {
        let f = &table.fields[i];
        r.push(entity_column(&f.name, &f.ty));
        i = i + 1;
    }
    proof {
        let want = entity_columns_spec(table@);
        assert forall|k: int| 0 <= k < want.len() implies r.deep_view()[k] == want[k] by {
            if k > 0 {
                assert(r@[(k - 1) + 1].deep_view() == entity_column_spec(
                    table.fields@[k - 1].name@,
                    table.fields@[k - 1].ty@,
                ));
            }
        }
        assert(r.deep_view() =~= want);
    }
    r
}

/// The name of the module that holds an entity's columns: its type's name in
/// lowercase.
pub fn entity_module_name(table: &TableData) -> (r: String)
    ensures
        r@ == lowercase(table@.ident),
{
    to_lowercase(table.ident.as_str())
}

} // verus!
