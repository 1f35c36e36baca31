//! Laws of extended schemas and column lists, field by field and character by character.

use vstd::prelude::*;

use crate::catalog::{ColumnCatalogView, FieldView, PbColumnCatalogView, SinkView};
use crate::columns::{
    can_number, column_id, next_column_id, with_qualified_fields, with_sink_columns,
};
use crate::laws::law_next_column_id_is_least;
use crate::rules::merge::with_plain_fields;
use crate::rules::sink::{pk_in_range, quoted_pk, shown_names};
use crate::rules::stream_scan::field_names;
use crate::text::debug_text;

verus! {

/// Qualified fields come behind the fields of before, one for each added column: the table's name,
/// a dot and the column's name, character by character, with the column's type.
pub proof fn law_qualified_fields(
    fields: Seq<FieldView>,
    new_columns: Seq<ColumnCatalogView>,
    table_name: Seq<char>,
)
    ensures
        ({
            let after = with_qualified_fields(fields, new_columns, table_name);
            &&& after.len() == fields.len() + new_columns.len()
            &&& forall|j: int| 0 <= j < fields.len() ==> #[trigger] after[j] == fields[j]
            &&& forall|i: int|
                #![trigger new_columns[i]]
                0 <= i < new_columns.len() ==> {
                    let desc = new_columns[i].column_desc;
                    let field = after[fields.len() + i];
                    &&& field.data_type == Some(desc.data_type)
                    &&& field.name.len() == table_name.len() + 1 + desc.name.len()
                    &&& forall|c: int|
                        0 <= c < table_name.len() ==> #[trigger] field.name[c] == table_name[c]
                    &&& field.name[table_name.len() as int] == '.'
                    &&& forall|c: int|
                        0 <= c < desc.name.len() ==> field.name[table_name.len() + 1 + c]
                            == #[trigger] desc.name[c]
                }
        }),
{
    reveal_strlit(".");
}

/// Plain fields come behind the fields of before, one for each added column, with exactly the
/// column's name and type.
pub proof fn law_plain_fields(fields: Seq<FieldView>, new_columns: Seq<ColumnCatalogView>)
    ensures
        ({
            let after = with_plain_fields(fields, new_columns);
            &&& after.len() == fields.len() + new_columns.len()
            &&& forall|j: int| 0 <= j < fields.len() ==> #[trigger] after[j] == fields[j]
            &&& forall|i: int|
                #![trigger new_columns[i]]
                0 <= i < new_columns.len() ==> {
                    let desc = new_columns[i].column_desc;
                    let field = after[fields.len() + i];
                    field.name == desc.name && field.data_type == Some(desc.data_type)
                }
        }),
{
}

/// Sink columns come behind the columns of before, one for each added column: with its type, its
/// attributes and its hidden flag, and with its name, which in a log store has the table's name and
/// an underscore before it, character by character.
pub proof fn law_sink_columns(
    columns: Seq<PbColumnCatalogView>,
    new_columns: Seq<ColumnCatalogView>,
    table_name: Option<Seq<char>>,
)
    ensures
        ({
            let after = with_sink_columns(columns, new_columns, table_name);
            &&& after.len() == columns.len() + new_columns.len()
            &&& forall|j: int| 0 <= j < columns.len() ==> #[trigger] after[j] == columns[j]
            &&& forall|i: int|
                #![trigger new_columns[i]]
                0 <= i < new_columns.len() ==> {
                    let desc = new_columns[i].column_desc;
                    let column = after[columns.len() + i];
                    &&& column.is_hidden == new_columns[i].is_hidden
                    &&& column.column_desc matches Some(added)
                    &&& added.data_type == desc.data_type
                    &&& added.attributes == desc.attributes
                    &&& match table_name {
                        None => added.name == desc.name,
                        Some(table_name) => {
                            &&& added.name.len() == table_name.len() + 1 + desc.name.len()
                            &&& forall|c: int|
                                0 <= c < table_name.len() ==> #[trigger] added.name[c]
                                    == table_name[c]
                            &&& added.name[table_name.len() as int] == '_'
                            &&& forall|c: int|
                                0 <= c < desc.name.len() ==> added.name[table_name.len() + 1 + c]
                                    == #[trigger] desc.name[c]
                        },
                    }
                }
        }),
{
    reveal_strlit("_");
}

/// The added columns are numbered one after the other, from the first id above all that are there
/// on, or from 1 on where none is there.
pub proof fn law_sink_columns_are_numbered(
    columns: Seq<PbColumnCatalogView>,
    new_columns: Seq<ColumnCatalogView>,
    table_name: Option<Seq<char>>,
    i: int,
)
    requires
        0 <= i < new_columns.len(),
    ensures
        ({
            let after = with_sink_columns(columns, new_columns, table_name);
            let id = after[columns.len() + i].column_desc->0.column_id;
            &&& columns.len() == 0 ==> id == 1 + i
            &&& forall|j: int|
                0 <= j < columns.len() ==> (#[trigger] columns[j]).column_desc->0.column_id + 1 + i
                    <= id
            &&& columns.len() > 0 ==> exists|j: int|
                0 <= j < columns.len() && (#[trigger] columns[j]).column_desc->0.column_id + 1 + i
                    == id
        }),
{
    law_next_column_id_is_least(columns);
    assert forall|j: int| 0 <= j < columns.len() implies (
    #[trigger] columns[j]).column_desc->0.column_id + 1 <= next_column_id(columns) by {
        assert(column_id(columns[j]) < next_column_id(columns));
    }
    if columns.len() > 0 {
        let j = choose|j: int|
            0 <= j < columns.len() && column_id(#[trigger] columns[j]) + 1
                == next_column_id(columns);
        assert(columns[j].column_desc->0.column_id + 1 == next_column_id(columns));
    }
}

/// Columns can be added to a list exactly if all that are there are described, have an id below the
/// last, and the ids that follow do not run out.
pub proof fn law_numbering_needs_ids(columns: Seq<PbColumnCatalogView>, count: nat)
    ensures
        can_number(columns, count) <==> {
            &&& count <= if columns.len() == 0 {
                i32::MAX as int
            } else {
                i32::MAX + 1
            }
            &&& forall|j: int|
                0 <= j < columns.len() ==> {
                    &&& (#[trigger] columns[j]).column_desc matches Some(desc)
                    &&& desc.column_id < i32::MAX
                    &&& desc.column_id + count <= i32::MAX
                }
        },
{
    law_next_column_id_is_least(columns);
    assert forall|j: int| 0 <= j < columns.len() implies (
    #[trigger] columns[j]).column_desc->0.column_id + 1 <= next_column_id(columns) by {
        assert(column_id(columns[j]) < next_column_id(columns));
    }
    if columns.len() > 0 {
        let j = choose|j: int|
            0 <= j < columns.len() && column_id(#[trigger] columns[j]) + 1
                == next_column_id(columns);
        assert(columns[j].column_desc->0.column_id + 1 == next_column_id(columns));
    }
}

/// The names shown for a downstream key are as many as the key has positions, and each is the
/// quoted name of the sink's column at its position.
pub proof fn law_keys_are_shown_whole(sink: SinkView)
    ensures
        quoted_pk(sink).len() == sink.downstream_pk.len(),
        forall|i: int|
            0 <= i < sink.downstream_pk.len() ==> #[trigger] quoted_pk(sink)[i] == debug_text(
                sink.columns[sink.downstream_pk[i] as int].column_desc->0.name,
            ),
        pk_in_range(sink) <==> forall|i: int|
            0 <= i < sink.downstream_pk.len() ==> 0 <= #[trigger] sink.downstream_pk[i]
                < sink.columns.len()
                && sink.columns[sink.downstream_pk[i] as int].column_desc is Some,
{
}

/// The names shown for columns and fields are as many as these, each in its place.
pub proof fn law_names_are_shown_in_place(
    columns: Seq<PbColumnCatalogView>,
    fields: Seq<FieldView>,
)
    ensures
        shown_names(columns).len() == columns.len(),
        forall|i: int|
            0 <= i < columns.len() ==> #[trigger] shown_names(columns)[i]
                == columns[i].name_with_hidden(),
        field_names(fields).len() == fields.len(),
        forall|i: int|
            0 <= i < fields.len() ==> #[trigger] field_names(fields)[i] == fields[i].name,
{
}

} // verus!
