//! Extending schemas and column lists by added columns.

use vstd::prelude::*;

use crate::catalog::{
    ColumnCatalog, ColumnCatalogView, ColumnDescView, Field, FieldView, PbColumnCatalog,
    PbColumnCatalogView,
};
use crate::text::views;

verus! {

/// The field of an added column, qualified by its table's name.
pub open spec fn qualified_field(table_name: Seq<char>, column: ColumnCatalogView) -> FieldView {
    FieldView {
        name: table_name + "."@ + column.column_desc.name,
        data_type: Some(column.column_desc.data_type),
    }
}

/// `fields`, then one qualified field for each added column.
pub open spec fn with_qualified_fields(
    fields: Seq<FieldView>,
    new_columns: Seq<ColumnCatalogView>,
    table_name: Seq<char>,
) -> Seq<FieldView> {
    fields + new_columns.map_values(|column: ColumnCatalogView| qualified_field(table_name, column))
}

/// Appends one field for each new column, named `table.column`.
pub fn extend_pb_fields(fields: &mut Vec<Field>, new_columns: &[ColumnCatalog], table_name: &str)
    ensures
        views(final(fields)@) == with_qualified_fields(
            views(old(fields)@),
            views(new_columns@),
            table_name@,
        ),
{
    let ghost before = fields@;
    let mut i: usize = 0;
    while i < new_columns.len()
        invariant
            i <= new_columns@.len(),
            fields@.len() == before.len() + i,
            forall|j: int| 0 <= j < before.len() ==> fields@[j] == before[j],
            forall|j: int|
                0 <= j < i ==> (#[trigger] fields@[before.len() + j])@ == qualified_field(
                    table_name@,
                    new_columns@[j]@,
                ),
        decreases new_columns@.len() - i,
    {
        let desc = &new_columns[i].column_desc;
        let name = table_name.to_owned().concat(".").concat(desc.name.as_str());
        fields.push(Field { name, data_type: Some(desc.data_type.clone()) });
        i += 1;
    }
    assert(views(fields@) =~= with_qualified_fields(
        views(before),
        views(new_columns@),
        table_name@,
    )) by {
        assert forall|k: int| before.len() <= k < fields@.len() implies views(fields@)[k]
            == qualified_field(table_name@, views(new_columns@)[k - before.len()]) by {
            assert(fields@[before.len() + (k - before.len())]@ == qualified_field(
                table_name@,
                new_columns@[k - before.len()]@,
            ));
        }
    }
}

/// The id of a column whose description is present.
pub open spec fn column_id(column: PbColumnCatalogView) -> int {
    column.column_desc->0.column_id
}

/// The first id above those of all columns; 1 where there is no column.
pub open spec fn next_column_id(columns: Seq<PbColumnCatalogView>) -> int
    decreases columns.len(),
{
    if columns.len() == 0 {
        1
    } else if columns.len() == 1 {
        column_id(columns[0]) + 1
    } else {
        let rest = next_column_id(columns.drop_last());
        let last = column_id(columns.last()) + 1;
        if rest < last {
            last
        } else {
            rest
        }
    }
}

/// An added column under the id and the name that it gets in a sink. A table name, where there is
/// one, is put before the column's own name.
pub open spec fn sink_column(
    column: ColumnCatalogView,
    id: int,
    table_name: Option<Seq<char>>,
) -> PbColumnCatalogView {
    PbColumnCatalogView {
        column_desc: Some(
            ColumnDescView {
                column_id: id,
                name: match table_name {
                    Some(table_name) => table_name + "_"@ + column.column_desc.name,
                    None => column.column_desc.name,
                },
                ..column.column_desc
            },
        ),
        is_hidden: column.is_hidden,
    }
}

/// `columns`, then the added columns under the ids that follow.
pub open spec fn with_sink_columns(
    columns: Seq<PbColumnCatalogView>,
    new_columns: Seq<ColumnCatalogView>,
    table_name: Option<Seq<char>>,
) -> Seq<PbColumnCatalogView> {
    columns + Seq::new(
        new_columns.len(),
        |i: int| sink_column(new_columns[i], next_column_id(columns) + i, table_name),
    )
}

/// Every column has its description, and the ids that follow are in range, `count` of them.
pub open spec fn can_number(columns: Seq<PbColumnCatalogView>, count: nat) -> bool {
    &&& forall|i: int|
        0 <= i < columns.len() ==> (#[trigger] columns[i]).column_desc is Some && column_id(
            columns[i],
        ) < i32::MAX
    &&& count <= i32::MAX + 1
    &&& next_column_id(columns) + count <= i32::MAX + 1
}

/// The first id above those of all columns.
pub(crate) fn first_free_id(columns: &Vec<PbColumnCatalog>) -> (id: i32)
    requires
        can_number(views(columns@), 0),
    ensures
        id == next_column_id(views(columns@)),
{
    let ghost all = views(columns@);
    let mut next: i32 = 1;
    let mut i: usize = 0;
    while i < columns.len()
        invariant
            i <= columns@.len(),
            all == views(columns@),
            can_number(all, 0),
            next == next_column_id(all.take(i as int)),
        decreases columns@.len() - i,
    {
        assert(all[i as int] == columns@[i as int]@);
        let above: i32 = columns[i].column_desc.as_ref().unwrap().column_id + 1;
        proof {
            assert(all.take(i + 1).drop_last() =~= all.take(i as int));
            assert(all.take(i + 1).last() == all[i as int]);
        }
        if i == 0 || next < above {
            next = above;
        }
        i += 1;
    }
    assert(all.take(all.len() as int) =~= all);
    next
}

/// Appends the new columns under fresh ids, each renamed to `table_column` where a table name is
/// given.
pub fn extend_sink_columns(
    sink_columns: &mut Vec<PbColumnCatalog>,
    new_columns: &[ColumnCatalog],
    table_name: Option<&str>,
)
    requires
        can_number(views(old(sink_columns)@), new_columns@.len()),
    ensures
        views(final(sink_columns)@) == with_sink_columns(
            views(old(sink_columns)@),
            views(new_columns@),
            match table_name {
                Some(table_name) => Some(table_name@),
                None => None,
            },
        ),
{
    let ghost before = sink_columns@;
    let ghost prefix: Option<Seq<char>> = match table_name {
        Some(table_name) => Some(table_name@),
        None => None,
    };
    let next_column_id: i32 = first_free_id(sink_columns);
    let mut i: usize = 0;
    while i < new_columns.len()
        invariant
            i <= new_columns@.len(),
            new_columns@.len() <= i32::MAX + 1,
            next_column_id + new_columns@.len() <= i32::MAX + 1,
            prefix == (match table_name {
                Some(table_name) => Some(table_name@),
                None => None,
            }),
            sink_columns@.len() == before.len() + i,
            forall|j: int| 0 <= j < before.len() ==> sink_columns@[j] == before[j],
            forall|j: int|
                0 <= j < i ==> (#[trigger] sink_columns@[before.len() + j])@ == sink_column(
                    new_columns@[j]@,
                    next_column_id + j,
                    prefix,
                ),
        decreases new_columns@.len() - i,
    {
        let mut column = new_columns[i].to_protobuf();
        let mut desc = new_columns[i].column_desc.clone();
        desc.column_id = next_column_id + (i as i32);
        if let Some(table_name) = table_name {
            desc.name = table_name.to_owned().concat("_").concat(desc.name.as_str());
        }
        column.column_desc = Some(desc);
        sink_columns.push(column);
        i += 1;
    }
    assert(views(sink_columns@) =~= with_sink_columns(views(before), views(new_columns@), prefix))
        by {
        assert forall|k: int| before.len() <= k < sink_columns@.len() implies views(
            sink_columns@,
        )[k] == sink_column(
            views(new_columns@)[k - before.len()],
            next_column_id + (k - before.len()),
            prefix,
        ) by {
            assert(sink_columns@[before.len() + (k - before.len())]@ == sink_column(
                new_columns@[k - before.len()]@,
                next_column_id + (k - before.len()),
                prefix,
            ));
        }
    }
}

} // verus!
