//! Laws of single operators under a schema change: what each of them has afterwards, in terms of
//! what it had before and of the columns that were added.

use vstd::prelude::*;

use crate::catalog::{ColumnCatalogView, SinkTypeView};
use crate::change::{OperatorRule, RewriteContextView, SinkSchemaChangeSetView};
use crate::columns::can_number;
use crate::error::RewriteErrorView;
use crate::laws::columns::{
    law_keys_are_shown_whole, law_names_are_shown_in_place, law_plain_fields, law_qualified_fields,
    law_sink_columns, law_sink_columns_are_numbered,
};
use crate::plan::{
    MergeNodeView, NodeBodyView, SinkNodeView, StreamNodeView, StreamScanNodeView,
    StreamScanTypeView,
};
use crate::rewriter::{is_sink_schema, rewritten_plan, with_rewritten_inputs, Rules};
use crate::rules::batch_plan::BatchPlanRule;
use crate::rules::merge::MergeRule;
use crate::rules::sink::{pk_in_range, quoted_pk, shown_names, sink_identity_text, SinkRule};
use crate::rules::stream_scan::{field_names, StreamScanRule};
use crate::text::{debug_text, joined};

verus! {

/// A described sink takes the columns, and keeps its inputs, the columns that it had, its log store
/// and all its attributes.
pub proof fn law_sinks_keep_what_they_had(
    node: StreamNodeView,
    sink: SinkNodeView,
    added_columns: Seq<ColumnCatalogView>,
    ctx: RewriteContextView,
)
    requires
        node.node_body == Some(NodeBodyView::Sink(sink)),
        sink.sink_desc is Some,
    ensures
        ({
            let (after, result) = SinkRule.rewritten(
                node,
                SinkSchemaChangeSetView::AddColumns(added_columns),
                ctx,
            );
            let before = sink.sink_desc->0.column_catalogs;
            &&& result is Ok
            &&& after.input == node.input
            &&& after.attributes == node.attributes
            &&& after.node_body matches Some(NodeBodyView::Sink(payload))
            &&& payload.attributes == sink.attributes
            &&& payload.sink_desc matches Some(sink_desc)
            &&& sink_desc.attributes == sink.sink_desc->0.attributes
            &&& sink_desc.column_catalogs.len() == before.len() + added_columns.len()
            &&& forall|j: int|
                0 <= j < before.len() ==> #[trigger] sink_desc.column_catalogs[j] == before[j]
            &&& payload.table is Some <==> sink.table is Some
            &&& sink.table matches Some(store) ==> {
                &&& payload.table->0.name == store.name
                &&& payload.table->0.attributes == store.attributes
                &&& payload.table->0.columns.len() == store.columns.len() + added_columns.len()
                &&& forall|j: int|
                    0 <= j < store.columns.len() ==> #[trigger] payload.table->0.columns[j]
                        == store.columns[j]
            }
        }),
{
    law_sink_columns(sink.sink_desc->0.column_catalogs, added_columns, None);
    if sink.table is Some {
        law_sink_columns(
            sink.table->0.columns,
            added_columns,
            Some(ctx.upstream_table.name),
        );
    }
}

/// Behind the columns that it had, a sink lists each added column with its name, its type, its
/// attributes and its hidden flag. Only the id is new: the next one above those that were there.
pub proof fn law_sinks_list_added_columns(
    node: StreamNodeView,
    sink: SinkNodeView,
    added_columns: Seq<ColumnCatalogView>,
    ctx: RewriteContextView,
    i: int,
)
    requires
        node.node_body == Some(NodeBodyView::Sink(sink)),
        sink.sink_desc is Some,
        0 <= i < added_columns.len(),
    ensures
        ({
            let after = SinkRule.rewritten(
                node,
                SinkSchemaChangeSetView::AddColumns(added_columns),
                ctx,
            ).0;
            let desc = added_columns[i].column_desc;
            let before = sink.sink_desc->0.column_catalogs;
            let listed = after.node_body->0->Sink_0.sink_desc->0.column_catalogs[before.len() + i];
            &&& listed.is_hidden == added_columns[i].is_hidden
            &&& listed.column_desc matches Some(own)
            &&& own.name == desc.name
            &&& own.data_type == desc.data_type
            &&& own.attributes == desc.attributes
            &&& before.len() == 0 ==> own.column_id == 1 + i
            &&& forall|j: int|
                0 <= j < before.len() ==> (#[trigger] before[j]).column_desc->0.column_id + 1 + i
                    <= own.column_id
            &&& before.len() > 0 ==> exists|j: int|
                0 <= j < before.len() && (#[trigger] before[j]).column_desc->0.column_id + 1 + i
                    == own.column_id
        }),
{
    let before = sink.sink_desc->0.column_catalogs;
    law_sink_columns(before, added_columns, None);
    law_sink_columns_are_numbered(before, added_columns, None, i);
    assert(added_columns[i] == added_columns[i]);
}

/// Behind the columns that it had, a log store has each added column, named by the table's name, an
/// underscore and the column's name, character by character, with its type, its attributes and its
/// hidden flag, under the next id above those that were there.
pub proof fn law_log_stores_list_added_columns(
    node: StreamNodeView,
    sink: SinkNodeView,
    added_columns: Seq<ColumnCatalogView>,
    ctx: RewriteContextView,
    i: int,
)
    requires
        node.node_body == Some(NodeBodyView::Sink(sink)),
        sink.sink_desc is Some,
        sink.table is Some,
        0 <= i < added_columns.len(),
    ensures
        ({
            let after = SinkRule.rewritten(
                node,
                SinkSchemaChangeSetView::AddColumns(added_columns),
                ctx,
            ).0;
            let desc = added_columns[i].column_desc;
            let table = ctx.upstream_table.name;
            let before = sink.table->0.columns;
            let stored = after.node_body->0->Sink_0.table->0.columns[before.len() + i];
            &&& stored.is_hidden == added_columns[i].is_hidden
            &&& stored.column_desc matches Some(own)
            &&& own.data_type == desc.data_type
            &&& own.attributes == desc.attributes
            &&& own.name.len() == table.len() + 1 + desc.name.len()
            &&& forall|c: int| 0 <= c < table.len() ==> #[trigger] own.name[c] == table[c]
            &&& own.name[table.len() as int] == '_'
            &&& forall|c: int|
                0 <= c < desc.name.len() ==> own.name[table.len() + 1 + c]
                    == #[trigger] desc.name[c]
            &&& before.len() == 0 ==> own.column_id == 1 + i
            &&& forall|j: int|
                0 <= j < before.len() ==> (#[trigger] before[j]).column_desc->0.column_id + 1 + i
                    <= own.column_id
            &&& before.len() > 0 ==> exists|j: int|
                0 <= j < before.len() && (#[trigger] before[j]).column_desc->0.column_id + 1 + i
                    == own.column_id
        }),
{
    let before = sink.table->0.columns;
    let table = ctx.upstream_table.name;
    law_sink_columns(before, added_columns, Some(table));
    law_sink_columns_are_numbered(before, added_columns, Some(table), i);
    assert(added_columns[i] == added_columns[i]);
}

/// A sink is shown by its type, its columns and, unless it only appends, its key.
pub proof fn law_sink_identities(
    sink_type: SinkTypeView,
    names: Seq<Seq<char>>,
    keys: Seq<Seq<char>>,
)
    ensures
        sink_type.append_only ==> sink_identity_text(sink_type, names, keys)
            == "StreamSink { type: "@ + sink_type.type_str + ", columns: ["@ + joined(names, ", "@)
            + "] }"@,
        !sink_type.append_only ==> sink_identity_text(sink_type, names, keys)
            == "StreamSink { type: "@ + sink_type.type_str + ", columns: ["@ + joined(names, ", "@)
            + "], downstream_pk: ["@ + joined(keys, ", "@) + "] }"@,
{
    reveal_strlit("]");
    reveal_strlit(" }");
    reveal_strlit("] }");
    reveal_strlit(", downstream_pk: [");
    reveal_strlit("], downstream_pk: [");
    assert("] }"@ =~= "]"@ + " }"@);
    assert("], downstream_pk: ["@ =~= "]"@ + ", downstream_pk: ["@);
    if sink_type.append_only {
        assert(sink_identity_text(sink_type, names, keys) =~= "StreamSink { type: "@
            + sink_type.type_str + ", columns: ["@ + joined(names, ", "@) + "] }"@);
    } else {
        assert(sink_identity_text(sink_type, names, keys) =~= "StreamSink { type: "@
            + sink_type.type_str + ", columns: ["@ + joined(names, ", "@)
            + "], downstream_pk: ["@ + joined(keys, ", "@) + "] }"@);
    }
}

/// A sink's identity shows the names of all its columns, those that it had and those that were
/// added, hidden ones with a mark, and, unless the sink only appends, the quoted name of the column
/// at each position of its key.
pub proof fn law_sinks_show_columns_and_key(
    node: StreamNodeView,
    sink: SinkNodeView,
    added_columns: Seq<ColumnCatalogView>,
    ctx: RewriteContextView,
    names: Seq<Seq<char>>,
    keys: Seq<Seq<char>>,
)
    requires
        node.node_body == Some(NodeBodyView::Sink(sink)),
        sink.sink_desc is Some,
        names.len() == sink.sink_desc->0.column_catalogs.len() + added_columns.len(),
        forall|j: int|
            0 <= j < sink.sink_desc->0.column_catalogs.len() ==> #[trigger] names[j] == {
                let column = sink.sink_desc->0.column_catalogs[j];
                if column.is_hidden {
                    column.column_desc->0.name + "(hidden)"@
                } else {
                    column.column_desc->0.name
                }
            },
        forall|i: int|
            0 <= i < added_columns.len() ==> names[sink.sink_desc->0.column_catalogs.len() + i] == {
                let column = #[trigger] added_columns[i];
                if column.is_hidden {
                    column.column_desc.name + "(hidden)"@
                } else {
                    column.column_desc.name
                }
            },
        keys.len() == ctx.sink.downstream_pk.len(),
        forall|i: int|
            0 <= i < ctx.sink.downstream_pk.len() ==> #[trigger] keys[i] == debug_text(
                ctx.sink.columns[ctx.sink.downstream_pk[i] as int].column_desc->0.name,
            ),
    ensures
        ({
            let after = SinkRule.rewritten(
                node,
                SinkSchemaChangeSetView::AddColumns(added_columns),
                ctx,
            ).0;
            let shown = "StreamSink { type: "@ + ctx.sink.sink_type.type_str + ", columns: ["@
                + joined(names, ", "@);
            &&& ctx.sink.sink_type.append_only ==> after.identity == shown + "] }"@
            &&& !ctx.sink.sink_type.append_only ==> after.identity == shown
                + "], downstream_pk: ["@ + joined(keys, ", "@) + "] }"@
        }),
{
    let change_set = SinkSchemaChangeSetView::AddColumns(added_columns);
    let before = sink.sink_desc->0.column_catalogs;
    let after = SinkRule.rewritten(node, change_set, ctx).0;
    let columns = after.node_body->0->Sink_0.sink_desc->0.column_catalogs;
    law_sink_columns(before, added_columns, None);
    law_names_are_shown_in_place(columns, node.fields);
    law_keys_are_shown_whole(ctx.sink);
    assert(shown_names(columns) =~= names) by {
        assert forall|k: int| 0 <= k < names.len() implies shown_names(columns)[k] == names[k] by {
            if k < before.len() {
                assert(columns[k] == before[k]);
            } else {
                let column = added_columns[k - before.len()];
                assert(names[before.len() + (k - before.len())] == names[k]);
                assert(columns[before.len() + (k - before.len())] == columns[k]);
            }
        }
    }
    assert(quoted_pk(ctx.sink) =~= keys);
    law_sink_identities(ctx.sink.sink_type, names, keys);
}

/// Behind the fields that it had, a sink outputs each added column under the table's name, a dot
/// and the column's name, character by character, with the column's type.
pub proof fn law_sinks_output_added_columns(
    node: StreamNodeView,
    sink: SinkNodeView,
    added_columns: Seq<ColumnCatalogView>,
    ctx: RewriteContextView,
    i: int,
)
    requires
        node.node_body == Some(NodeBodyView::Sink(sink)),
        sink.sink_desc is Some,
        0 <= i < added_columns.len(),
    ensures
        ({
            let after = SinkRule.rewritten(
                node,
                SinkSchemaChangeSetView::AddColumns(added_columns),
                ctx,
            ).0;
            let desc = added_columns[i].column_desc;
            let table = ctx.upstream_table.name;
            let field = after.fields[node.fields.len() + i];
            &&& after.fields.len() == node.fields.len() + added_columns.len()
            &&& forall|j: int|
                0 <= j < node.fields.len() ==> #[trigger] after.fields[j] == node.fields[j]
            &&& field.data_type == Some(desc.data_type)
            &&& field.name.len() == table.len() + 1 + desc.name.len()
            &&& forall|c: int| 0 <= c < table.len() ==> #[trigger] field.name[c] == table[c]
            &&& field.name[table.len() as int] == '.'
            &&& forall|c: int|
                0 <= c < desc.name.len() ==> field.name[table.len() + 1 + c]
                    == #[trigger] desc.name[c]
        }),
{
    law_qualified_fields(node.fields, added_columns, ctx.upstream_table.name);
    assert(added_columns[i] == added_columns[i]);
}

/// Behind the fields that it had, a stream scan outputs each added column under the table's name, a
/// dot and the column's name, character by character, with the column's type.
pub proof fn law_scans_output_added_columns(
    node: StreamNodeView,
    scan: StreamScanNodeView,
    added_columns: Seq<ColumnCatalogView>,
    ctx: RewriteContextView,
    i: int,
)
    requires
        node.node_body == Some(NodeBodyView::StreamScan(scan)),
        0 <= i < added_columns.len(),
    ensures
        ({
            let after = StreamScanRule.rewritten(
                node,
                SinkSchemaChangeSetView::AddColumns(added_columns),
                ctx,
            ).0;
            let desc = added_columns[i].column_desc;
            let table = ctx.upstream_table.name;
            let field = after.fields[node.fields.len() + i];
            &&& after.fields.len() == node.fields.len() + added_columns.len()
            &&& forall|j: int|
                0 <= j < node.fields.len() ==> #[trigger] after.fields[j] == node.fields[j]
            &&& field.data_type == Some(desc.data_type)
            &&& field.name.len() == table.len() + 1 + desc.name.len()
            &&& forall|c: int| 0 <= c < table.len() ==> #[trigger] field.name[c] == table[c]
            &&& field.name[table.len() as int] == '.'
            &&& forall|c: int|
                0 <= c < desc.name.len() ==> field.name[table.len() + 1 + c]
                    == #[trigger] desc.name[c]
        }),
{
    law_qualified_fields(node.fields, added_columns, ctx.upstream_table.name);
    assert(added_columns[i] == added_columns[i]);
}

/// A stream scan's identity shows the names of all its output fields, those that it had and those
/// that were added.
pub proof fn law_scans_show_their_fields(
    node: StreamNodeView,
    scan: StreamScanNodeView,
    added_columns: Seq<ColumnCatalogView>,
    ctx: RewriteContextView,
    names: Seq<Seq<char>>,
)
    requires
        node.node_body == Some(NodeBodyView::StreamScan(scan)),
        names.len() == node.fields.len() + added_columns.len(),
        forall|j: int|
            0 <= j < node.fields.len() ==> #[trigger] names[j] == node.fields[j].name,
        forall|i: int|
            0 <= i < added_columns.len() ==> names[node.fields.len() + i]
                == ctx.upstream_table.name + seq!['.'] + (
            #[trigger] added_columns[i]).column_desc.name,
    ensures
        StreamScanRule.rewritten(
            node,
            SinkSchemaChangeSetView::AddColumns(added_columns),
            ctx,
        ).0.identity == "StreamTableScan { table: t, columns: ["@ + joined(names, ", "@) + "] }"@,
{
    let after = StreamScanRule.rewritten(
        node,
        SinkSchemaChangeSetView::AddColumns(added_columns),
        ctx,
    ).0;
    let table = ctx.upstream_table.name;
    law_qualified_fields(node.fields, added_columns, table);
    law_names_are_shown_in_place(Seq::empty(), after.fields);
    assert(field_names(after.fields) =~= names) by {
        assert forall|k: int| 0 <= k < names.len() implies field_names(after.fields)[k]
            == names[k] by {
            if k < node.fields.len() {
                assert(after.fields[k] == node.fields[k]);
            } else {
                let i = k - node.fields.len();
                let own = added_columns[i].column_desc.name;
                let name = after.fields[node.fields.len() + i].name;
                assert(name =~= table + seq!['.'] + own) by {
                    assert forall|c: int| 0 <= c < name.len() implies name[c] == (table + seq!['.']
                        + own)[c] by {
                        if c > table.len() {
                            let d = c - table.len() - 1;
                            assert(name[table.len() + 1 + d] == own[d]);
                        }
                    }
                }
                assert(names[node.fields.len() + i] == name);
            }
        }
    }
}

/// A stream scan keeps its inputs, the way in which it scans and all its attributes, takes the
/// context's table, and reads and outputs what it did before. It succeeds if its table is
/// described, and then keeps what that description had.
pub proof fn law_scans_keep_what_they_had(
    node: StreamNodeView,
    scan: StreamScanNodeView,
    added_columns: Seq<ColumnCatalogView>,
    ctx: RewriteContextView,
)
    requires
        node.node_body == Some(NodeBodyView::StreamScan(scan)),
    ensures
        ({
            let (after, result) = StreamScanRule.rewritten(
                node,
                SinkSchemaChangeSetView::AddColumns(added_columns),
                ctx,
            );
            let ids = scan.upstream_column_ids;
            let positions = scan.output_indices;
            &&& scan.table_desc is Some ==> result is Ok
            &&& scan.table_desc is None ==> result == Err::<(), RewriteErrorView>(
                RewriteErrorView::MissingTableDesc,
            )
            &&& after.input == node.input
            &&& after.attributes == node.attributes
            &&& after.node_body matches Some(NodeBodyView::StreamScan(payload))
            &&& payload.stream_scan_type == scan.stream_scan_type
            &&& payload.attributes == scan.attributes
            &&& payload.arrangement_table == Some(ctx.upstream_table)
            &&& payload.upstream_column_ids.len() == ids.len() + added_columns.len()
            &&& forall|j: int|
                0 <= j < ids.len() ==> #[trigger] payload.upstream_column_ids[j] == ids[j]
            &&& payload.output_indices.len() == positions.len() + added_columns.len()
            &&& forall|j: int|
                0 <= j < positions.len() ==> #[trigger] payload.output_indices[j] == positions[j]
            &&& payload.table_desc is Some <==> scan.table_desc is Some
            &&& scan.table_desc matches Some(before) ==> {
                let described = payload.table_desc->0;
                &&& described.attributes == before.attributes
                &&& described.columns.len() == before.columns.len() + added_columns.len()
                &&& forall|j: int|
                    0 <= j < before.columns.len() ==> #[trigger] described.columns[j]
                        == before.columns[j]
                &&& described.value_indices.len() == before.value_indices.len()
                    + added_columns.len()
                &&& forall|j: int|
                    0 <= j < before.value_indices.len() ==> #[trigger] described.value_indices[j]
                        == before.value_indices[j]
            }
        }),
{
}

/// A stream scan reads each added column by the column's own id, and outputs it by the position of
/// that id. The table's description has the column as it was given, and the column's position among
/// those that are stored.
pub proof fn law_scans_read_added_columns(
    node: StreamNodeView,
    scan: StreamScanNodeView,
    added_columns: Seq<ColumnCatalogView>,
    ctx: RewriteContextView,
    i: int,
)
    requires
        node.node_body == Some(NodeBodyView::StreamScan(scan)),
        0 <= i < added_columns.len(),
    ensures
        ({
            let after = StreamScanRule.rewritten(
                node,
                SinkSchemaChangeSetView::AddColumns(added_columns),
                ctx,
            ).0;
            let payload = after.node_body->0->StreamScan_0;
            let desc = added_columns[i].column_desc;
            let read = scan.upstream_column_ids.len();
            &&& payload.upstream_column_ids[read + i] == desc.column_id as i32
            &&& payload.output_indices[scan.output_indices.len() + i] == (read + i) as u32
            &&& scan.table_desc matches Some(before) ==> {
                let described = payload.table_desc->0;
                let column = described.columns[before.columns.len() + i];
                &&& column.column_id == desc.column_id
                &&& column.name == desc.name
                &&& column.data_type == desc.data_type
                &&& column.attributes == desc.attributes
                &&& described.value_indices[before.value_indices.len() + i] == (
                before.columns.len() + i) as u32
            }
        }),
{
}

/// A merge takes the columns: it reads from the context's fragment, keeps its identity, its inputs
/// and all its attributes, and outputs, behind the fields that it had, each added column under
/// exactly its own name and type.
pub proof fn law_merges_pass_added_columns_on(
    node: StreamNodeView,
    merge: MergeNodeView,
    added_columns: Seq<ColumnCatalogView>,
    ctx: RewriteContextView,
)
    requires
        node.node_body == Some(NodeBodyView::Merge(merge)),
    ensures
        ({
            let (after, result) = MergeRule.rewritten(
                node,
                SinkSchemaChangeSetView::AddColumns(added_columns),
                ctx,
            );
            &&& result is Ok
            &&& after.identity == node.identity
            &&& after.input == node.input
            &&& after.attributes == node.attributes
            &&& after.node_body matches Some(NodeBodyView::Merge(payload))
            &&& payload.upstream_fragment_id == ctx.upstream_table_fragment_id
            &&& payload.attributes == merge.attributes
            &&& after.fields.len() == node.fields.len() + added_columns.len()
            &&& forall|j: int|
                0 <= j < node.fields.len() ==> #[trigger] after.fields[j] == node.fields[j]
            &&& forall|i: int|
                #![trigger added_columns[i]]
                0 <= i < added_columns.len() ==> {
                    let field = after.fields[node.fields.len() + i];
                    &&& field.name == added_columns[i].column_desc.name
                    &&& field.data_type == Some(added_columns[i].column_desc.data_type)
                }
        }),
{
    law_plain_fields(node.fields, added_columns);
}

/// A rule leaves an operator that it refuses as it was, and says why: the operator is of another
/// kind, the change is not an addition of columns, or a sink is not described. Batch plans refuse
/// nothing and stay as they are.
pub proof fn law_refusals_name_their_reason(
    node: StreamNodeView,
    change_set: SinkSchemaChangeSetView,
    ctx: RewriteContextView,
)
    requires
        node.node_body is Some,
    ensures
        ({
            let body = node.node_body->0;
            let found = body.kind();
            &&& !(body is Sink) ==> SinkRule.rewritten(node, change_set, ctx) == (
                node,
                Err::<(), RewriteErrorView>(
                    RewriteErrorView::UnexpectedNodeBody { expected: "Sink"@, found },
                ),
            )
            &&& !(body is StreamScan) ==> StreamScanRule.rewritten(node, change_set, ctx) == (
                node,
                Err::<(), RewriteErrorView>(
                    RewriteErrorView::UnexpectedNodeBody { expected: "StreamScan"@, found },
                ),
            )
            &&& !(body is Merge) ==> MergeRule.rewritten(node, change_set, ctx) == (
                node,
                Err::<(), RewriteErrorView>(
                    RewriteErrorView::UnexpectedNodeBody { expected: "Merge"@, found },
                ),
            )
            &&& change_set is DropColumns ==> {
                let refused = (
                    node,
                    Err::<(), RewriteErrorView>(RewriteErrorView::UnsupportedChange),
                );
                &&& body is Sink ==> SinkRule.rewritten(node, change_set, ctx) == refused
                &&& body is StreamScan ==> StreamScanRule.rewritten(node, change_set, ctx)
                    == refused
                &&& body is Merge ==> MergeRule.rewritten(node, change_set, ctx) == refused
            }
            &&& change_set is AddColumns && body is Sink && body->Sink_0.sink_desc is None
                ==> SinkRule.rewritten(node, change_set, ctx) == (
                node,
                Err::<(), RewriteErrorView>(RewriteErrorView::MissingSinkDesc),
            )
            &&& BatchPlanRule.rewritten(node, change_set, ctx) == (
                node,
                Ok::<(), RewriteErrorView>(()),
            )
        }),
{
}

/// The rule of stream scans accepts a scan by arrangement backfill of a merge and a batch plan, and
/// says of any other operator what is wrong with it first. The other rules accept anything.
pub proof fn law_rules_validate(node: StreamNodeView)
    ensures
        SinkRule.validated(node) is Ok,
        MergeRule.validated(node) is Ok,
        BatchPlanRule.validated(node) is Ok,
        match node.node_body {
            Some(NodeBodyView::StreamScan(scan)) => {
                &&& scan.stream_scan_type matches StreamScanTypeView::Other(scan_type)
                    ==> StreamScanRule.validated(node) == Err::<(), RewriteErrorView>(
                    RewriteErrorView::UnsupportedScanType { scan_type },
                )
                &&& scan.stream_scan_type is ArrangementBackfill && node.input.len() != 2
                    ==> StreamScanRule.validated(node) == Err::<(), RewriteErrorView>(
                    RewriteErrorView::UnsupportedScanShape { inputs: node.input.len() },
                )
                &&& scan.stream_scan_type is ArrangementBackfill && node.input.len() == 2 ==> {
                    let first = node.input[0].node_body->0;
                    let second = node.input[1].node_body->0;
                    &&& !(first is Merge) ==> StreamScanRule.validated(node) == Err::<
                        (),
                        RewriteErrorView,
                    >(RewriteErrorView::FirstInputNotMerge { found: first.kind() })
                    &&& first is Merge && !(second is BatchPlan) ==> StreamScanRule.validated(node)
                        == Err::<(), RewriteErrorView>(
                        RewriteErrorView::SecondInputNotBatchPlan { found: second.kind() },
                    )
                    &&& first is Merge && second is BatchPlan ==> StreamScanRule.validated(node)
                        is Ok
                }
            },
            _ => StreamScanRule.validated(node) == Err::<(), RewriteErrorView>(
                RewriteErrorView::NotStreamScan,
            ),
        },
{
}

/// The rules can look at any operator, but for a stream scan by arrangement backfill whose two
/// inputs have no bodies to look at. They can work on any operator with a body, but for a described sink
/// that has no ids left for the added columns, or a key to show that points at no described column.
pub proof fn law_rules_need_little(
    node: StreamNodeView,
    change_set: SinkSchemaChangeSetView,
    ctx: RewriteContextView,
)
    ensures
        SinkRule.can_validate(node),
        MergeRule.can_validate(node),
        BatchPlanRule.can_validate(node),
        StreamScanRule.can_validate(node) <==> !{
            &&& node.node_body matches Some(NodeBodyView::StreamScan(scan))
            &&& scan.stream_scan_type is ArrangementBackfill
            &&& node.input.len() == 2
            &&& node.input[0].node_body is None || (node.input[0].node_body->0 is Merge
                && node.input[1].node_body is None)
        },
        BatchPlanRule.can_rewrite(node, change_set, ctx),
        MergeRule.can_rewrite(node, change_set, ctx) <==> node.node_body is Some,
        StreamScanRule.can_rewrite(node, change_set, ctx) <==> node.node_body is Some,
        SinkRule.can_rewrite(node, change_set, ctx) <==> {
            &&& node.node_body is Some
            &&& node.node_body->0 is Sink && change_set is AddColumns
                && node.node_body->0->Sink_0.sink_desc is Some ==> {
                let sink = node.node_body->0->Sink_0;
                let count = change_set->AddColumns_0.len();
                &&& can_number(sink.sink_desc->0.column_catalogs, count)
                &&& sink.table matches Some(table) ==> can_number(table.columns, count)
                &&& ctx.sink.sink_type.append_only || pk_in_range(ctx.sink)
            }
        },
{
}

/// In a plan to which columns were added, the field of an added column at a sink or a stream scan
/// has a name that consists of the table's name, a dot and every character of the column's name,
/// and has the column's type. At a merge it has exactly the column's name and type. The fields of
/// before stay in front, and a batch plan outputs what it did.
pub proof fn law_plans_output_added_columns(
    rules: Rules,
    node: StreamNodeView,
    added_columns: Seq<ColumnCatalogView>,
    ctx: RewriteContextView,
    i: int,
)
    requires
        is_sink_schema(rules),
        node.node_body is Some,
        0 <= i < added_columns.len(),
        rewritten_plan(
            rules,
            node,
            SinkSchemaChangeSetView::AddColumns(added_columns),
            ctx,
        ).1 is Ok,
    ensures
        ({
            let after = rewritten_plan(
                rules,
                node,
                SinkSchemaChangeSetView::AddColumns(added_columns),
                ctx,
            ).0;
            let body = node.node_body->0;
            let desc = added_columns[i].column_desc;
            let table = ctx.upstream_table.name;
            let field = after.fields[node.fields.len() + i];
            &&& forall|j: int|
                0 <= j < node.fields.len() ==> #[trigger] after.fields[j] == node.fields[j]
            &&& body is BatchPlan ==> after.fields.len() == node.fields.len()
            &&& !(body is BatchPlan) ==> {
                &&& after.fields.len() == node.fields.len() + added_columns.len()
                &&& field.data_type == Some(desc.data_type)
            }
            &&& body is Merge ==> field.name == desc.name
            &&& body is Sink || body is StreamScan ==> {
                &&& field.name.len() == table.len() + 1 + desc.name.len()
                &&& forall|c: int|
                    0 <= c < table.len() ==> #[trigger] field.name[c] == table[c]
                &&& field.name[table.len() as int] == '.'
                &&& forall|c: int|
                    0 <= c < desc.name.len() ==> field.name[table.len() + 1 + c]
                        == #[trigger] desc.name[c]
            }
        }),
{
    let change_set = SinkSchemaChangeSetView::AddColumns(added_columns);
    let reached = with_rewritten_inputs(rules, node, change_set, ctx);
    assert(reached.fields == node.fields && reached.node_body == node.node_body);
    match node.node_body->0 {
        NodeBodyView::Sink(sink) => {
            law_sinks_output_added_columns(reached, sink, added_columns, ctx, i);
        },
        NodeBodyView::StreamScan(scan) => {
            law_scans_output_added_columns(reached, scan, added_columns, ctx, i);
        },
        NodeBodyView::Merge(merge) => {
            law_merges_pass_added_columns_on(reached, merge, added_columns, ctx);
            assert(added_columns[i] == added_columns[i]);
        },
        _ => {},
    }
}

/// In a plan to which columns were added, a sink's column list holds, behind the columns of before,
/// each added column with its name, its type, its attributes and its hidden flag. In the log store,
/// where there is one, its name is the table's name, an underscore and the whole name.
pub proof fn law_plans_list_added_columns(
    rules: Rules,
    node: StreamNodeView,
    sink: SinkNodeView,
    added_columns: Seq<ColumnCatalogView>,
    ctx: RewriteContextView,
    i: int,
)
    requires
        is_sink_schema(rules),
        node.node_body == Some(NodeBodyView::Sink(sink)),
        0 <= i < added_columns.len(),
        rewritten_plan(
            rules,
            node,
            SinkSchemaChangeSetView::AddColumns(added_columns),
            ctx,
        ).1 is Ok,
    ensures
        ({
            let after = rewritten_plan(
                rules,
                node,
                SinkSchemaChangeSetView::AddColumns(added_columns),
                ctx,
            ).0;
            let desc = added_columns[i].column_desc;
            let table = ctx.upstream_table.name;
            let payload = after.node_body->0->Sink_0;
            let before = sink.sink_desc->0.column_catalogs;
            let listed = payload.sink_desc->0.column_catalogs[before.len() + i];
            &&& payload.sink_desc->0.column_catalogs.len() == before.len() + added_columns.len()
            &&& listed.is_hidden == added_columns[i].is_hidden
            &&& listed.column_desc matches Some(own)
            &&& own.name == desc.name
            &&& own.data_type == desc.data_type
            &&& own.attributes == desc.attributes
            &&& sink.table matches Some(store) ==> {
                let stored = payload.table->0.columns[store.columns.len() + i];
                &&& payload.table->0.columns.len() == store.columns.len() + added_columns.len()
                &&& stored.is_hidden == added_columns[i].is_hidden
                &&& stored.column_desc matches Some(own)
                &&& own.data_type == desc.data_type
                &&& own.attributes == desc.attributes
                &&& own.name.len() == table.len() + 1 + desc.name.len()
                &&& forall|c: int| 0 <= c < table.len() ==> #[trigger] own.name[c] == table[c]
                &&& own.name[table.len() as int] == '_'
                &&& forall|c: int|
                    0 <= c < desc.name.len() ==> own.name[table.len() + 1 + c]
                        == #[trigger] desc.name[c]
            }
        }),
{
    let change_set = SinkSchemaChangeSetView::AddColumns(added_columns);
    let reached = with_rewritten_inputs(rules, node, change_set, ctx);
    assert(reached.node_body == node.node_body);
    law_sinks_keep_what_they_had(reached, sink, added_columns, ctx);
    law_sinks_list_added_columns(reached, sink, added_columns, ctx, i);
    if sink.table is Some {
        law_log_stores_list_added_columns(reached, sink, added_columns, ctx, i);
    }
}

} // verus!
