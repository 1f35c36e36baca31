//! Laws of views: what a value says is what its fields hold, in full.

use vstd::prelude::*;

use crate::catalog::{
    ColumnCatalog, ColumnDesc, DataType, Field, PbColumnCatalog, Sink, SinkType, Table,
};
use crate::change::{RewriteContext, SinkSchemaChangeSet, SinkSchemaChangeSetView};
use crate::error::{outcome, RewriteError, RewriteErrorView};
use crate::plan::{
    MergeNode, NodeBody, NodeBodyView, SinkDesc, SinkNode, StreamNode, StreamScanNode,
    StreamScanType, StreamScanTypeView, TableDesc,
};
use crate::text::views;

verus! {

/// A sequence's views are as many as its values, each in its value's place.
pub proof fn law_views_keep_places<T: View>(values: Seq<T>)
    ensures
        views(values).len() == values.len(),
        forall|i: int| 0 <= i < values.len() ==> #[trigger] views(values)[i] == values[i]@,
{
}

/// A data type says its whole encoding.
pub proof fn law_data_types_are_whole(data_type: DataType)
    ensures
        data_type@.len() == data_type.encoded@.len(),
        forall|i: int|
            0 <= i < data_type@.len() ==> #[trigger] data_type@[i] == data_type.encoded@[i],
{
}

/// A column description says its id, its whole name, its whole type and all its attributes.
pub proof fn law_column_descs_are_whole(desc: ColumnDesc)
    ensures
        desc@.column_id == desc.column_id,
        desc@.name == desc.name@,
        desc@.data_type == desc.data_type.encoded@,
        desc@.attributes == desc.attributes@,
{
}

/// A catalog column says its description and whether it is hidden, and its message form says the
/// same.
pub proof fn law_columns_are_whole(column: ColumnCatalog)
    ensures
        column@.column_desc == column.column_desc@,
        column@.is_hidden == column.is_hidden,
        column@.to_protobuf().column_desc == Some(column.column_desc@),
        column@.to_protobuf().is_hidden == column.is_hidden,
{
}

/// A message column says its description, if it has one, and whether it is hidden.
pub proof fn law_message_columns_are_whole(column: PbColumnCatalog)
    ensures
        column@.column_desc is Some <==> column.column_desc is Some,
        column.column_desc matches Some(desc) ==> column@.column_desc == Some(desc@),
        column@.is_hidden == column.is_hidden,
{
}

/// A field says its whole name and its whole type, if it has one.
pub proof fn law_fields_are_whole(field: Field)
    ensures
        field@.name == field.name@,
        field@.data_type is Some <==> field.data_type is Some,
        field.data_type matches Some(data_type) ==> field@.data_type == Some(data_type.encoded@),
{
}

/// A table says its whole name, each column in its place, and all its attributes.
pub proof fn law_tables_are_whole(table: Table)
    ensures
        table@.name == table.name@,
        table@.columns.len() == table.columns@.len(),
        forall|i: int|
            0 <= i < table.columns@.len() ==> #[trigger] table@.columns[i] == table.columns@[i]@,
        table@.attributes == table.attributes@,
{
}

/// A sink type says its whole spelling and whether it only appends.
pub proof fn law_sink_types_are_whole(sink_type: SinkType)
    ensures
        sink_type@.type_str == sink_type.type_str@,
        sink_type@.append_only == sink_type.append_only,
{
}

/// A sink says its type, each column in its place, and every position of its key.
pub proof fn law_sinks_are_whole(sink: Sink)
    ensures
        sink@.sink_type == sink.sink_type@,
        sink@.columns.len() == sink.columns@.len(),
        forall|i: int|
            0 <= i < sink.columns@.len() ==> #[trigger] sink@.columns[i] == sink.columns@[i]@,
        sink@.downstream_pk == sink.downstream_pk@,
{
}

/// A sink's description says each column in its place, and all its attributes.
pub proof fn law_sink_descs_are_whole(desc: SinkDesc)
    ensures
        desc@.column_catalogs.len() == desc.column_catalogs@.len(),
        forall|i: int|
            0 <= i < desc.column_catalogs@.len() ==> #[trigger] desc@.column_catalogs[i]
                == desc.column_catalogs@[i]@,
        desc@.attributes == desc.attributes@,
{
}

/// A sink operator says its description and its log store, each if it has one, and all its
/// attributes.
pub proof fn law_sink_nodes_are_whole(sink: SinkNode)
    ensures
        sink@.sink_desc is Some <==> sink.sink_desc is Some,
        sink.sink_desc matches Some(desc) ==> sink@.sink_desc == Some(desc@),
        sink@.table is Some <==> sink.table is Some,
        sink.table matches Some(table) ==> sink@.table == Some(table@),
        sink@.attributes == sink.attributes@,
{
}

/// A table description says each column in its place, every value position, and all its attributes.
pub proof fn law_table_descs_are_whole(desc: TableDesc)
    ensures
        desc@.columns.len() == desc.columns@.len(),
        forall|i: int|
            0 <= i < desc.columns@.len() ==> #[trigger] desc@.columns[i] == desc.columns@[i]@,
        desc@.value_indices == desc.value_indices@,
        desc@.attributes == desc.attributes@,
{
}

/// A stream scan says how it scans, its table, its upstream ids, its output positions, its table's
/// description and all its attributes.
pub proof fn law_stream_scans_are_whole(scan: StreamScanNode)
    ensures
        scan.stream_scan_type is ArrangementBackfill <==> scan@.stream_scan_type
            is ArrangementBackfill,
        scan.stream_scan_type matches StreamScanType::Other(name) ==> scan@.stream_scan_type
            == StreamScanTypeView::Other(name@),
        scan@.arrangement_table is Some <==> scan.arrangement_table is Some,
        scan.arrangement_table matches Some(table) ==> scan@.arrangement_table == Some(table@),
        scan@.upstream_column_ids == scan.upstream_column_ids@,
        scan@.output_indices == scan.output_indices@,
        scan@.table_desc is Some <==> scan.table_desc is Some,
        scan.table_desc matches Some(desc) ==> scan@.table_desc == Some(desc@),
        scan@.attributes == scan.attributes@,
{
}

/// A merge says its upstream fragment and all its attributes.
pub proof fn law_merges_are_whole(merge: MergeNode)
    ensures
        merge@.upstream_fragment_id == merge.upstream_fragment_id,
        merge@.attributes == merge.attributes@,
{
}

/// A payload says its kind and all that is in it.
pub proof fn law_bodies_are_whole(body: NodeBody)
    ensures
        body matches NodeBody::Sink(sink) ==> body@ == NodeBodyView::Sink(sink@),
        body matches NodeBody::StreamScan(scan) ==> body@ == NodeBodyView::StreamScan(scan@),
        body matches NodeBody::Merge(merge) ==> body@ == NodeBodyView::Merge(merge@),
        body matches NodeBody::BatchPlan { attributes } ==> body@ == (NodeBodyView::BatchPlan {
            attributes: attributes@,
        }),
        body matches NodeBody::Other { kind, attributes } ==> body@ == (NodeBodyView::Other {
            kind: kind@,
            attributes: attributes@,
        }),
{
}

/// An operator says its whole identity, each field and each input in its place, its payload, if it
/// has one, and all its attributes.
pub proof fn law_operators_are_whole(node: StreamNode)
    ensures
        node@.identity == node.identity@,
        node@.fields.len() == node.fields@.len(),
        forall|i: int|
            0 <= i < node.fields@.len() ==> #[trigger] node@.fields[i] == node.fields@[i]@,
        node@.input.len() == node.input@.len(),
        forall|i: int|
            0 <= i < node.input@.len() ==> #[trigger] node@.input[i] == node.input@[i]@,
        node@.node_body is Some <==> node.node_body is Some,
        node.node_body matches Some(body) ==> node@.node_body == Some(body@),
        node@.attributes == node.attributes@,
{
}

/// A change says each added column or each dropped name, in its place.
pub proof fn law_changes_are_whole(change_set: SinkSchemaChangeSet)
    ensures
        change_set matches SinkSchemaChangeSet::AddColumns(columns) ==> {
            &&& change_set@ matches SinkSchemaChangeSetView::AddColumns(said)
            &&& said.len() == columns@.len()
            &&& forall|i: int| 0 <= i < columns@.len() ==> #[trigger] said[i] == columns@[i]@
        },
        change_set matches SinkSchemaChangeSet::DropColumns(names) ==> {
            &&& change_set@ matches SinkSchemaChangeSetView::DropColumns(said)
            &&& said.len() == names@.len()
            &&& forall|i: int| 0 <= i < names@.len() ==> #[trigger] said[i] == names@[i]@
        },
{
}

/// A context says its sink, its upstream table and the table's fragment.
pub proof fn law_contexts_are_whole(ctx: RewriteContext<'_>)
    ensures
        ctx@.sink == ctx.sink@,
        ctx@.upstream_table == ctx.upstream_table@,
        ctx@.upstream_table_fragment_id == ctx.upstream_table_fragment_id,
{
}

/// An error says its cause, and what it names in full. A step succeeds by `Ok`, and fails by its
/// own error.
pub proof fn law_errors_are_whole(error: RewriteError)
    ensures
        error matches RewriteError::UnsupportedOperator { kind } ==> error@ == (
        RewriteErrorView::UnsupportedOperator { kind: kind@ }),
        error matches RewriteError::UnexpectedNodeBody { expected, found } ==> error@ == (
        RewriteErrorView::UnexpectedNodeBody { expected: expected@, found: found@ }),
        error is UnsupportedChange ==> error@ is UnsupportedChange,
        error is MissingSinkDesc ==> error@ is MissingSinkDesc,
        error is MissingTableDesc ==> error@ is MissingTableDesc,
        error is NotStreamScan ==> error@ is NotStreamScan,
        error matches RewriteError::UnsupportedScanType { scan_type } ==> error@ == (
        RewriteErrorView::UnsupportedScanType { scan_type: scan_type@ }),
        error matches RewriteError::UnsupportedScanShape { inputs } ==> error@ == (
        RewriteErrorView::UnsupportedScanShape { inputs: inputs as nat }),
        error matches RewriteError::FirstInputNotMerge { found } ==> error@ == (
        RewriteErrorView::FirstInputNotMerge { found: found@ }),
        error matches RewriteError::SecondInputNotBatchPlan { found } ==> error@ == (
        RewriteErrorView::SecondInputNotBatchPlan { found: found@ }),
        outcome(Ok(())) is Ok,
        outcome(Err(error)) == Err::<(), RewriteErrorView>(error@),
{
}

} // verus!
