//! The rule of stream scans.

use vstd::prelude::*;

use crate::catalog::{
    ColumnCatalog, ColumnCatalogView, ColumnDesc, ColumnDescView, Field, FieldView,
};
use crate::change::{
    OperatorRule, RewriteContext, RewriteContextView, SinkSchemaChangeSet, SinkSchemaChangeSetView,
};
use crate::columns::{extend_pb_fields, with_qualified_fields};
use crate::error::{RewriteError, RewriteErrorView};
use crate::plan::{
    NodeBody, NodeBodyView, StreamNode, StreamNodeView, StreamScanNodeView, StreamScanType,
    StreamScanTypeView, TableDescView,
};
use crate::text::{join, joined, views};

verus! {

/// How plans show a stream scan with these output columns.
pub open spec fn scan_identity_text(column_names: Seq<Seq<char>>) -> Seq<char> {
    "StreamTableScan { table: t, columns: ["@ + joined(column_names, ", "@) + "] }"@
}

/// The names of the fields.
pub open spec fn field_names(fields: Seq<FieldView>) -> Seq<Seq<char>> {
    fields.map_values(|field: FieldView| field.name)
}

/// The identity of a stream scan with these output fields.
fn scan_identity(fields: &Vec<Field>) -> (identity: String)
    ensures
        identity@ == scan_identity_text(field_names(views(fields@))),
{
    let mut names: Vec<String> = Vec::new();
    let mut i: usize = 0;
    while i < fields.len()
        invariant
            i <= fields@.len(),
            names@.len() == i,
            forall|j: int| 0 <= j < i ==> (#[trigger] names@[j])@ == fields@[j]@.name,
        decreases fields@.len() - i,
    {
        names.push(fields[i].name.clone());
        i += 1;
    }
    assert(views(names@) =~= field_names(views(fields@)));
    proof {
        reveal_strlit(", ");
    }
    let mut identity = "StreamTableScan { table: t, columns: [".to_owned();
    identity.append(join(&names, ", ").as_str());
    identity.append("] }");
    identity
}

/// `indices`, then the positions from `start` on, `count` of them.
pub open spec fn with_positions(indices: Seq<u32>, start: nat, count: nat) -> Seq<u32> {
    indices + Seq::new(count, |i: int| (i + start) as u32)
}

/// Appends the positions from `start` on, `count` of them.
fn extend_positions(indices: &mut Vec<u32>, start: usize, count: usize)
    requires
        start + count <= usize::MAX,
    ensures
        final(indices)@ == with_positions(old(indices)@, start as nat, count as nat),
{
    let ghost before = indices@;
    let mut i: usize = 0;
    while i < count
        invariant
            i <= count,
            start + count <= usize::MAX,
            indices@ == with_positions(before, start as nat, i as nat),
        decreases count - i,
    {
        indices.push((i + start) as u32);
        i += 1;
        assert(indices@ =~= with_positions(before, start as nat, i as nat));
    }
}

/// `ids`, then the added columns' own ids.
pub open spec fn with_column_ids(ids: Seq<i32>, added_columns: Seq<ColumnCatalogView>) -> Seq<i32> {
    ids + added_columns.map_values(|column: ColumnCatalogView| column.column_desc.column_id as i32)
}

/// Appends the added columns' own ids.
fn extend_column_ids(ids: &mut Vec<i32>, added_columns: &[ColumnCatalog])
    ensures
        final(ids)@ == with_column_ids(old(ids)@, views(added_columns@)),
{
    let ghost before = ids@;
    let mut i: usize = 0;
    while i < added_columns.len()
        invariant
            i <= added_columns@.len(),
            ids@.len() == before.len() + i,
            ids@ =~= with_column_ids(before, views(added_columns@).take(i as int)),
        decreases added_columns@.len() - i,
    {
        ids.push(added_columns[i].column_desc.column_id);
        i += 1;
    }
    assert(views(added_columns@).take(i as int) =~= views(added_columns@));
}

/// `columns`, then the added columns' descriptions.
pub open spec fn with_descs(
    columns: Seq<ColumnDescView>,
    added_columns: Seq<ColumnCatalogView>,
) -> Seq<ColumnDescView> {
    columns + added_columns.map_values(|column: ColumnCatalogView| column.column_desc)
}

/// Appends the added columns' descriptions.
fn extend_descs(columns: &mut Vec<ColumnDesc>, added_columns: &[ColumnCatalog])
    ensures
        final(columns)@.len() == old(columns)@.len() + added_columns@.len(),
        views(final(columns)@) == with_descs(views(old(columns)@), views(added_columns@)),
{
    let ghost before = columns@;
    let mut i: usize = 0;
    while i < added_columns.len()
        invariant
            i <= added_columns@.len(),
            columns@.len() == before.len() + i,
            views(columns@) =~= with_descs(views(before), views(added_columns@).take(i as int)),
        decreases added_columns@.len() - i,
    {
        let ghost previous = columns@;
        columns.push(added_columns[i].column_desc.clone());
        i += 1;
        assert(views(columns@) =~= views(previous).push(views(added_columns@)[i - 1].column_desc));
    }
    assert(views(added_columns@).take(i as int) =~= views(added_columns@));
}

/// Stream scans read the added columns from the upstream and output them.
pub struct StreamScanRule;

impl StreamScanRule {
    /// The scan's payload with the added columns. Where the table is not described, that much
    /// stays absent.
    pub open spec fn with_columns(
        scan: StreamScanNodeView,
        added_columns: Seq<ColumnCatalogView>,
        ctx: RewriteContextView,
    ) -> StreamScanNodeView {
        StreamScanNodeView {
            arrangement_table: Some(ctx.upstream_table),
            output_indices: with_positions(
                scan.output_indices,
                scan.upstream_column_ids.len(),
                added_columns.len(),
            ),
            upstream_column_ids: with_column_ids(scan.upstream_column_ids, added_columns),
            table_desc: match scan.table_desc {
                Some(desc) => Some(
                    TableDescView {
                        value_indices: with_positions(
                            desc.value_indices,
                            desc.columns.len(),
                            added_columns.len(),
                        ),
                        columns: with_descs(desc.columns, added_columns),
                        ..desc
                    },
                ),
                None => None,
            },
            ..scan
        }
    }

    /// The stream scan with the added columns.
    pub open spec fn with_added(
        node: StreamNodeView,
        scan: StreamScanNodeView,
        added_columns: Seq<ColumnCatalogView>,
        ctx: RewriteContextView,
    ) -> StreamNodeView {
        let fields = with_qualified_fields(node.fields, added_columns, ctx.upstream_table.name);
        StreamNodeView {
            identity: scan_identity_text(field_names(fields)),
            fields,
            node_body: Some(
                NodeBodyView::StreamScan(Self::with_columns(scan, added_columns, ctx)),
            ),
            ..node
        }
    }
}

impl OperatorRule for StreamScanRule {
    open spec fn can_validate(&self, node: StreamNodeView) -> bool {
        match node.node_body {
            Some(NodeBodyView::StreamScan(scan)) => {
                scan.stream_scan_type is ArrangementBackfill && node.input.len() == 2 ==> {
                    &&& node.input[0].node_body is Some
                    &&& node.input[0].node_body->0 is Merge ==> node.input[1].node_body is Some
                }
            },
            _ => true,
        }
    }

    open spec fn validated(&self, node: StreamNodeView) -> Result<(), RewriteErrorView> {
        match node.node_body {
            Some(NodeBodyView::StreamScan(scan)) => match scan.stream_scan_type {
                StreamScanTypeView::Other(scan_type) => Err(
                    RewriteErrorView::UnsupportedScanType { scan_type },
                ),
                StreamScanTypeView::ArrangementBackfill => if node.input.len() != 2 {
                    Err(RewriteErrorView::UnsupportedScanShape { inputs: node.input.len() })
                } else if !(node.input[0].node_body->0 is Merge) {
                    Err(
                        RewriteErrorView::FirstInputNotMerge {
                            found: node.input[0].node_body->0.kind(),
                        },
                    )
                } else if !(node.input[1].node_body->0 is BatchPlan) {
                    Err(
                        RewriteErrorView::SecondInputNotBatchPlan {
                            found: node.input[1].node_body->0.kind(),
                        },
                    )
                } else {
                    Ok(())
                },
            },
            _ => Err(RewriteErrorView::NotStreamScan),
        }
    }

    open spec fn can_rewrite(
        &self,
        node: StreamNodeView,
        change_set: SinkSchemaChangeSetView,
        ctx: RewriteContextView,
    ) -> bool {
        node.node_body is Some
    }

    open spec fn rewritten(
        &self,
        node: StreamNodeView,
        change_set: SinkSchemaChangeSetView,
        ctx: RewriteContextView,
    ) -> (StreamNodeView, Result<(), RewriteErrorView>) {
        match (node.node_body->0, change_set) {
            (
                NodeBodyView::StreamScan(scan),
                SinkSchemaChangeSetView::AddColumns(added_columns),
            ) => (
                StreamScanRule::with_added(node, scan, added_columns, ctx),
                if scan.table_desc is Some {
                    Ok(())
                } else {
                    Err(RewriteErrorView::MissingTableDesc)
                },
            ),
            (NodeBodyView::StreamScan(_), _) => (node, Err(RewriteErrorView::UnsupportedChange)),
            (body, _) => (
                node,
                Err(
                    RewriteErrorView::UnexpectedNodeBody {
                        expected: "StreamScan"@,
                        found: body.kind(),
                    },
                ),
            ),
        }
    }

    fn validate(&self, node: &StreamNode) -> (result: Result<(), RewriteError>) {
        let Some(NodeBody::StreamScan(scan)) = &node.node_body else {
            return Err(RewriteError::NotStreamScan);
        };
        if let StreamScanType::Other(scan_type) = &scan.stream_scan_type {
            return Err(RewriteError::UnsupportedScanType { scan_type: scan_type.clone() });
        }
        if node.input.len() != 2 {
            return Err(RewriteError::UnsupportedScanShape { inputs: node.input.len() });
        }
        proof {
            assert(node@.input[0] == node.input@[0]@);
            assert(node@.input[1] == node.input@[1]@);
        }
        match node.input[0].node_body.as_ref().unwrap() {
            NodeBody::Merge(_) => {},
            body => {
                return Err(RewriteError::FirstInputNotMerge { found: body.kind() });
            },
        }
        match node.input[1].node_body.as_ref().unwrap() {
            NodeBody::BatchPlan { .. } => {},
            body => {
                return Err(RewriteError::SecondInputNotBatchPlan { found: body.kind() });
            },
        }
        Ok(())
    }

    fn rewrite(
        &self,
        node: &mut StreamNode,
        change_set: &SinkSchemaChangeSet,
        ctx: &RewriteContext<'_>,
    ) -> (result: Result<(), RewriteError>) {
        match node.node_body.as_mut().unwrap() {
            NodeBody::StreamScan(scan) => {
                let SinkSchemaChangeSet::AddColumns(added_columns) = change_set else {
                    return Err(RewriteError::UnsupportedChange);
                };
                extend_pb_fields(
                    &mut node.fields,
                    added_columns.as_slice(),
                    ctx.upstream_table.name.as_str(),
                );
                node.identity = scan_identity(&node.fields);

                scan.arrangement_table = Some(ctx.upstream_table.clone());
                let upstream_columns: usize = scan.upstream_column_ids.len();
                extend_column_ids(&mut scan.upstream_column_ids, added_columns.as_slice());
                assert(scan.upstream_column_ids.len() == upstream_columns + added_columns.len());
                extend_positions(
                    &mut scan.output_indices,
                    upstream_columns,
                    added_columns.len(),
                );

                let Some(table_desc) = scan.table_desc.as_mut() else {
                    return Err(RewriteError::MissingTableDesc);
                };
                let table_columns: usize = table_desc.columns.len();
                extend_descs(&mut table_desc.columns, added_columns.as_slice());
                assert(table_desc.columns.len() == table_columns + added_columns.len());
                extend_positions(
                    &mut table_desc.value_indices,
                    table_columns,
                    added_columns.len(),
                );
                Ok(())
            },
            body => {
                Err(
                    RewriteError::UnexpectedNodeBody {
                        expected: "StreamScan".to_owned(),
                        found: body.kind(),
                    },
                )
            },
        }
    }
}

} // verus!
