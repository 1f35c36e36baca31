//! The rule of merge operators.

use vstd::prelude::*;

use crate::catalog::{ColumnCatalog, ColumnCatalogView, Field, FieldView};
use crate::change::{
    OperatorRule, RewriteContext, RewriteContextView, SinkSchemaChangeSet, SinkSchemaChangeSetView,
};
use crate::error::{RewriteError, RewriteErrorView};
use crate::plan::{MergeNodeView, NodeBody, NodeBodyView, StreamNode, StreamNodeView};
use crate::text::views;

verus! {

/// The field of an added column, under the column's own name.
pub open spec fn plain_field(column: ColumnCatalogView) -> FieldView {
    FieldView {
        name: column.column_desc.name,
        data_type: Some(column.column_desc.data_type),
    }
}

/// `fields`, then one plain field for each added column.
pub open spec fn with_plain_fields(
    fields: Seq<FieldView>,
    new_columns: Seq<ColumnCatalogView>,
) -> Seq<FieldView> {
    fields + new_columns.map_values(|column: ColumnCatalogView| plain_field(column))
}

/// Appends one field for each new column, under the column's own name.
fn extend_plain_fields(fields: &mut Vec<Field>, new_columns: &[ColumnCatalog])
    ensures
        views(final(fields)@) == with_plain_fields(views(old(fields)@), views(new_columns@)),
{
    let ghost before = fields@;
    let mut i: usize = 0;
    while i < new_columns.len()
        invariant
            i <= new_columns@.len(),
            fields@.len() == before.len() + i,
            forall|j: int| 0 <= j < before.len() ==> fields@[j] == before[j],
            forall|j: int|
                0 <= j < i ==> (#[trigger] fields@[before.len() + j])@ == plain_field(
                    new_columns@[j]@,
                ),
        decreases new_columns@.len() - i,
    {
        let desc = &new_columns[i].column_desc;
        fields.push(Field { name: desc.name.clone(), data_type: Some(desc.data_type.clone()) });
        i += 1;
    }
    assert(views(fields@) =~= with_plain_fields(views(before), views(new_columns@))) by {
        assert forall|k: int| before.len() <= k < fields@.len() implies views(fields@)[k]
            == plain_field(views(new_columns@)[k - before.len()]) by {
            assert(fields@[before.len() + (k - before.len())]@ == plain_field(
                new_columns@[k - before.len()]@,
            ));
        }
    }
}

/// Merges read from the upstream's fragment of after the change, and pass the added columns on.
pub struct MergeRule;

impl MergeRule {
    /// The merge operator with the added columns.
    pub open spec fn with_added(
        node: StreamNodeView,
        merge: MergeNodeView,
        added_columns: Seq<ColumnCatalogView>,
        ctx: RewriteContextView,
    ) -> StreamNodeView {
        StreamNodeView {
            fields: with_plain_fields(node.fields, added_columns),
            node_body: Some(
                NodeBodyView::Merge(
                    MergeNodeView {
                        upstream_fragment_id: ctx.upstream_table_fragment_id,
                        ..merge
                    },
                ),
            ),
            ..node
        }
    }
}

impl OperatorRule for MergeRule {
    open spec fn can_validate(&self, node: StreamNodeView) -> bool {
        true
    }

    open spec fn validated(&self, node: StreamNodeView) -> Result<(), RewriteErrorView> {
        Ok(())
    }

    open spec fn can_rewrite(
        &self,
        node: StreamNodeView,
        change_set: SinkSchemaChangeSetView,
        ctx: RewriteContextView,
    ) -> bool {
        node.node_body is Some
    }

    open spec fn rewritten(
        &self,
        node: StreamNodeView,
        change_set: SinkSchemaChangeSetView,
        ctx: RewriteContextView,
    ) -> (StreamNodeView, Result<(), RewriteErrorView>) {
        match (node.node_body->0, change_set) {
            (
                NodeBodyView::Merge(merge),
                SinkSchemaChangeSetView::AddColumns(added_columns),
            ) => (MergeRule::with_added(node, merge, added_columns, ctx), Ok(())),
            (NodeBodyView::Merge(_), _) => (node, Err(RewriteErrorView::UnsupportedChange)),
            (body, _) => (
                node,
                Err(
                    RewriteErrorView::UnexpectedNodeBody { expected: "Merge"@, found: body.kind() },
                ),
            ),
        }
    }

    fn validate(&self, _node: &StreamNode) -> (result: Result<(), RewriteError>) {
        Ok(())
    }

    fn rewrite(
        &self,
        node: &mut StreamNode,
        change_set: &SinkSchemaChangeSet,
        ctx: &RewriteContext<'_>,
    ) -> (result: Result<(), RewriteError>) {
        match node.node_body.as_mut().unwrap() {
            NodeBody::Merge(merge) => {
                let SinkSchemaChangeSet::AddColumns(added_columns) = change_set else {
                    return Err(RewriteError::UnsupportedChange);
                };
                merge.upstream_fragment_id = ctx.upstream_table_fragment_id;
                extend_plain_fields(&mut node.fields, added_columns.as_slice());
                Ok(())
            },
            body => {
                Err(
                    RewriteError::UnexpectedNodeBody {
                        expected: "Merge".to_owned(),
                        found: body.kind(),
                    },
                )
            },
        }
    }
}

} // verus!
