//! The rule of sink operators.

use vstd::prelude::*;

use crate::catalog::{
    ColumnCatalogView, PbColumnCatalog, PbColumnCatalogView, Sink, SinkType, SinkTypeView, SinkView,
    TableView,
};
use crate::change::{
    OperatorRule, RewriteContext, RewriteContextView, SinkSchemaChangeSet, SinkSchemaChangeSetView,
};
use crate::columns::{
    can_number, extend_pb_fields, extend_sink_columns, with_qualified_fields, with_sink_columns,
};
use crate::error::{RewriteError, RewriteErrorView};
use crate::plan::{NodeBody, NodeBodyView, SinkDescView, SinkNodeView, StreamNode, StreamNodeView};
use crate::text::{debug_text, join, joined, quote, views};

verus! {

/// How plans show a sink: its type, its columns and, unless it only appends, the quoted names of
/// its downstream key.
pub open spec fn sink_identity_text(
    sink_type: SinkTypeView,
    column_names: Seq<Seq<char>>,
    quoted_pk: Seq<Seq<char>>,
) -> Seq<char> {
    "StreamSink { type: "@ + sink_type.type_str + ", columns: ["@ + joined(column_names, ", "@)
        + "]"@ + (if sink_type.append_only {
        Seq::empty()
    } else {
        ", downstream_pk: ["@ + joined(quoted_pk, ", "@) + "]"@
    }) + " }"@
}

/// The identity of a sink operator, from the names to show.
pub fn sink_identity(
    sink_type: &SinkType,
    column_names: &Vec<String>,
    quoted_pk: &Vec<String>,
) -> (identity: String)
    ensures
        identity@ == sink_identity_text(sink_type@, views(column_names@), views(quoted_pk@)),
{
    proof {
        reveal_strlit(", ");
    }
    let mut identity = "StreamSink { type: ".to_owned();
    identity.append(sink_type.type_str.as_str());
    identity.append(", columns: [");
    identity.append(join(column_names, ", ").as_str());
    identity.append("]");
    if !sink_type.append_only {
        let mut downstream_pk = ", downstream_pk: [".to_owned();
        downstream_pk.append(join(quoted_pk, ", ").as_str());
        downstream_pk.append("]");
        identity.append(downstream_pk.as_str());
    }
    identity.append(" }");
    assert(identity@ =~= sink_identity_text(sink_type@, views(column_names@), views(quoted_pk@)));
    identity
}

/// The names of the columns, as plans show them.
pub open spec fn shown_names(columns: Seq<PbColumnCatalogView>) -> Seq<Seq<char>> {
    columns.map_values(|column: PbColumnCatalogView| column.name_with_hidden())
}

/// The names of the columns, as plans show them.
fn show_names(columns: &Vec<PbColumnCatalog>) -> (names: Vec<String>)
    requires
        forall|i: int| 0 <= i < columns@.len() ==> (#[trigger] columns@[i]).column_desc is Some,
    ensures
        views(names@) == shown_names(views(columns@)),
{
    let mut names: Vec<String> = Vec::new();
    let mut i: usize = 0;
    while i < columns.len()
        invariant
            i <= columns@.len(),
            forall|j: int| 0 <= j < columns@.len() ==> (#[trigger] columns@[j]).column_desc is Some,
            names@.len() == i,
            forall|j: int|
                0 <= j < i ==> (#[trigger] names@[j])@ == columns@[j]@.name_with_hidden(),
        decreases columns@.len() - i,
    {
        names.push(columns[i].name_with_hidden());
        i += 1;
    }
    assert(views(names@) =~= shown_names(views(columns@)));
    names
}

/// The downstream key points at columns of the sink that are described.
pub open spec fn pk_in_range(sink: SinkView) -> bool {
    forall|i: int|
        0 <= i < sink.downstream_pk.len() ==> {
            let position = #[trigger] sink.downstream_pk[i] as int;
            0 <= position < sink.columns.len() && sink.columns[position].column_desc is Some
        }
}

/// The quoted names of the downstream key's columns.
pub open spec fn quoted_pk(sink: SinkView) -> Seq<Seq<char>> {
    sink.downstream_pk.map_values(
        |position: i32| debug_text(sink.columns[position as int].column_desc->0.name),
    )
}

/// The quoted names of the downstream key's columns.
fn quote_pk(sink: &Sink) -> (names: Vec<String>)
    requires
        pk_in_range(sink@),
    ensures
        views(names@) == quoted_pk(sink@),
{
    let mut names: Vec<String> = Vec::new();
    let mut i: usize = 0;
    while i < sink.downstream_pk.len()
        invariant
            i <= sink.downstream_pk@.len(),
            pk_in_range(sink@),
            names@.len() == i,
            forall|j: int| 0 <= j < i ==> (#[trigger] names@[j])@ == quoted_pk(sink@)[j],
        decreases sink.downstream_pk@.len() - i,
    {
        proof {
            let position = sink@.downstream_pk[i as int] as int;
            assert(sink@.columns[position] == sink.columns@[position]@);
        }
        let position: usize = sink.downstream_pk[i] as usize;
        names.push(quote(sink.columns[position].column_desc.as_ref().unwrap().name.as_str()));
        i += 1;
    }
    assert(views(names@) =~= quoted_pk(sink@));
    names
}

/// Sinks take the added columns into their own column list, their output schema and, where they
/// have one, their log store.
pub struct SinkRule;

impl SinkRule {
    /// The sink's payload with the added columns.
    pub open spec fn with_columns(
        sink: SinkNodeView,
        added_columns: Seq<ColumnCatalogView>,
        table_name: Seq<char>,
    ) -> SinkNodeView {
        SinkNodeView {
            sink_desc: Some(
                SinkDescView {
                    column_catalogs: with_sink_columns(
                        sink.sink_desc->0.column_catalogs,
                        added_columns,
                        None,
                    ),
                    ..sink.sink_desc->0
                },
            ),
            table: match sink.table {
                Some(table) => Some(
                    TableView {
                        columns: with_sink_columns(table.columns, added_columns, Some(table_name)),
                        ..table
                    },
                ),
                None => None,
            },
            ..sink
        }
    }

    /// The sink operator with the added columns.
    pub open spec fn with_added(
        node: StreamNodeView,
        sink: SinkNodeView,
        added_columns: Seq<ColumnCatalogView>,
        ctx: RewriteContextView,
    ) -> StreamNodeView {
        let payload = Self::with_columns(sink, added_columns, ctx.upstream_table.name);
        StreamNodeView {
            identity: sink_identity_text(
                ctx.sink.sink_type,
                shown_names(payload.sink_desc->0.column_catalogs),
                quoted_pk(ctx.sink),
            ),
            fields: with_qualified_fields(node.fields, added_columns, ctx.upstream_table.name),
            node_body: Some(NodeBodyView::Sink(payload)),
            ..node
        }
    }
}

impl OperatorRule for SinkRule {
    open spec fn can_validate(&self, node: StreamNodeView) -> bool {
        true
    }

    open spec fn validated(&self, node: StreamNodeView) -> Result<(), RewriteErrorView> {
        Ok(())
    }

    open spec fn can_rewrite(
        &self,
        node: StreamNodeView,
        change_set: SinkSchemaChangeSetView,
        ctx: RewriteContextView,
    ) -> bool {
        match (node.node_body, change_set) {
            (None, _) => false,
            (
                Some(NodeBodyView::Sink(sink)),
                SinkSchemaChangeSetView::AddColumns(added_columns),
            ) => sink.sink_desc is Some ==> {
                &&& can_number(sink.sink_desc->0.column_catalogs, added_columns.len())
                &&& sink.table is Some ==> can_number(sink.table->0.columns, added_columns.len())
                &&& !ctx.sink.sink_type.append_only ==> pk_in_range(ctx.sink)
            },
            _ => true,
        }
    }

    open spec fn rewritten(
        &self,
        node: StreamNodeView,
        change_set: SinkSchemaChangeSetView,
        ctx: RewriteContextView,
    ) -> (StreamNodeView, Result<(), RewriteErrorView>) {
        match (node.node_body->0, change_set) {
            (
                NodeBodyView::Sink(sink),
                SinkSchemaChangeSetView::AddColumns(added_columns),
            ) => if sink.sink_desc is Some {
                (SinkRule::with_added(node, sink, added_columns, ctx), Ok(()))
            } else {
                (node, Err(RewriteErrorView::MissingSinkDesc))
            },
            (NodeBodyView::Sink(_), _) => (node, Err(RewriteErrorView::UnsupportedChange)),
            (body, _) => (
                node,
                Err(RewriteErrorView::UnexpectedNodeBody { expected: "Sink"@, found: body.kind() }),
            ),
        }
    }

    fn validate(&self, node: &StreamNode) -> (result: Result<(), RewriteError>) {
        Ok(())
    }

    fn rewrite(
        &self,
        node: &mut StreamNode,
        change_set: &SinkSchemaChangeSet,
        ctx: &RewriteContext<'_>,
    ) -> (result: Result<(), RewriteError>) {
        match node.node_body.as_mut().unwrap() {
            NodeBody::Sink(sink) => {
                let SinkSchemaChangeSet::AddColumns(added_columns) = change_set else {
                    return Err(RewriteError::UnsupportedChange);
                };
                let Some(sink_desc) = sink.sink_desc.as_mut() else {
                    return Err(RewriteError::MissingSinkDesc);
                };
                extend_sink_columns(
                    &mut sink_desc.column_catalogs,
                    added_columns.as_slice(),
                    None,
                );
                proof {
                    let columns = sink_desc.column_catalogs@;
                    assert forall|i: int| 0 <= i < columns.len() implies (
                    #[trigger] columns[i]).column_desc is Some by {
                        assert(views(columns)[i].column_desc is Some);
                    }
                }
                let column_names = show_names(&sink_desc.column_catalogs);
                let pk = if ctx.sink.sink_type.append_only {
                    Vec::new()
                } else {
                    quote_pk(ctx.sink)
                };
                node.identity = sink_identity(&ctx.sink.sink_type, &column_names, &pk);
                extend_pb_fields(
                    &mut node.fields,
                    added_columns.as_slice(),
                    ctx.upstream_table.name.as_str(),
                );
                if let Some(log_store_table) = &mut sink.table {
                    extend_sink_columns(
                        &mut log_store_table.columns,
                        added_columns.as_slice(),
                        Some(ctx.upstream_table.name.as_str()),
                    );
                }
                Ok(())
            },
            body => {
                Err(
                    RewriteError::UnexpectedNodeBody {
                        expected: "Sink".to_owned(),
                        found: body.kind(),
                    },
                )
            },
        }
    }
}

} // verus!
