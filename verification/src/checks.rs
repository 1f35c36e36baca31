//! Telling beforehand whether a plan can be validated or rewritten, for callers that are not
//! verified themselves.

use vstd::prelude::*;

use crate::catalog::{PbColumnCatalog, Sink};
use crate::change::{OperatorRule, RewriteContext, SinkSchemaChangeSet};
use crate::columns::{can_number, first_free_id};
use crate::laws::law_next_column_id_is_least;
use crate::plan::{NodeBody, NodeBodyView, SinkNode, StreamNode, StreamNodeView};
use crate::rewriter::{
    can_rewrite_plan, can_validate_plan, is_sink_schema, lemma_outcome_error_stays,
    lemma_validated_error_stays, rewritten_inputs_outcome, rewritten_plan, validated_inputs,
    with_rewritten_inputs, PlanRewriter,
};
use crate::rules::sink::{pk_in_range, SinkRule};
use crate::text::views;

verus! {

/// Whether every column has its description, and `count` more can be numbered.
fn check_numbering(columns: &Vec<PbColumnCatalog>, count: usize) -> (result: bool)
    ensures
        result == can_number(views(columns@), count as nat),
{
    let ghost all = views(columns@);
    let mut i: usize = 0;
    while i < columns.len()
        invariant
            i <= columns@.len(),
            all == views(columns@),
            forall|j: int|
                0 <= j < i ==> (#[trigger] all[j]).column_desc is Some
                    && all[j].column_desc->0.column_id < i32::MAX,
        decreases columns@.len() - i,
    {
        assert(all[i as int] == columns@[i as int]@);
        match &columns[i].column_desc {
            Some(desc) => {
                if desc.column_id == i32::MAX {
                    return false;
                }
            },
            None => {
                return false;
            },
        }
        i += 1;
    }
    proof {
        law_next_column_id_is_least(all);
    }
    let next: i32 = first_free_id(columns);
    count <= 0x8000_0000 && next as i64 + count as i64 <= 0x8000_0000
}

/// Whether the downstream key points at columns of the sink that are described.
fn check_pk(sink: &Sink) -> (result: bool)
    ensures
        result == pk_in_range(sink@),
{
    let mut i: usize = 0;
    while i < sink.downstream_pk.len()
        invariant
            i <= sink.downstream_pk@.len(),
            forall|j: int|
                0 <= j < i ==> {
                    let position = #[trigger] sink@.downstream_pk[j] as int;
                    0 <= position < sink@.columns.len()
                        && sink@.columns[position].column_desc is Some
                },
        decreases sink.downstream_pk@.len() - i,
    {
        let position: i32 = sink.downstream_pk[i];
        assert(sink@.downstream_pk[i as int] == position);
        if position < 0 || position as usize >= sink.columns.len() {
            return false;
        }
        assert(sink@.columns[position as int] == sink.columns@[position as int]@);
        if sink.columns[position as usize].column_desc.is_none() {
            return false;
        }
        i += 1;
    }
    true
}

/// Whether the rule of sinks can work on a sink operator with this payload.
fn check_sink(
    sink: &SinkNode,
    change_set: &SinkSchemaChangeSet,
    ctx: &RewriteContext<'_>,
) -> (result: bool)
    ensures
        forall|node: StreamNodeView|
            node.node_body == Some(NodeBodyView::Sink(sink@)) ==> result
                == #[trigger] SinkRule.can_rewrite(node, change_set@, ctx@),
{
    match (change_set, &sink.sink_desc) {
        (SinkSchemaChangeSet::AddColumns(added_columns), Some(desc)) => {
            check_numbering(&desc.column_catalogs, added_columns.len()) && match &sink.table {
                Some(table) => check_numbering(&table.columns, added_columns.len()),
                None => true,
            } && (ctx.sink.sink_type.append_only || check_pk(ctx.sink))
        },
        _ => true,
    }
}

impl PlanRewriter {
    /// Whether [`PlanRewriter::validate_root`] can look at the plan.
    pub fn can_validate(&self, root: &StreamNode) -> (result: bool)
        requires
            is_sink_schema(self.rules()),
        ensures
            result == can_validate_plan(self.rules(), root@),
        decreases *root,
    {
        let ghost rules = self.rules();
        let mut i: usize = 0;
        while i < root.input.len()
            invariant
                i <= root.input@.len(),
                rules == self.rules(),
                is_sink_schema(rules),
                validated_inputs(rules, root@.input, i as nat) is Ok,
                forall|j: int| 0 <= j < i ==> can_validate_plan(rules, #[trigger] root@.input[j]),
                forall|j: int| 0 <= j < i ==> (#[trigger] root@.input[j]).node_body is Some,
            decreases root.input@.len() - i,
        {
            assert(root@.input[i as int] == root.input@[i as int]@);
            if !self.can_validate(&root.input[i]) {
                return false;
            }
            if self.validate_root(&root.input[i]).is_err() {
                proof {
                    assert forall|j: nat| i < j <= root@.input.len() implies validated_inputs(
                        rules,
                        root@.input,
                        j,
                    ) is Err by {
                        lemma_validated_error_stays(rules, root@.input, (i + 1) as nat, j);
                    }
                }
                return true;
            }
            i += 1;
        }
        root.node_body.is_some()
    }

    /// Whether [`PlanRewriter::rewrite_root`] can work on the plan.
    pub fn can_rewrite(
        &self,
        root: &StreamNode,
        change_set: &SinkSchemaChangeSet,
        ctx: &RewriteContext<'_>,
    ) -> (result: bool)
        requires
            is_sink_schema(self.rules()),
        ensures
            result == can_rewrite_plan(self.rules(), root@, change_set@, ctx@),
    {
        self.foresee(root, change_set, ctx).0
    }

    /// Whether the plan can be rewritten and, if so, whether that succeeds.
    fn foresee(
        &self,
        node: &StreamNode,
        change_set: &SinkSchemaChangeSet,
        ctx: &RewriteContext<'_>,
    ) -> (result: (bool, bool))
        requires
            is_sink_schema(self.rules()),
        ensures
            result.0 == can_rewrite_plan(self.rules(), node@, change_set@, ctx@),
            result.0 ==> result.1 == (rewritten_plan(
                self.rules(),
                node@,
                change_set@,
                ctx@,
            ).1 is Ok),
        decreases *node,
    {
        let ghost rules = self.rules();
        let mut i: usize = 0;
        while i < node.input.len()
            invariant
                i <= node.input@.len(),
                rules == self.rules(),
                is_sink_schema(rules),
                rewritten_inputs_outcome(
                    rules,
                    node@.input,
                    i as nat,
                    change_set@,
                    ctx@,
                ) is Ok,
                forall|j: int|
                    0 <= j < i ==> can_rewrite_plan(
                        rules,
                        #[trigger] node@.input[j],
                        change_set@,
                        ctx@,
                    ),
            decreases node.input@.len() - i,
        {
            assert(node@.input[i as int] == node.input@[i as int]@);
            let (can, succeeds) = self.foresee(&node.input[i], change_set, ctx);
            if !can {
                return (false, false);
            }
            if !succeeds {
                proof {
                    assert forall|j: nat| i < j <= node@.input.len() implies
                        rewritten_inputs_outcome(
                        rules,
                        node@.input,
                        j,
                        change_set@,
                        ctx@,
                    ) is Err by {
                        lemma_outcome_error_stays(
                            rules,
                            node@.input,
                            (i + 1) as nat,
                            j,
                            change_set@,
                            ctx@,
                        );
                    }
                }
                return (true, false);
            }
            i += 1;
        }
        proof {
            let reached = with_rewritten_inputs(rules, node@, change_set@, ctx@);
            assert(reached.node_body == node@.node_body);
        }
        let Some(body) = &node.node_body else {
            return (false, false);
        };
        match (body, change_set) {
            (NodeBody::BatchPlan { .. }, _) => (true, true),
            (NodeBody::Sink(sink), SinkSchemaChangeSet::AddColumns(_)) => (
                check_sink(sink, change_set, ctx),
                sink.sink_desc.is_some(),
            ),
            (NodeBody::StreamScan(scan), SinkSchemaChangeSet::AddColumns(_)) => (
                true,
                scan.table_desc.is_some(),
            ),
            (NodeBody::Merge(_), SinkSchemaChangeSet::AddColumns(_)) => (true, true),
            _ => (true, false),
        }
    }
}

} // verus!
