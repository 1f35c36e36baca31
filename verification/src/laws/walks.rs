//! Laws of the walk over a plan, one operator and its inputs at a time.

use vstd::prelude::*;

use crate::change::{OperatorRule, RewriteContextView, SinkSchemaChangeSetView};
use crate::columns::can_number;
use crate::error::RewriteErrorView;
use crate::plan::{NodeBodyView, StreamNodeView};
use crate::rewriter::{
    can_rewrite_plan, can_validate_plan, is_sink_schema, lemma_outcome_error_stays,
    lemma_validated_error_stays, rewritten_inputs_outcome, rewritten_plan, validated_inputs,
    validated_plan, with_rewritten_inputs, Rules,
};
use crate::rules::merge::MergeRule;
use crate::rules::sink::{pk_in_range, SinkRule};
use crate::rules::stream_scan::StreamScanRule;

verus! {

/// The first inputs are rewritten exactly if each of them is.
proof fn lemma_inputs_are_rewritten(
    rules: Rules,
    nodes: Seq<StreamNodeView>,
    count: nat,
    change_set: SinkSchemaChangeSetView,
    ctx: RewriteContextView,
)
    requires
        count <= nodes.len(),
    ensures
        rewritten_inputs_outcome(rules, nodes, count, change_set, ctx) is Ok <==> (forall|j: int|
            0 <= j < count ==> rewritten_plan(rules, #[trigger] nodes[j], change_set, ctx).1 is Ok),
    decreases count,
{
    if count > 0 {
        lemma_inputs_are_rewritten(rules, nodes, (count - 1) as nat, change_set, ctx);
        assert(nodes[count - 1] == nodes[count - 1]);
    }
}

/// The first inputs are valid exactly if each of them is.
proof fn lemma_inputs_are_validated(rules: Rules, nodes: Seq<StreamNodeView>, count: nat)
    requires
        count <= nodes.len(),
    ensures
        validated_inputs(rules, nodes, count) is Ok <==> (forall|j: int|
            0 <= j < count ==> validated_plan(rules, #[trigger] nodes[j]) is Ok),
    decreases count,
{
    if count > 0 {
        lemma_inputs_are_validated(rules, nodes, (count - 1) as nat);
        assert(nodes[count - 1] == nodes[count - 1]);
    }
}

/// Where an input cannot be rewritten and all before it can, its error is the answer. The inputs up
/// to it are as rewriting them makes them; those behind it and the operator itself stay.
pub proof fn law_failed_inputs_stop_rewriting(
    rules: Rules,
    node: StreamNodeView,
    change_set: SinkSchemaChangeSetView,
    ctx: RewriteContextView,
    i: int,
)
    requires
        0 <= i < node.input.len(),
        forall|j: int|
            0 <= j < i ==> rewritten_plan(rules, #[trigger] node.input[j], change_set, ctx).1 is Ok,
        rewritten_plan(rules, node.input[i], change_set, ctx).1 is Err,
    ensures
        ({
            let (after, result) = rewritten_plan(rules, node, change_set, ctx);
            &&& result == rewritten_plan(rules, node.input[i], change_set, ctx).1
            &&& after.input.len() == node.input.len()
            &&& forall|j: int|
                0 <= j <= i ==> #[trigger] after.input[j] == rewritten_plan(
                    rules,
                    node.input[j],
                    change_set,
                    ctx,
                ).0
            &&& forall|j: int|
                i < j < node.input.len() ==> #[trigger] after.input[j] == node.input[j]
            &&& after.identity == node.identity
            &&& after.fields == node.fields
            &&& after.node_body == node.node_body
            &&& after.attributes == node.attributes
        }),
{
    assert forall|j: int| 0 <= j <= node.input.len() implies (#[trigger] rewritten_inputs_outcome(
        rules,
        node.input,
        j as nat,
        change_set,
        ctx,
    ) is Ok <==> j <= i) by {
        lemma_inputs_are_rewritten(rules, node.input, j as nat, change_set, ctx);
        assert(node.input[i] == node.input[i]);
    }
    lemma_outcome_error_stays(
        rules,
        node.input,
        (i + 1) as nat,
        node.input.len(),
        change_set,
        ctx,
    );
    assert(rewritten_inputs_outcome(rules, node.input, i as nat, change_set, ctx) is Ok);
    let after = rewritten_plan(rules, node, change_set, ctx).0;
    assert forall|j: int| 0 <= j < node.input.len() implies #[trigger] after.input[j] == if j <= i {
        rewritten_plan(rules, node.input[j], change_set, ctx).0
    } else {
        node.input[j]
    } by {
        assert(rewritten_inputs_outcome(rules, node.input, j as nat, change_set, ctx) is Ok <==> j
            <= i);
    }
}

/// Where every input can be rewritten, the operator comes next, with its rewritten inputs: it is
/// handed to the rule of its kind, and refused by its kind's name if it is of another kind.
pub proof fn law_operators_come_after_their_inputs(
    rules: Rules,
    node: StreamNodeView,
    reached: StreamNodeView,
    change_set: SinkSchemaChangeSetView,
    ctx: RewriteContextView,
)
    requires
        is_sink_schema(rules),
        forall|j: int|
            0 <= j < node.input.len() ==> rewritten_plan(
                rules,
                #[trigger] node.input[j],
                change_set,
                ctx,
            ).1 is Ok,
        reached.input.len() == node.input.len(),
        forall|j: int|
            0 <= j < node.input.len() ==> #[trigger] reached.input[j] == rewritten_plan(
                rules,
                node.input[j],
                change_set,
                ctx,
            ).0,
        reached.identity == node.identity,
        reached.fields == node.fields,
        reached.node_body == node.node_body,
        reached.attributes == node.attributes,
    ensures
        match node.node_body->0 {
            NodeBodyView::Sink(_) => rewritten_plan(rules, node, change_set, ctx)
                == SinkRule.rewritten(reached, change_set, ctx),
            NodeBodyView::StreamScan(_) => rewritten_plan(rules, node, change_set, ctx)
                == StreamScanRule.rewritten(reached, change_set, ctx),
            NodeBodyView::Merge(_) => rewritten_plan(rules, node, change_set, ctx)
                == MergeRule.rewritten(reached, change_set, ctx),
            NodeBodyView::BatchPlan { .. } => rewritten_plan(rules, node, change_set, ctx) == (
                reached,
                Ok::<(), RewriteErrorView>(()),
            ),
            NodeBodyView::Other { kind, .. } => rewritten_plan(rules, node, change_set, ctx) == (
                reached,
                Err::<(), RewriteErrorView>(RewriteErrorView::UnsupportedOperator { kind }),
            ),
        },
{
    let walked = with_rewritten_inputs(rules, node, change_set, ctx);
    lemma_inputs_are_rewritten(rules, node.input, node.input.len(), change_set, ctx);
    assert forall|j: int| 0 <= j <= node.input.len() implies #[trigger] rewritten_inputs_outcome(
        rules,
        node.input,
        j as nat,
        change_set,
        ctx,
    ) is Ok by {
        lemma_inputs_are_rewritten(rules, node.input, j as nat, change_set, ctx);
    }
    assert(walked.input =~= reached.input) by {
        assert forall|j: int| 0 <= j < node.input.len() implies walked.input[j]
            == reached.input[j] by {
            assert(rewritten_inputs_outcome(rules, node.input, j as nat, change_set, ctx) is Ok);
        }
    }
    assert(walked == reached);
}

/// A plan is rewritten only if each of its inputs is, and then every input has become what
/// rewriting it makes of it, in its place.
pub proof fn law_rewritten_plans_have_rewritten_inputs(
    rules: Rules,
    node: StreamNodeView,
    change_set: SinkSchemaChangeSetView,
    ctx: RewriteContextView,
)
    requires
        is_sink_schema(rules),
        rewritten_plan(rules, node, change_set, ctx).1 is Ok,
    ensures
        ({
            let after = rewritten_plan(rules, node, change_set, ctx).0;
            &&& after.input.len() == node.input.len()
            &&& forall|j: int|
                #![trigger node.input[j]]
                #![trigger after.input[j]]
                0 <= j < node.input.len() ==> {
                    &&& rewritten_plan(rules, node.input[j], change_set, ctx).1 is Ok
                    &&& after.input[j] == rewritten_plan(rules, node.input[j], change_set, ctx).0
                }
            &&& after.attributes == node.attributes
        }),
{
    assert forall|j: int| 0 <= j <= node.input.len() implies #[trigger] rewritten_inputs_outcome(
        rules,
        node.input,
        j as nat,
        change_set,
        ctx,
    ) is Ok by {
        lemma_inputs_are_rewritten(rules, node.input, node.input.len(), change_set, ctx);
        lemma_inputs_are_rewritten(rules, node.input, j as nat, change_set, ctx);
    }
    lemma_inputs_are_rewritten(rules, node.input, node.input.len(), change_set, ctx);
    let after = rewritten_plan(rules, node, change_set, ctx).0;
    assert forall|j: int|
        #![trigger node.input[j]]
        #![trigger after.input[j]]
        0 <= j < node.input.len() implies {
        &&& rewritten_plan(rules, node.input[j], change_set, ctx).1 is Ok
        &&& after.input[j] == rewritten_plan(rules, node.input[j], change_set, ctx).0
    } by {
        assert(rewritten_inputs_outcome(rules, node.input, j as nat, change_set, ctx) is Ok);
    }
}

/// Where an input is not valid and all before it are, its error is the answer.
pub proof fn law_failed_inputs_stop_validation(rules: Rules, node: StreamNodeView, i: int)
    requires
        0 <= i < node.input.len(),
        forall|j: int| 0 <= j < i ==> validated_plan(rules, #[trigger] node.input[j]) is Ok,
        validated_plan(rules, node.input[i]) is Err,
    ensures
        validated_plan(rules, node) == validated_plan(rules, node.input[i]),
{
    lemma_inputs_are_validated(rules, node.input, i as nat);
    lemma_validated_error_stays(
        rules,
        node.input,
        (i + 1) as nat,
        node.input.len(),
    );
}

/// Where every input is valid, the operator is looked at. Sinks, merges and batch plans are valid.
/// A stream scan is if it reads by arrangement backfill from two inputs, a merge and a batch plan,
/// and the first of these that fails is the answer. An operator of another kind is refused by its
/// kind's name.
pub proof fn law_operators_are_validated_after_their_inputs(rules: Rules, node: StreamNodeView)
    requires
        is_sink_schema(rules),
        node.node_body is Some,
        forall|j: int|
            0 <= j < node.input.len() ==> validated_plan(rules, #[trigger] node.input[j]) is Ok,
    ensures
        match node.node_body->0 {
            NodeBodyView::StreamScan(scan) => {
                &&& scan.stream_scan_type is ArrangementBackfill || validated_plan(rules, node)
                    == Err::<(), RewriteErrorView>(
                    RewriteErrorView::UnsupportedScanType {
                        scan_type: scan.stream_scan_type->Other_0,
                    },
                )
                &&& scan.stream_scan_type is ArrangementBackfill ==> {
                    &&& node.input.len() != 2 ==> validated_plan(rules, node) == Err::<
                        (),
                        RewriteErrorView,
                    >(RewriteErrorView::UnsupportedScanShape { inputs: node.input.len() })
                    &&& node.input.len() == 2 && !(node.input[0].node_body->0 is Merge)
                        ==> validated_plan(rules, node) == Err::<(), RewriteErrorView>(
                        RewriteErrorView::FirstInputNotMerge {
                            found: node.input[0].node_body->0.kind(),
                        },
                    )
                    &&& node.input.len() == 2 && node.input[0].node_body->0 is Merge && !(
                    node.input[1].node_body->0 is BatchPlan) ==> validated_plan(rules, node)
                        == Err::<(), RewriteErrorView>(
                        RewriteErrorView::SecondInputNotBatchPlan {
                            found: node.input[1].node_body->0.kind(),
                        },
                    )
                    &&& node.input.len() == 2 && node.input[0].node_body->0 is Merge
                        && node.input[1].node_body->0 is BatchPlan ==> validated_plan(rules, node)
                        is Ok
                }
            },
            NodeBodyView::Other { kind, .. } => validated_plan(rules, node) == Err::<
                (),
                RewriteErrorView,
            >(RewriteErrorView::UnsupportedOperator { kind }),
            _ => validated_plan(rules, node) is Ok,
        },
{
    lemma_inputs_are_validated(rules, node.input, node.input.len());
}

/// A plan can be validated exactly if each input that validation comes to can and, where it comes
/// to the operator itself, that has a body.
pub proof fn law_validation_needs_bodies(rules: Rules, node: StreamNodeView)
    requires
        is_sink_schema(rules),
    ensures
        can_validate_plan(rules, node) <==> {
            &&& forall|i: int|
                #![trigger node.input[i]]
                0 <= i < node.input.len() && (forall|j: int|
                    0 <= j < i ==> validated_plan(rules, #[trigger] node.input[j]) is Ok)
                    ==> can_validate_plan(rules, node.input[i])
            &&& (forall|j: int|
                0 <= j < node.input.len() ==> validated_plan(rules, #[trigger] node.input[j])
                    is Ok) ==> node.node_body is Some
        },
{
    assert forall|i: int|
        #![trigger node.input[i]]
        0 <= i <= node.input.len() implies (validated_inputs(rules, node.input, i as nat) is Ok
        <==> (forall|j: int| 0 <= j < i ==> validated_plan(rules, #[trigger] node.input[j]) is Ok))
    by {
        lemma_inputs_are_validated(rules, node.input, i as nat);
    }
    lemma_inputs_are_validated(rules, node.input, node.input.len());
    if node.input.len() == 2 && validated_inputs(rules, node.input, 2) is Ok {
        lemma_inputs_are_validated(rules, node.input[0].input, node.input[0].input.len());
        lemma_inputs_are_validated(rules, node.input[1].input, node.input[1].input.len());
        lemma_inputs_are_validated(rules, node.input, 1);
        if can_validate_plan(rules, node.input[0]) && can_validate_plan(rules, node.input[1]) {
            assert(validated_plan(rules, node.input[0]) is Ok);
            assert(validated_plan(rules, node.input[1]) is Ok);
            assert(node.input[0].node_body is Some);
            assert(node.input[1].node_body is Some);
        }
    }
}

/// A plan can be rewritten exactly if each input that rewriting comes to can and, where it comes to
/// the operator itself, that has a body. A described sink to which columns are added needs ids for
/// them in its column list and its log store and, unless it only appends, a key that points at
/// described columns.
pub proof fn law_rewriting_needs_bodies_and_ids(
    rules: Rules,
    node: StreamNodeView,
    change_set: SinkSchemaChangeSetView,
    ctx: RewriteContextView,
)
    requires
        is_sink_schema(rules),
    ensures
        can_rewrite_plan(rules, node, change_set, ctx) <==> {
            &&& forall|i: int|
                #![trigger node.input[i]]
                0 <= i < node.input.len() && (forall|j: int|
                    0 <= j < i ==> rewritten_plan(
                        rules,
                        #[trigger] node.input[j],
                        change_set,
                        ctx,
                    ).1 is Ok) ==> can_rewrite_plan(rules, node.input[i], change_set, ctx)
            &&& (forall|j: int|
                0 <= j < node.input.len() ==> rewritten_plan(
                    rules,
                    #[trigger] node.input[j],
                    change_set,
                    ctx,
                ).1 is Ok) ==> match (node.node_body, change_set) {
                (None, _) => false,
                (
                    Some(NodeBodyView::Sink(sink)),
                    SinkSchemaChangeSetView::AddColumns(added_columns),
                ) => sink.sink_desc matches Some(desc) ==> {
                    &&& can_number(desc.column_catalogs, added_columns.len())
                    &&& sink.table matches Some(table) ==> can_number(
                        table.columns,
                        added_columns.len(),
                    )
                    &&& ctx.sink.sink_type.append_only || pk_in_range(ctx.sink)
                },
                _ => true,
            }
        },
{
    assert forall|i: int|
        #![trigger node.input[i]]
        0 <= i <= node.input.len() implies (rewritten_inputs_outcome(
        rules,
        node.input,
        i as nat,
        change_set,
        ctx,
    ) is Ok <==> (forall|j: int|
        0 <= j < i ==> rewritten_plan(rules, #[trigger] node.input[j], change_set, ctx).1 is Ok))
    by {
        lemma_inputs_are_rewritten(rules, node.input, i as nat, change_set, ctx);
    }
    lemma_inputs_are_rewritten(rules, node.input, node.input.len(), change_set, ctx);
    assert(with_rewritten_inputs(rules, node, change_set, ctx).node_body == node.node_body);
}

} // verus!
