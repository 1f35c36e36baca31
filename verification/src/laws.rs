//! Laws of plan rewriting, over all plans and changes.

pub mod columns;
pub mod operators;
pub mod texts;
pub mod values;
pub mod walks;

use vstd::prelude::*;

use crate::catalog::{ColumnCatalogView, FieldView, PbColumnCatalogView};
use crate::change::{OperatorRule, RewriteContextView, SinkSchemaChangeSetView};
use crate::columns::{
    can_number, column_id, next_column_id, with_qualified_fields, with_sink_columns,
};
use crate::error::RewriteErrorView;
use crate::plan::{NodeBodyView, SinkNodeView, StreamNodeView, StreamScanNodeView};
use crate::rewriter::{
    can_rewrite_plan, can_validate_plan, is_sink_schema, lemma_outcome_error_stays,
    lemma_validated_error_stays, rewritten_inputs_outcome, rewritten_plan, validated_inputs,
    validated_plan, with_rewritten_inputs, Rules,
};
use crate::rules::merge::{with_plain_fields, MergeRule};
use crate::rules::sink::{pk_in_range, quoted_pk, shown_names, sink_identity_text, SinkRule};
use crate::rules::stream_scan::{field_names, scan_identity_text, StreamScanRule};

verus! {

/// Two operators are of one kind and, if they are stream scans, scan in the same way.
pub open spec fn same_operator(a: Option<NodeBodyView>, b: Option<NodeBodyView>) -> bool {
    match (a, b) {
        (None, None) => true,
        (Some(NodeBodyView::StreamScan(x)), Some(NodeBodyView::StreamScan(y))) => {
            x.stream_scan_type == y.stream_scan_type
        },
        (Some(NodeBodyView::Sink(_)), Some(NodeBodyView::Sink(_))) => true,
        (Some(NodeBodyView::Merge(_)), Some(NodeBodyView::Merge(_))) => true,
        (Some(NodeBodyView::BatchPlan { .. }), Some(NodeBodyView::BatchPlan { .. })) => true,
        (Some(NodeBodyView::Other { kind: x, .. }), Some(NodeBodyView::Other { kind: y, .. })) => {
            x == y
        },
        _ => false,
    }
}

/// Two plans have the same operators in the same places.
pub open spec fn same_shape(a: StreamNodeView, b: StreamNodeView) -> bool
    decreases a,
{
    &&& same_operator(a.node_body, b.node_body)
    &&& a.input.len() == b.input.len()
    &&& forall|i: int| 0 <= i < a.input.len() ==> same_shape(#[trigger] a.input[i], b.input[i])
}

proof fn lemma_same_shape_reflexive(node: StreamNodeView)
    ensures
        same_shape(node, node),
    decreases node,
{
    assert forall|i: int| 0 <= i < node.input.len() implies same_shape(
        #[trigger] node.input[i],
        node.input[i],
    ) by {
        lemma_same_shape_reflexive(node.input[i]);
    }
}

/// Where all inputs are rewritten, each of them is.
proof fn lemma_all_inputs_rewritten(
    rules: Rules,
    nodes: Seq<StreamNodeView>,
    change_set: SinkSchemaChangeSetView,
    ctx: RewriteContextView,
)
    requires
        rewritten_inputs_outcome(rules, nodes, nodes.len(), change_set, ctx) is Ok,
    ensures
        forall|i: int|
            #![trigger nodes[i]]
            0 <= i < nodes.len() ==> rewritten_inputs_outcome(
                rules,
                nodes,
                i as nat,
                change_set,
                ctx,
            ) is Ok && rewritten_plan(rules, nodes[i], change_set, ctx).1 is Ok,
{
    assert forall|i: int|
        #![trigger nodes[i]]
        0 <= i < nodes.len() implies rewritten_inputs_outcome(
        rules,
        nodes,
        i as nat,
        change_set,
        ctx,
    ) is Ok && rewritten_plan(rules, nodes[i], change_set, ctx).1 is Ok by {
        if rewritten_inputs_outcome(rules, nodes, i as nat, change_set, ctx) is Err {
            lemma_outcome_error_stays(rules, nodes, i as nat, nodes.len(), change_set, ctx);
        }
        if rewritten_inputs_outcome(rules, nodes, (i + 1) as nat, change_set, ctx) is Err {
            lemma_outcome_error_stays(rules, nodes, (i + 1) as nat, nodes.len(), change_set, ctx);
        }
    }
}

/// Where all inputs are valid, each of them is.
proof fn lemma_all_inputs_valid(rules: Rules, nodes: Seq<StreamNodeView>)
    requires
        validated_inputs(rules, nodes, nodes.len()) is Ok,
    ensures
        forall|i: int|
            #![trigger nodes[i]]
            0 <= i < nodes.len() ==> validated_inputs(rules, nodes, i as nat) is Ok
                && validated_plan(rules, nodes[i]) is Ok,
{
    assert forall|i: int| #![trigger nodes[i]] 0 <= i < nodes.len() implies validated_inputs(
        rules,
        nodes,
        i as nat,
    ) is Ok && validated_plan(rules, nodes[i]) is Ok by {
        if validated_inputs(rules, nodes, i as nat) is Err {
            lemma_validated_error_stays(rules, nodes, i as nat, nodes.len());
        }
        if validated_inputs(rules, nodes, (i + 1) as nat) is Err {
            lemma_validated_error_stays(rules, nodes, (i + 1) as nat, nodes.len());
        }
    }
}

/// Rewriting keeps every operator in its place: whatever it answers, the plan has the same
/// operators as before.
pub proof fn law_rewriting_keeps_shape(
    rules: Rules,
    node: StreamNodeView,
    change_set: SinkSchemaChangeSetView,
    ctx: RewriteContextView,
)
    requires
        is_sink_schema(rules),
        can_rewrite_plan(rules, node, change_set, ctx),
    ensures
        same_shape(node, rewritten_plan(rules, node, change_set, ctx).0),
    decreases node,
{
    let reached = with_rewritten_inputs(rules, node, change_set, ctx);
    assert forall|i: int| 0 <= i < node.input.len() implies same_shape(
        #[trigger] node.input[i],
        reached.input[i],
    ) by {
        if rewritten_inputs_outcome(rules, node.input, i as nat, change_set, ctx) is Ok {
            law_rewriting_keeps_shape(rules, node.input[i], change_set, ctx);
        } else {
            lemma_same_shape_reflexive(node.input[i]);
        }
    }
}

/// Two payloads agree in all that no schema change is about: a sink's attributes, its description's
/// and its log store's name and attributes, the attributes of a stream scan, of its table's
/// description and of a merge, and all of any other payload.
pub open spec fn same_rest(a: Option<NodeBodyView>, b: Option<NodeBodyView>) -> bool {
    match (a, b) {
        (Some(NodeBodyView::Sink(x)), Some(NodeBodyView::Sink(y))) => {
            &&& x.attributes == y.attributes
            &&& x.sink_desc is Some <==> y.sink_desc is Some
            &&& x.sink_desc is Some ==> x.sink_desc->0.attributes == y.sink_desc->0.attributes
            &&& x.table is Some <==> y.table is Some
            &&& x.table is Some ==> x.table->0.name == y.table->0.name && x.table->0.attributes
                == y.table->0.attributes
        },
        (Some(NodeBodyView::StreamScan(x)), Some(NodeBodyView::StreamScan(y))) => {
            &&& x.attributes == y.attributes
            &&& x.stream_scan_type == y.stream_scan_type
            &&& x.table_desc is Some <==> y.table_desc is Some
            &&& x.table_desc is Some ==> x.table_desc->0.attributes == y.table_desc->0.attributes
        },
        (Some(NodeBodyView::Merge(x)), Some(NodeBodyView::Merge(y))) => {
            x.attributes == y.attributes
        },
        _ => a == b,
    }
}

/// Two plans agree, operator by operator, in all that no schema change is about.
pub open spec fn rest_kept(a: StreamNodeView, b: StreamNodeView) -> bool
    decreases a,
{
    &&& a.attributes == b.attributes
    &&& same_rest(a.node_body, b.node_body)
    &&& a.input.len() == b.input.len()
    &&& forall|i: int| 0 <= i < a.input.len() ==> rest_kept(#[trigger] a.input[i], b.input[i])
}

proof fn lemma_rest_kept_reflexive(node: StreamNodeView)
    ensures
        rest_kept(node, node),
    decreases node,
{
    assert forall|i: int| 0 <= i < node.input.len() implies rest_kept(
        #[trigger] node.input[i],
        node.input[i],
    ) by {
        lemma_rest_kept_reflexive(node.input[i]);
    }
}

/// Rewriting leaves alone what a schema change is not about: whatever it answers, the remaining
/// attributes of every operator and payload are those of before.
pub proof fn law_rewriting_keeps_the_rest(
    rules: Rules,
    node: StreamNodeView,
    change_set: SinkSchemaChangeSetView,
    ctx: RewriteContextView,
)
    requires
        is_sink_schema(rules),
        can_rewrite_plan(rules, node, change_set, ctx),
    ensures
        rest_kept(node, rewritten_plan(rules, node, change_set, ctx).0),
    decreases node,
{
    let reached = with_rewritten_inputs(rules, node, change_set, ctx);
    assert forall|i: int| 0 <= i < node.input.len() implies rest_kept(
        #[trigger] node.input[i],
        reached.input[i],
    ) by {
        if rewritten_inputs_outcome(rules, node.input, i as nat, change_set, ctx) is Ok {
            law_rewriting_keeps_the_rest(rules, node.input[i], change_set, ctx);
        } else {
            lemma_rest_kept_reflexive(node.input[i]);
        }
    }
}

/// Validation looks at a plan's operators only, so plans of one shape are validated alike.
proof fn lemma_same_shape_validated_alike(rules: Rules, a: StreamNodeView, b: StreamNodeView)
    requires
        is_sink_schema(rules),
        same_shape(a, b),
        can_validate_plan(rules, a),
    ensures
        can_validate_plan(rules, b),
        validated_plan(rules, b) == validated_plan(rules, a),
    decreases a,
{
    lemma_same_shape_inputs_validated_alike(rules, a, b, a.input.len());
    assert forall|i: int|
        0 <= i < b.input.len() && validated_inputs(rules, b.input, i as nat) is Ok implies
        can_validate_plan(rules, #[trigger] b.input[i]) by {
        lemma_same_shape_inputs_validated_alike(rules, a, b, i as nat);
        assert(same_shape(a.input[i], b.input[i]));
        lemma_same_shape_validated_alike(rules, a.input[i], b.input[i]);
    }
    if validated_inputs(rules, a.input, a.input.len()) is Ok && a.input.len() == 2 {
        assert(same_shape(a.input[0], b.input[0]));
        assert(same_shape(a.input[1], b.input[1]));
    }
}

proof fn lemma_same_shape_inputs_validated_alike(
    rules: Rules,
    a: StreamNodeView,
    b: StreamNodeView,
    count: nat,
)
    requires
        is_sink_schema(rules),
        same_shape(a, b),
        can_validate_plan(rules, a),
        count <= a.input.len(),
    ensures
        validated_inputs(rules, b.input, count) == validated_inputs(rules, a.input, count),
    decreases a.input, count,
{
    if count > 0 {
        lemma_same_shape_inputs_validated_alike(rules, a, b, (count - 1) as nat);
        if validated_inputs(rules, a.input, (count - 1) as nat) is Ok {
            assert(same_shape(a.input[count - 1], b.input[count - 1]));
            lemma_same_shape_validated_alike(rules, a.input[count - 1], b.input[count - 1]);
        }
    }
}

/// A rewritten plan is as valid as it was before, and refused for the same reason if it was
/// refused.
pub proof fn law_rewriting_keeps_validity(
    rules: Rules,
    node: StreamNodeView,
    change_set: SinkSchemaChangeSetView,
    ctx: RewriteContextView,
)
    requires
        is_sink_schema(rules),
        can_validate_plan(rules, node),
        can_rewrite_plan(rules, node, change_set, ctx),
    ensures
        can_validate_plan(rules, rewritten_plan(rules, node, change_set, ctx).0),
        validated_plan(rules, rewritten_plan(rules, node, change_set, ctx).0) == validated_plan(
            rules,
            node,
        ),
{
    law_rewriting_keeps_shape(rules, node, change_set, ctx);
    lemma_same_shape_validated_alike(
        rules,
        node,
        rewritten_plan(rules, node, change_set, ctx).0,
    );
}

/// The operator is one that the change can be applied to.
pub open spec fn takes_change(body: NodeBodyView, change_set: SinkSchemaChangeSetView) -> bool {
    match body {
        NodeBodyView::Sink(sink) => change_set is AddColumns && sink.sink_desc is Some,
        NodeBodyView::StreamScan(scan) => change_set is AddColumns && scan.table_desc is Some,
        NodeBodyView::Merge(_) => change_set is AddColumns,
        NodeBodyView::BatchPlan { .. } => true,
        NodeBodyView::Other { .. } => false,
    }
}

/// The change can be applied to every operator of the plan.
pub open spec fn all_take_change(node: StreamNodeView, change_set: SinkSchemaChangeSetView) -> bool
    decreases node,
{
    &&& takes_change(node.node_body->0, change_set)
    &&& forall|i: int|
        0 <= i < node.input.len() ==> all_take_change(#[trigger] node.input[i], change_set)
}

/// A plan is rewritten exactly if the change can be applied to every one of its operators: sinks
/// that are described, stream scans whose table is described, merges, all under an addition of
/// columns, and batch plans.
pub proof fn law_rewriting_succeeds(
    rules: Rules,
    node: StreamNodeView,
    change_set: SinkSchemaChangeSetView,
    ctx: RewriteContextView,
)
    requires
        is_sink_schema(rules),
        can_rewrite_plan(rules, node, change_set, ctx),
    ensures
        rewritten_plan(rules, node, change_set, ctx).1 is Ok <==> all_take_change(node, change_set),
    decreases node,
{
    lemma_inputs_rewritten(rules, node, node.input.len(), change_set, ctx);
    if rewritten_inputs_outcome(rules, node.input, node.input.len(), change_set, ctx) is Ok {
        let reached = with_rewritten_inputs(rules, node, change_set, ctx);
        assert(reached.node_body == node.node_body);
    }
}

proof fn lemma_inputs_rewritten(
    rules: Rules,
    node: StreamNodeView,
    count: nat,
    change_set: SinkSchemaChangeSetView,
    ctx: RewriteContextView,
)
    requires
        is_sink_schema(rules),
        can_rewrite_plan(rules, node, change_set, ctx),
        count <= node.input.len(),
    ensures
        rewritten_inputs_outcome(rules, node.input, count, change_set, ctx) is Ok <==> (forall|
            i: int,
        |
            0 <= i < count ==> all_take_change(#[trigger] node.input[i], change_set)),
    decreases node.input, count,
{
    if count > 0 {
        lemma_inputs_rewritten(rules, node, (count - 1) as nat, change_set, ctx);
        if rewritten_inputs_outcome(rules, node.input, (count - 1) as nat, change_set, ctx) is Ok {
            law_rewriting_succeeds(rules, node.input[count - 1], change_set, ctx);
        }
    }
}

/// Nothing but an addition of columns changes a plan.
pub proof fn law_other_changes_do_nothing(
    rules: Rules,
    node: StreamNodeView,
    names: Seq<Seq<char>>,
    ctx: RewriteContextView,
)
    requires
        is_sink_schema(rules),
        can_rewrite_plan(rules, node, SinkSchemaChangeSetView::DropColumns(names), ctx),
    ensures
        rewritten_plan(rules, node, SinkSchemaChangeSetView::DropColumns(names), ctx).0 == node,
    decreases node,
{
    let change_set = SinkSchemaChangeSetView::DropColumns(names);
    let reached = with_rewritten_inputs(rules, node, change_set, ctx);
    assert forall|i: int| 0 <= i < node.input.len() implies reached.input[i] == node.input[i] by {
        if rewritten_inputs_outcome(rules, node.input, i as nat, change_set, ctx) is Ok {
            assert(can_rewrite_plan(rules, node.input[i], change_set, ctx));
            law_other_changes_do_nothing(rules, node.input[i], names, ctx);
        }
    }
    assert(reached.input =~= node.input);
}

/// A plan that validation accepts has a rule for each of its operators.
pub proof fn law_valid_plans_are_supported(
    rules: Rules,
    node: StreamNodeView,
    change_set: SinkSchemaChangeSetView,
    ctx: RewriteContextView,
)
    requires
        is_sink_schema(rules),
        validated_plan(rules, node) is Ok,
        can_rewrite_plan(rules, node, change_set, ctx),
    ensures
        !(rewritten_plan(rules, node, change_set, ctx).1 matches Err(
            RewriteErrorView::UnsupportedOperator { kind },
        )),
    decreases node,
{
    lemma_all_inputs_valid(rules, node.input);
    lemma_inputs_supported(rules, node, node.input.len(), change_set, ctx);
}

proof fn lemma_inputs_supported(
    rules: Rules,
    node: StreamNodeView,
    count: nat,
    change_set: SinkSchemaChangeSetView,
    ctx: RewriteContextView,
)
    requires
        is_sink_schema(rules),
        validated_inputs(rules, node.input, node.input.len()) is Ok,
        can_rewrite_plan(rules, node, change_set, ctx),
        count <= node.input.len(),
    ensures
        !(rewritten_inputs_outcome(rules, node.input, count, change_set, ctx) matches Err(
            RewriteErrorView::UnsupportedOperator { kind },
        )),
    decreases node.input, count,
{
    if count > 0 {
        lemma_inputs_supported(rules, node, (count - 1) as nat, change_set, ctx);
        if rewritten_inputs_outcome(rules, node.input, (count - 1) as nat, change_set, ctx) is Ok {
            lemma_all_inputs_valid(rules, node.input);
            assert(validated_plan(rules, node.input[count - 1]) is Ok);
            law_valid_plans_are_supported(rules, node.input[count - 1], change_set, ctx);
        }
    }
}

/// The operator is of a kind that has a rule. A stream scan reads by arrangement backfill, from a
/// merge and a batch plan.
pub open spec fn accepted(node: StreamNodeView) -> bool {
    match node.node_body->0 {
        NodeBodyView::StreamScan(scan) => {
            &&& scan.stream_scan_type is ArrangementBackfill
            &&& node.input.len() == 2
            &&& node.input[0].node_body->0 is Merge
            &&& node.input[1].node_body->0 is BatchPlan
        },
        body => !(body is Other),
    }
}

/// Every operator of the plan is accepted.
pub open spec fn all_accepted(node: StreamNodeView) -> bool
    decreases node,
{
    &&& accepted(node)
    &&& forall|i: int| 0 <= i < node.input.len() ==> all_accepted(#[trigger] node.input[i])
}

/// A plan is valid exactly if it consists of sinks, merges, batch plans, and stream scans that read
/// by arrangement backfill from a merge and a batch plan.
pub proof fn law_validation_succeeds(rules: Rules, node: StreamNodeView)
    requires
        is_sink_schema(rules),
        can_validate_plan(rules, node),
    ensures
        validated_plan(rules, node) is Ok <==> all_accepted(node),
    decreases node,
{
    lemma_inputs_validated(rules, node, node.input.len());
}

proof fn lemma_inputs_validated(rules: Rules, node: StreamNodeView, count: nat)
    requires
        is_sink_schema(rules),
        can_validate_plan(rules, node),
        count <= node.input.len(),
    ensures
        validated_inputs(rules, node.input, count) is Ok <==> (forall|i: int|
            0 <= i < count ==> all_accepted(#[trigger] node.input[i])),
    decreases node.input, count,
{
    if count > 0 {
        lemma_inputs_validated(rules, node, (count - 1) as nat);
        if validated_inputs(rules, node.input, (count - 1) as nat) is Ok {
            law_validation_succeeds(rules, node.input[count - 1]);
        }
    }
}

/// Adding columns to a valid plan can only fail for want of a description, of a sink or of a
/// scanned table.
pub proof fn law_valid_plans_lack_descriptions_at_most(
    rules: Rules,
    node: StreamNodeView,
    added_columns: Seq<ColumnCatalogView>,
    ctx: RewriteContextView,
)
    requires
        is_sink_schema(rules),
        validated_plan(rules, node) is Ok,
        can_rewrite_plan(rules, node, SinkSchemaChangeSetView::AddColumns(added_columns), ctx),
    ensures
        rewritten_plan(
            rules,
            node,
            SinkSchemaChangeSetView::AddColumns(added_columns),
            ctx,
        ).1 matches Err(error) ==> error is MissingSinkDesc || error is MissingTableDesc,
    decreases node,
{
    lemma_inputs_lack_descriptions_at_most(rules, node, node.input.len(), added_columns, ctx);
}

proof fn lemma_inputs_lack_descriptions_at_most(
    rules: Rules,
    node: StreamNodeView,
    count: nat,
    added_columns: Seq<ColumnCatalogView>,
    ctx: RewriteContextView,
)
    requires
        is_sink_schema(rules),
        validated_inputs(rules, node.input, node.input.len()) is Ok,
        can_rewrite_plan(rules, node, SinkSchemaChangeSetView::AddColumns(added_columns), ctx),
        count <= node.input.len(),
    ensures
        rewritten_inputs_outcome(
            rules,
            node.input,
            count,
            SinkSchemaChangeSetView::AddColumns(added_columns),
            ctx,
        ) matches Err(error) ==> error is MissingSinkDesc || error is MissingTableDesc,
    decreases node.input, count,
{
    if count > 0 {
        lemma_inputs_lack_descriptions_at_most(
            rules,
            node,
            (count - 1) as nat,
            added_columns,
            ctx,
        );
        if rewritten_inputs_outcome(
            rules,
            node.input,
            (count - 1) as nat,
            SinkSchemaChangeSetView::AddColumns(added_columns),
            ctx,
        ) is Ok {
            lemma_all_inputs_valid(rules, node.input);
            law_valid_plans_lack_descriptions_at_most(
                rules,
                node.input[count - 1],
                added_columns,
                ctx,
            );
        }
    }
}

/// What the operator outputs once the columns are added: what it did before, then the added
/// columns, in their order and with their types. Sinks and stream scans qualify the names by the
/// table's, merges do not, and batch plans output what they did.
pub open spec fn extended_fields(
    node: StreamNodeView,
    added_columns: Seq<ColumnCatalogView>,
    table_name: Seq<char>,
) -> Seq<FieldView> {
    match node.node_body->0 {
        NodeBodyView::Sink(_) | NodeBodyView::StreamScan(_) => with_qualified_fields(
            node.fields,
            added_columns,
            table_name,
        ),
        NodeBodyView::Merge(_) => with_plain_fields(node.fields, added_columns),
        _ => node.fields,
    }
}

/// Every operator of `after` outputs what it did in `before`, extended by the added columns.
pub open spec fn schemas_extended(
    before: StreamNodeView,
    after: StreamNodeView,
    added_columns: Seq<ColumnCatalogView>,
    table_name: Seq<char>,
) -> bool
    decreases before,
{
    &&& after.fields == extended_fields(before, added_columns, table_name)
    &&& before.input.len() == after.input.len()
    &&& forall|i: int|
        0 <= i < before.input.len() ==> schemas_extended(
            #[trigger] before.input[i],
            after.input[i],
            added_columns,
            table_name,
        )
}

/// In a plan to which columns were added, every operator but the batch plans outputs the added
/// columns, with their types and in their order, behind what it output before: as `table.column` at
/// sinks and stream scans, and by the column's own name at merges. Batch plans output what they
/// did.
pub proof fn law_schemas_stay_in_step(
    rules: Rules,
    node: StreamNodeView,
    added_columns: Seq<ColumnCatalogView>,
    ctx: RewriteContextView,
)
    requires
        is_sink_schema(rules),
        can_rewrite_plan(rules, node, SinkSchemaChangeSetView::AddColumns(added_columns), ctx),
        rewritten_plan(
            rules,
            node,
            SinkSchemaChangeSetView::AddColumns(added_columns),
            ctx,
        ).1 is Ok,
    ensures
        schemas_extended(
            node,
            rewritten_plan(
                rules,
                node,
                SinkSchemaChangeSetView::AddColumns(added_columns),
                ctx,
            ).0,
            added_columns,
            ctx.upstream_table.name,
        ),
    decreases node,
{
    let change_set = SinkSchemaChangeSetView::AddColumns(added_columns);
    let reached = with_rewritten_inputs(rules, node, change_set, ctx);
    let after = rewritten_plan(rules, node, change_set, ctx).0;
    lemma_all_inputs_rewritten(rules, node.input, change_set, ctx);
    assert(after.input == reached.input);
    assert forall|i: int| 0 <= i < node.input.len() implies schemas_extended(
        #[trigger] node.input[i],
        after.input[i],
        added_columns,
        ctx.upstream_table.name,
    ) by {
        assert(can_rewrite_plan(rules, node.input[i], change_set, ctx));
        law_schemas_stay_in_step(rules, node.input[i], added_columns, ctx);
    }
}

/// The operator refers to the upstream of the context, and shows the columns that it has: a merge
/// reads from the upstream's fragment, a stream scan has the upstream's table and shows its output
/// fields, and a sink shows its columns.
pub open spec fn operator_up_to_date(node: StreamNodeView, ctx: RewriteContextView) -> bool {
    match node.node_body->0 {
        NodeBodyView::Sink(sink) => node.identity == sink_identity_text(
            ctx.sink.sink_type,
            shown_names(sink.sink_desc->0.column_catalogs),
            quoted_pk(ctx.sink),
        ),
        NodeBodyView::StreamScan(scan) => {
            &&& scan.arrangement_table == Some(ctx.upstream_table)
            &&& node.identity == scan_identity_text(field_names(node.fields))
        },
        NodeBodyView::Merge(merge) => {
            merge.upstream_fragment_id == ctx.upstream_table_fragment_id
        },
        _ => true,
    }
}

/// Every operator of the plan is up to date.
pub open spec fn up_to_date(node: StreamNodeView, ctx: RewriteContextView) -> bool
    decreases node,
{
    &&& operator_up_to_date(node, ctx)
    &&& forall|i: int| 0 <= i < node.input.len() ==> up_to_date(#[trigger] node.input[i], ctx)
}

/// In a plan to which columns were added, every operator refers to the upstream of after the change
/// and shows the columns that it has.
pub proof fn law_rewritten_plans_are_up_to_date(
    rules: Rules,
    node: StreamNodeView,
    added_columns: Seq<ColumnCatalogView>,
    ctx: RewriteContextView,
)
    requires
        is_sink_schema(rules),
        can_rewrite_plan(rules, node, SinkSchemaChangeSetView::AddColumns(added_columns), ctx),
        rewritten_plan(
            rules,
            node,
            SinkSchemaChangeSetView::AddColumns(added_columns),
            ctx,
        ).1 is Ok,
    ensures
        up_to_date(
            rewritten_plan(
                rules,
                node,
                SinkSchemaChangeSetView::AddColumns(added_columns),
                ctx,
            ).0,
            ctx,
        ),
    decreases node,
{
    let change_set = SinkSchemaChangeSetView::AddColumns(added_columns);
    let reached = with_rewritten_inputs(rules, node, change_set, ctx);
    let after = rewritten_plan(rules, node, change_set, ctx).0;
    lemma_all_inputs_rewritten(rules, node.input, change_set, ctx);
    assert(after.input == reached.input);
    assert forall|i: int| 0 <= i < after.input.len() implies up_to_date(
        #[trigger] after.input[i],
        ctx,
    ) by {
        assert(can_rewrite_plan(rules, node.input[i], change_set, ctx));
        law_rewritten_plans_are_up_to_date(rules, node.input[i], added_columns, ctx);
    }
}

/// The next id is above every id, and no higher than it has to be.
pub proof fn law_next_column_id_is_least(columns: Seq<PbColumnCatalogView>)
    ensures
        columns.len() == 0 ==> next_column_id(columns) == 1,
        forall|i: int|
            0 <= i < columns.len() ==> column_id(#[trigger] columns[i]) < next_column_id(columns),
        columns.len() > 0 ==> exists|i: int|
            0 <= i < columns.len() && column_id(#[trigger] columns[i]) + 1 == next_column_id(
                columns,
            ),
    decreases columns.len(),
{
    if columns.len() > 1 {
        let rest = columns.drop_last();
        law_next_column_id_is_least(rest);
        assert forall|i: int| 0 <= i < columns.len() implies column_id(#[trigger] columns[i])
            < next_column_id(columns) by {
            if i < rest.len() {
                assert(rest[i] == columns[i]);
            }
        }
        let i = choose|i: int|
            0 <= i < rest.len() && column_id(#[trigger] rest[i]) + 1 == next_column_id(rest);
        assert(rest[i] == columns[i]);
        assert(column_id(columns.last()) == column_id(columns[columns.len() - 1]));
    } else if columns.len() == 1 {
        assert(column_id(columns[0]) + 1 == next_column_id(columns));
    }
}

/// Added columns get fresh ids: each is above the ids of all columns before it, so that no column
/// shares its id with an added one.
pub proof fn law_added_ids_are_fresh(
    columns: Seq<PbColumnCatalogView>,
    added_columns: Seq<ColumnCatalogView>,
    table_name: Option<Seq<char>>,
)
    ensures
        ({
            let after = with_sink_columns(columns, added_columns, table_name);
            forall|i: int, j: int|
                0 <= i < j < after.len() && columns.len() <= j ==> column_id(#[trigger] after[i])
                    < column_id(#[trigger] after[j])
        }),
{
    law_next_column_id_is_least(columns);
    let after = with_sink_columns(columns, added_columns, table_name);
    assert forall|i: int, j: int| 0 <= i < j < after.len() && columns.len() <= j implies column_id(
        #[trigger] after[i],
    ) < column_id(#[trigger] after[j]) by {
        if i < columns.len() {
            assert(after[i] == columns[i]);
        }
    }
}

/// A stream scan outputs the added columns: behind the positions that it output before, it outputs
/// those at which the added columns' ids now stand. So it is with the positions that are stored in
/// a row's value.
pub proof fn law_scan_positions_lead_to_added_columns(
    scan: StreamScanNodeView,
    added_columns: Seq<ColumnCatalogView>,
    ctx: RewriteContextView,
    i: int,
)
    requires
        0 <= i < added_columns.len(),
    ensures
        ({
            let after = StreamScanRule::with_columns(scan, added_columns, ctx);
            scan.upstream_column_ids.len() + added_columns.len() <= u32::MAX + 1
                ==> after.upstream_column_ids[after.output_indices[scan.output_indices.len()
                + i] as int] == added_columns[i].column_desc.column_id as i32
        }),
        scan.table_desc matches Some(before) ==> {
            let after = StreamScanRule::with_columns(scan, added_columns, ctx).table_desc->0;
            before.columns.len() + added_columns.len() <= u32::MAX + 1
                ==> after.columns[after.value_indices[before.value_indices.len() + i] as int]
                == added_columns[i].column_desc
        },
{
}

/// A sink or a merge that cannot be rewritten stays as it was. A stream scan does too, unless all
/// that it lacks is its table's description.
pub proof fn law_refused_operators_stay(
    node: StreamNodeView,
    change_set: SinkSchemaChangeSetView,
    ctx: RewriteContextView,
)
    requires
        node.node_body is Some,
    ensures
        SinkRule.rewritten(node, change_set, ctx).1 is Err ==> SinkRule.rewritten(
            node,
            change_set,
            ctx,
        ).0 == node,
        MergeRule.rewritten(node, change_set, ctx).1 is Err ==> MergeRule.rewritten(
            node,
            change_set,
            ctx,
        ).0 == node,
        StreamScanRule.rewritten(node, change_set, ctx).1 is Err && StreamScanRule.rewritten(
            node,
            change_set,
            ctx,
        ).1 != Err::<(), RewriteErrorView>(RewriteErrorView::MissingTableDesc)
            ==> StreamScanRule.rewritten(node, change_set, ctx).0 == node,
{
}

/// Every operator has a body.
pub open spec fn complete(node: StreamNodeView) -> bool
    decreases node,
{
    &&& node.node_body is Some
    &&& forall|i: int| 0 <= i < node.input.len() ==> complete(#[trigger] node.input[i])
}

/// Any plan whose operators all have a body can be validated.
pub proof fn law_complete_plans_can_be_validated(rules: Rules, node: StreamNodeView)
    requires
        is_sink_schema(rules),
        complete(node),
    ensures
        can_validate_plan(rules, node),
    decreases node,
{
    assert forall|i: int|
        0 <= i < node.input.len() && validated_inputs(rules, node.input, i as nat) is Ok implies
        can_validate_plan(rules, #[trigger] node.input[i]) by {
        law_complete_plans_can_be_validated(rules, node.input[i]);
    }
    if node.input.len() == 2 {
        assert(complete(node.input[0]));
        assert(complete(node.input[1]));
    }
}

/// Every operator has a body. Where columns are added, each sink that is described can number them,
/// in its own column list and in its log store, and, unless the sink only appends, its key points at
/// columns that are described.
pub open spec fn ready(
    node: StreamNodeView,
    change_set: SinkSchemaChangeSetView,
    ctx: RewriteContextView,
) -> bool
    decreases node,
{
    &&& match (node.node_body, change_set) {
        (None, _) => false,
        (
            Some(NodeBodyView::Sink(sink)),
            SinkSchemaChangeSetView::AddColumns(added_columns),
        ) => sink.sink_desc matches Some(desc) ==> {
            &&& can_number(desc.column_catalogs, added_columns.len())
            &&& sink.table matches Some(table) ==> can_number(table.columns, added_columns.len())
            &&& !ctx.sink.sink_type.append_only ==> pk_in_range(ctx.sink)
        },
        _ => true,
    }
    &&& forall|i: int|
        0 <= i < node.input.len() ==> ready(#[trigger] node.input[i], change_set, ctx)
}

/// Any plan that is ready for the change can be rewritten.
pub proof fn law_ready_plans_can_be_rewritten(
    rules: Rules,
    node: StreamNodeView,
    change_set: SinkSchemaChangeSetView,
    ctx: RewriteContextView,
)
    requires
        is_sink_schema(rules),
        ready(node, change_set, ctx),
    ensures
        can_rewrite_plan(rules, node, change_set, ctx),
    decreases node,
{
    assert forall|i: int|
        0 <= i < node.input.len() && rewritten_inputs_outcome(
            rules,
            node.input,
            i as nat,
            change_set,
            ctx,
        ) is Ok implies can_rewrite_plan(rules, #[trigger] node.input[i], change_set, ctx) by {
        law_ready_plans_can_be_rewritten(rules, node.input[i], change_set, ctx);
    }
}

/// Adding columns moves the next id on by their number.
proof fn lemma_next_id_after_adding(
    columns: Seq<PbColumnCatalogView>,
    added_columns: Seq<ColumnCatalogView>,
    table_name: Option<Seq<char>>,
)
    ensures
        next_column_id(with_sink_columns(columns, added_columns, table_name)) == next_column_id(
            columns,
        ) + added_columns.len(),
{
    let after = with_sink_columns(columns, added_columns, table_name);
    if added_columns.len() == 0 {
        assert(after =~= columns);
    } else {
        law_next_column_id_is_least(after);
        law_added_ids_are_fresh(columns, added_columns, table_name);
        let last = after.len() - 1;
        assert(column_id(after[last]) == next_column_id(columns) + added_columns.len() - 1);
    }
}

proof fn lemma_sink_columns_accumulate(
    columns: Seq<PbColumnCatalogView>,
    first: Seq<ColumnCatalogView>,
    second: Seq<ColumnCatalogView>,
    table_name: Option<Seq<char>>,
)
    ensures
        with_sink_columns(with_sink_columns(columns, first, table_name), second, table_name)
            == with_sink_columns(columns, first + second, table_name),
{
    lemma_next_id_after_adding(columns, first, table_name);
    assert(with_sink_columns(with_sink_columns(columns, first, table_name), second, table_name)
        =~= with_sink_columns(columns, first + second, table_name));
}

proof fn lemma_sink_accumulates(
    sink: SinkNodeView,
    first: Seq<ColumnCatalogView>,
    second: Seq<ColumnCatalogView>,
    table_name: Seq<char>,
)
    ensures
        SinkRule::with_columns(
            SinkRule::with_columns(sink, first, table_name),
            second,
            table_name,
        ) == SinkRule::with_columns(sink, first + second, table_name),
{
    lemma_sink_columns_accumulate(sink.sink_desc->0.column_catalogs, first, second, None);
    if sink.table is Some {
        lemma_sink_columns_accumulate(sink.table->0.columns, first, second, Some(table_name));
    }
}

proof fn lemma_scan_accumulates(
    scan: StreamScanNodeView,
    first: Seq<ColumnCatalogView>,
    second: Seq<ColumnCatalogView>,
    ctx_first: RewriteContextView,
    ctx: RewriteContextView,
)
    ensures
        StreamScanRule::with_columns(
            StreamScanRule::with_columns(scan, first, ctx_first),
            second,
            ctx,
        ) == StreamScanRule::with_columns(scan, first + second, ctx),
{
    let middle = StreamScanRule::with_columns(scan, first, ctx_first);
    let twice = StreamScanRule::with_columns(middle, second, ctx);
    let once = StreamScanRule::with_columns(scan, first + second, ctx);
    assert(twice.output_indices =~= once.output_indices);
    assert(twice.upstream_column_ids =~= once.upstream_column_ids);
    if scan.table_desc is Some {
        assert(twice.table_desc->0.columns =~= once.table_desc->0.columns);
        assert(twice.table_desc->0.value_indices =~= once.table_desc->0.value_indices);
    }
}

/// Columns can be added in one step or in two: adding some and then others makes the same plan as
/// adding them all at once, with the context of the later step, as long as the upstream table
/// keeps its name.
#[verifier::spinoff_prover]
#[verifier::rlimit(40)]
pub proof fn law_additions_accumulate(
    rules: Rules,
    node: StreamNodeView,
    first: Seq<ColumnCatalogView>,
    second: Seq<ColumnCatalogView>,
    ctx_first: RewriteContextView,
    ctx: RewriteContextView,
)
    requires
        is_sink_schema(rules),
        ctx_first.upstream_table.name == ctx.upstream_table.name,
        can_rewrite_plan(rules, node, SinkSchemaChangeSetView::AddColumns(first), ctx_first),
        rewritten_plan(
            rules,
            node,
            SinkSchemaChangeSetView::AddColumns(first),
            ctx_first,
        ).1 is Ok,
    ensures
        rewritten_plan(
            rules,
            rewritten_plan(
                rules,
                node,
                SinkSchemaChangeSetView::AddColumns(first),
                ctx_first,
            ).0,
            SinkSchemaChangeSetView::AddColumns(second),
            ctx,
        ) == rewritten_plan(
            rules,
            node,
            SinkSchemaChangeSetView::AddColumns(first + second),
            ctx,
        ),
        rewritten_plan(
            rules,
            node,
            SinkSchemaChangeSetView::AddColumns(first + second),
            ctx,
        ).1 is Ok,
    decreases node,
{
    let add_first = SinkSchemaChangeSetView::AddColumns(first);
    let add_second = SinkSchemaChangeSetView::AddColumns(second);
    let add_both = SinkSchemaChangeSetView::AddColumns(first + second);
    let middle = rewritten_plan(rules, node, add_first, ctx_first).0;
    lemma_all_inputs_rewritten(rules, node.input, add_first, ctx_first);
    assert(middle.input == with_rewritten_inputs(rules, node, add_first, ctx_first).input);
    assert forall|i: int| 0 <= i < node.input.len() implies rewritten_plan(
        rules,
        #[trigger] middle.input[i],
        add_second,
        ctx,
    ) == rewritten_plan(rules, node.input[i], add_both, ctx) && rewritten_plan(
        rules,
        node.input[i],
        add_both,
        ctx,
    ).1 is Ok by {
        assert(can_rewrite_plan(rules, node.input[i], add_first, ctx_first));
        law_additions_accumulate(rules, node.input[i], first, second, ctx_first, ctx);
    }
    assert forall|i: int| 0 <= i < node.input.len() implies rewritten_plan(
        rules,
        #[trigger] node.input[i],
        add_both,
        ctx,
    ).1 is Ok by {
        assert(rewritten_plan(rules, middle.input[i], add_second, ctx).1 is Ok);
    }
    lemma_inputs_rewritten_if_each_is(rules, middle.input, add_second, ctx);
    lemma_inputs_rewritten_if_each_is(rules, node.input, add_both, ctx);
    let twice = with_rewritten_inputs(rules, middle, add_second, ctx);
    let once = with_rewritten_inputs(rules, node, add_both, ctx);
    assert(twice.input =~= once.input) by {
        assert forall|i: int| 0 <= i < node.input.len() implies twice.input[i] == once.input[i] by {
            assert(middle.input[i] == middle.input[i]);
            assert(node.input[i] == node.input[i]);
        }
    }
    match node.node_body->0 {
        NodeBodyView::Sink(sink) => {
            lemma_sink_accumulates(sink, first, second, ctx.upstream_table.name);
        },
        NodeBodyView::StreamScan(scan) => {
            lemma_scan_accumulates(scan, first, second, ctx_first, ctx);
        },
        _ => {},
    }
    let name = ctx.upstream_table.name;
    assert(with_qualified_fields(with_qualified_fields(node.fields, first, name), second, name)
        =~= with_qualified_fields(node.fields, first + second, name));
    assert(with_plain_fields(with_plain_fields(node.fields, first), second) =~= with_plain_fields(
        node.fields,
        first + second,
    ));
}

/// Where each input is rewritten, all of them are.
proof fn lemma_inputs_rewritten_if_each_is(
    rules: Rules,
    nodes: Seq<StreamNodeView>,
    change_set: SinkSchemaChangeSetView,
    ctx: RewriteContextView,
)
    requires
        forall|i: int|
            0 <= i < nodes.len() ==> rewritten_plan(
                rules,
                #[trigger] nodes[i],
                change_set,
                ctx,
            ).1 is Ok,
    ensures
        rewritten_inputs_outcome(rules, nodes, nodes.len(), change_set, ctx) is Ok,
        forall|i: int|
            #![trigger nodes[i]]
            0 <= i < nodes.len() ==> rewritten_inputs_outcome(
                rules,
                nodes,
                i as nat,
                change_set,
                ctx,
            ) is Ok,
{
    lemma_first_inputs_rewritten_if_each_is(rules, nodes, nodes.len(), change_set, ctx);
    lemma_all_inputs_rewritten(rules, nodes, change_set, ctx);
}

proof fn lemma_first_inputs_rewritten_if_each_is(
    rules: Rules,
    nodes: Seq<StreamNodeView>,
    count: nat,
    change_set: SinkSchemaChangeSetView,
    ctx: RewriteContextView,
)
    requires
        count <= nodes.len(),
        forall|i: int|
            0 <= i < nodes.len() ==> rewritten_plan(
                rules,
                #[trigger] nodes[i],
                change_set,
                ctx,
            ).1 is Ok,
    ensures
        rewritten_inputs_outcome(rules, nodes, count, change_set, ctx) is Ok,
    decreases count,
{
    if count > 0 {
        lemma_first_inputs_rewritten_if_each_is(
            rules,
            nodes,
            (count - 1) as nat,
            change_set,
            ctx,
        );
        assert(rewritten_plan(rules, nodes[count - 1], change_set, ctx).1 is Ok);
    }
}

} // verus!
