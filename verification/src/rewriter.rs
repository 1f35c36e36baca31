//! Walking a plan and applying the rule of each operator.

use vstd::hash_map::StringHashMap;
use vstd::prelude::*;

use crate::change::{
    OperatorRule, RewriteContext, RewriteContextView, SinkSchemaChangeSet, SinkSchemaChangeSetView,
};
use crate::error::{outcome, RewriteError, RewriteErrorView};
use crate::plan::{NodeBody, NodeBodyView, StreamNode, StreamNodeView};
use crate::rules::batch_plan::BatchPlanRule;
use crate::rules::merge::MergeRule;
use crate::rules::sink::SinkRule;
use crate::rules::stream_scan::StreamScanRule;

verus! {

/// A rule of any type.
pub struct AnyRule {
    pub rule: Box<dyn OperatorRule>,
}

/// The rules by the name of the kind that each handles.
pub type Rules = Map<Seq<char>, AnyRule>;

/// There is a rule for the operator. Operators of other kinds have none, whatever they are called.
pub open spec fn has_rule(rules: Rules, body: NodeBodyView) -> bool {
    !(body is Other) && rules.contains_key(body.kind())
}

/// What validating the first `count` of `nodes` answers: the first error, if there is one.
pub open spec fn validated_inputs(
    rules: Rules,
    nodes: Seq<StreamNodeView>,
    count: nat,
) -> Result<(), RewriteErrorView>
    decreases nodes, count,
{
    if count == 0 || count > nodes.len() {
        Ok(())
    } else {
        match validated_inputs(rules, nodes, (count - 1) as nat) {
            Ok(_) => validated_plan(rules, nodes[count - 1]),
            Err(error) => Err(error),
        }
    }
}

/// What validating a plan answers: the inputs come first, in order, then the operator itself by
/// the rule of its kind.
pub open spec fn validated_plan(rules: Rules, node: StreamNodeView) -> Result<(), RewriteErrorView>
    decreases node, 0nat,
{
    match validated_inputs(rules, node.input, node.input.len()) {
        Ok(_) => {
            let kind = node.node_body->0.kind();
            if has_rule(rules, node.node_body->0) {
                rules[kind].rule.validated(node)
            } else {
                Err(RewriteErrorView::UnsupportedOperator { kind })
            }
        },
        Err(error) => Err(error),
    }
}

/// Every operator that validation comes to has a body, and its rule can look at it.
pub open spec fn can_validate_plan(rules: Rules, node: StreamNodeView) -> bool
    decreases node,
{
    &&& forall|i: int|
        0 <= i < node.input.len() && validated_inputs(rules, node.input, i as nat) is Ok
            ==> can_validate_plan(rules, #[trigger] node.input[i])
    &&& validated_inputs(rules, node.input, node.input.len()) is Ok ==> {
        &&& node.node_body is Some
        &&& has_rule(rules, node.node_body->0)
            ==> rules[node.node_body->0.kind()].rule.can_validate(node)
    }
}

/// What rewriting the first `count` of `nodes` answers: the first error, if there is one.
pub open spec fn rewritten_inputs_outcome(
    rules: Rules,
    nodes: Seq<StreamNodeView>,
    count: nat,
    change_set: SinkSchemaChangeSetView,
    ctx: RewriteContextView,
) -> Result<(), RewriteErrorView>
    decreases nodes, count,
{
    if count == 0 || count > nodes.len() {
        Ok(())
    } else {
        match rewritten_inputs_outcome(rules, nodes, (count - 1) as nat, change_set, ctx) {
            Ok(_) => rewritten_plan(rules, nodes[count - 1], change_set, ctx).1,
            Err(error) => Err(error),
        }
    }
}

/// The operator with its inputs rewritten in order, up to the first that fails; the inputs behind
/// that one stay as they are.
pub open spec fn with_rewritten_inputs(
    rules: Rules,
    node: StreamNodeView,
    change_set: SinkSchemaChangeSetView,
    ctx: RewriteContextView,
) -> StreamNodeView
    decreases node, 0nat,
{
    StreamNodeView {
        input: Seq::new(
            node.input.len(),
            |i: int|
                if 0 <= i < node.input.len() && rewritten_inputs_outcome(
                    rules,
                    node.input,
                    i as nat,
                    change_set,
                    ctx,
                ) is Ok {
                    rewritten_plan(rules, node.input[i], change_set, ctx).0
                } else {
                    node.input[i]
                },
        ),
        ..node
    }
}

/// What rewriting makes of a plan, and what it answers: the inputs come first, then, unless one of
/// them failed, the operator itself by the rule of its kind.
pub open spec fn rewritten_plan(
    rules: Rules,
    node: StreamNodeView,
    change_set: SinkSchemaChangeSetView,
    ctx: RewriteContextView,
) -> (StreamNodeView, Result<(), RewriteErrorView>)
    decreases node, 1nat,
{
    let reached = with_rewritten_inputs(rules, node, change_set, ctx);
    match rewritten_inputs_outcome(rules, node.input, node.input.len(), change_set, ctx) {
        Ok(_) => {
            let kind = node.node_body->0.kind();
            if has_rule(rules, node.node_body->0) {
                rules[kind].rule.rewritten(reached, change_set, ctx)
            } else {
                (reached, Err(RewriteErrorView::UnsupportedOperator { kind }))
            }
        },
        Err(error) => (reached, Err(error)),
    }
}

/// Every operator that rewriting comes to has a body, and its rule can work on it.
pub open spec fn can_rewrite_plan(
    rules: Rules,
    node: StreamNodeView,
    change_set: SinkSchemaChangeSetView,
    ctx: RewriteContextView,
) -> bool
    decreases node,
{
    &&& forall|i: int|
        0 <= i < node.input.len() && rewritten_inputs_outcome(
            rules,
            node.input,
            i as nat,
            change_set,
            ctx,
        ) is Ok ==> can_rewrite_plan(rules, #[trigger] node.input[i], change_set, ctx)
    &&& rewritten_inputs_outcome(rules, node.input, node.input.len(), change_set, ctx) is Ok ==> {
        &&& node.node_body is Some
        &&& has_rule(rules, node.node_body->0)
            ==> rules[node.node_body->0.kind()].rule.can_rewrite(
            with_rewritten_inputs(rules, node, change_set, ctx),
            change_set,
            ctx,
        )
    }
}

/// A plan rewriter: a set of rules, each for one kind of operator.
pub struct PlanRewriter {
    rules: StringHashMap<AnyRule>,
}

/// The rules of sinks, stream scans, merges and batch plans, and no others.
pub open spec fn is_sink_schema(rules: Rules) -> bool {
    &&& rules.dom() == set!["Sink"@, "StreamScan"@, "Merge"@, "BatchPlan"@]
    &&& behaves_as(rules["Sink"@], SinkRule)
    &&& behaves_as(rules["StreamScan"@], StreamScanRule)
    &&& behaves_as(rules["Merge"@], MergeRule)
    &&& behaves_as(rules["BatchPlan"@], BatchPlanRule)
}

/// `any` accepts and answers what `other` does.
pub open spec fn behaves_as<R: OperatorRule>(any: AnyRule, other: R) -> bool {
    &&& forall|node: StreamNodeView| #[trigger]
        any.rule.can_validate(node) == other.can_validate(node)
    &&& forall|node: StreamNodeView| #[trigger] any.rule.validated(node) == other.validated(node)
    &&& forall|
        node: StreamNodeView,
        change_set: SinkSchemaChangeSetView,
        ctx: RewriteContextView,
    | #[trigger]
        any.rule.can_rewrite(node, change_set, ctx) == other.can_rewrite(node, change_set, ctx)
    &&& forall|
        node: StreamNodeView,
        change_set: SinkSchemaChangeSetView,
        ctx: RewriteContextView,
    | #[trigger]
        any.rule.rewritten(node, change_set, ctx) == other.rewritten(node, change_set, ctx)
}

impl AnyRule {
    fn sink() -> (any: Self)
        ensures
            behaves_as(any, SinkRule),
    {
        AnyRule { rule: Box::new(SinkRule) }
    }

    fn stream_scan() -> (any: Self)
        ensures
            behaves_as(any, StreamScanRule),
    {
        AnyRule { rule: Box::new(StreamScanRule) }
    }

    fn merge() -> (any: Self)
        ensures
            behaves_as(any, MergeRule),
    {
        AnyRule { rule: Box::new(MergeRule) }
    }

    fn batch_plan() -> (any: Self)
        ensures
            behaves_as(any, BatchPlanRule),
    {
        AnyRule { rule: Box::new(BatchPlanRule) }
    }
}

impl PlanRewriter {
    /// The rules by the kind that each handles.
    pub closed spec fn rules(&self) -> Rules {
        self.rules@
    }

    /// The rewriter for the automatic schema change of sinks.
    pub fn sink_schema() -> (rewriter: Self)
        ensures
            is_sink_schema(rewriter.rules()),
    {
        let mut rules: StringHashMap<AnyRule> = StringHashMap::new();
        rules.insert("Sink".to_owned(), AnyRule::sink());
        rules.insert("StreamScan".to_owned(), AnyRule::stream_scan());
        rules.insert("Merge".to_owned(), AnyRule::merge());
        rules.insert("BatchPlan".to_owned(), AnyRule::batch_plan());
        proof {
            lemma_kinds_differ();
            assert(rules@.dom() =~= set!["Sink"@, "StreamScan"@, "Merge"@, "BatchPlan"@]);
        }
        PlanRewriter { rules }
    }

    /// Applies the change to every operator of the plan, inputs first. At the first operator that
    /// cannot be rewritten it stops; what was rewritten before stays rewritten.
    pub fn rewrite_root(
        &self,
        root: &mut StreamNode,
        change_set: &SinkSchemaChangeSet,
        ctx: &RewriteContext<'_>,
    ) -> (result: Result<(), RewriteError>)
        requires
            can_rewrite_plan(self.rules(), old(root)@, change_set@, ctx@),
        ensures
            (final(root)@, outcome(result)) == rewritten_plan(
                self.rules(),
                old(root)@,
                change_set@,
                ctx@,
            ),
    {
        self.rewrite_node(root, change_set, ctx)
    }

    /// Checks that every operator of the plan is supported, inputs first.
    pub fn validate_root(&self, root: &StreamNode) -> (result: Result<(), RewriteError>)
        requires
            can_validate_plan(self.rules(), root@),
        ensures
            outcome(result) == validated_plan(self.rules(), root@),
    {
        self.validate_node(root)
    }

    /// The rule for the operator, if there is one.
    fn rule<'a>(&'a self, body: &NodeBody) -> (rule: Option<&'a AnyRule>)
        ensures
            rule is Some <==> has_rule(self.rules(), body@),
            rule matches Some(any) ==> *any == self.rules()[body@.kind()],
    {
        if let NodeBody::Other { .. } = body {
            return None;
        }
        self.rules.get(body.kind().as_str())
    }

    fn rewrite_node(
        &self,
        node: &mut StreamNode,
        change_set: &SinkSchemaChangeSet,
        ctx: &RewriteContext<'_>,
    ) -> (result: Result<(), RewriteError>)
        requires
            can_rewrite_plan(self.rules(), old(node)@, change_set@, ctx@),
        ensures
            (final(node)@, outcome(result)) == rewritten_plan(
                self.rules(),
                old(node)@,
                change_set@,
                ctx@,
            ),
        decreases *old(node),
    {
        let ghost before = *node;
        let ghost rules = self.rules();
        let ghost reached = with_rewritten_inputs(rules, before@, change_set@, ctx@);
        let count: usize = node.input.len();
        let mut i: usize = 0;
        while i < count
            invariant
                i <= count,
                before == *old(node),
                rules == self.rules(),
                reached == with_rewritten_inputs(rules, before@, change_set@, ctx@),
                can_rewrite_plan(rules, before@, change_set@, ctx@),
                count == before.input@.len(),
                node.input@.len() == count,
                node.identity == before.identity,
                node.fields == before.fields,
                node.node_body == before.node_body,
                node.attributes == before.attributes,
                forall|j: int| 0 <= j < i ==> (#[trigger] node.input@[j])@ == reached.input[j],
                forall|j: int| i <= j < count ==> #[trigger] node.input@[j] == before.input@[j],
                rewritten_inputs_outcome(
                    rules,
                    before@.input,
                    i as nat,
                    change_set@,
                    ctx@,
                ) is Ok,
            decreases count - i,
        {
            assert(before@.input[i as int] == before.input@[i as int]@);
            assert(node.input@[i as int] == before.input@[i as int]);
            let ghost previous = node.input@;
            let step = self.rewrite_node(&mut node.input[i], change_set, ctx);
            assert(node.input@ =~= previous.update(i as int, node.input@[i as int]));
            if let Err(error) = step {
                proof {
                    lemma_outcome_error_stays(
                        rules,
                        before@.input,
                        (i + 1) as nat,
                        count as nat,
                        change_set@,
                        ctx@,
                    );
                    assert forall|j: int| 0 <= j < count implies (#[trigger] node.input@[j])@
                        == reached.input[j] by {
                        assert(before@.input[j] == before.input@[j]@);
                        if j > i {
                            assert(node.input@[j] == previous[j]);
                            lemma_outcome_error_stays(
                                rules,
                                before@.input,
                                (i + 1) as nat,
                                j as nat,
                                change_set@,
                                ctx@,
                            );
                        }
                    }
                    assert(node@.input =~= reached.input);
                }
                return Err(error);
            }
            i += 1;
        }
        assert(node@.input =~= reached.input);
        assert(node@ == reached);
        let body = node.node_body.as_ref().unwrap();
        match self.rule(body) {
            Some(any) => any.rule.rewrite(node, change_set, ctx),
            None => Err(RewriteError::UnsupportedOperator { kind: body.kind() }),
        }
    }

    fn validate_node(&self, node: &StreamNode) -> (result: Result<(), RewriteError>)
        requires
            can_validate_plan(self.rules(), node@),
        ensures
            outcome(result) == validated_plan(self.rules(), node@),
        decreases *node,
    {
        let ghost rules = self.rules();
        let mut i: usize = 0;
        while i < node.input.len()
            invariant
                i <= node.input@.len(),
                rules == self.rules(),
                can_validate_plan(rules, node@),
                validated_inputs(rules, node@.input, i as nat) is Ok,
            decreases node.input@.len() - i,
        {
            assert(node@.input[i as int] == node.input@[i as int]@);
            if let Err(error) = self.validate_node(&node.input[i]) {
                proof {
                    lemma_validated_error_stays(
                        rules,
                        node@.input,
                        (i + 1) as nat,
                        node@.input.len(),
                    );
                }
                return Err(error);
            }
            i += 1;
        }
        let body = node.node_body.as_ref().unwrap();
        match self.rule(body) {
            Some(any) => any.rule.validate(node),
            None => Err(RewriteError::UnsupportedOperator { kind: body.kind() }),
        }
    }
}

/// The four kinds that have rules have different names.
proof fn lemma_kinds_differ()
    ensures
        "Sink"@ != "StreamScan"@,
        "Sink"@ != "Merge"@,
        "Sink"@ != "BatchPlan"@,
        "StreamScan"@ != "Merge"@,
        "StreamScan"@ != "BatchPlan"@,
        "Merge"@ != "BatchPlan"@,
{
    reveal_strlit("Sink");
    reveal_strlit("StreamScan");
    reveal_strlit("Merge");
    reveal_strlit("BatchPlan");
    assert("StreamScan"@[1] != "BatchPlan"@[1]);
    assert("Sink"@.len() == 4);
    assert("Merge"@.len() == 5);
    assert("StreamScan"@.len() == 10);
    assert("BatchPlan"@.len() == 9);
}

/// Once an input has failed to be rewritten, its error is the answer.
pub proof fn lemma_outcome_error_stays(
    rules: Rules,
    nodes: Seq<StreamNodeView>,
    count: nat,
    more: nat,
    change_set: SinkSchemaChangeSetView,
    ctx: RewriteContextView,
)
    requires
        count <= more <= nodes.len(),
        rewritten_inputs_outcome(rules, nodes, count, change_set, ctx) is Err,
    ensures
        rewritten_inputs_outcome(rules, nodes, more, change_set, ctx) == rewritten_inputs_outcome(
            rules,
            nodes,
            count,
            change_set,
            ctx,
        ),
    decreases more,
{
    if count < more {
        lemma_outcome_error_stays(rules, nodes, count, (more - 1) as nat, change_set, ctx);
    }
}

/// Once an input has failed to be validated, its error is the answer.
pub proof fn lemma_validated_error_stays(
    rules: Rules,
    nodes: Seq<StreamNodeView>,
    count: nat,
    more: nat,
)
    requires
        count <= more <= nodes.len(),
        validated_inputs(rules, nodes, count) is Err,
    ensures
        validated_inputs(rules, nodes, more) == validated_inputs(rules, nodes, count),
    decreases more,
{
    if count < more {
        lemma_validated_error_stays(rules, nodes, count, (more - 1) as nat);
    }
}

} // verus!
