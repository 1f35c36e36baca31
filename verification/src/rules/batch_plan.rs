//! The rule of batch plans.

use vstd::prelude::*;

use crate::change::{
    OperatorRule, RewriteContext, RewriteContextView, SinkSchemaChangeSet, SinkSchemaChangeSetView,
};
use crate::error::{RewriteError, RewriteErrorView};
use crate::plan::{StreamNode, StreamNodeView};

verus! {

/// Batch plans stay as they are. Under arrangement backfill their schema does not matter; under
/// other kinds of backfill it may.
pub struct BatchPlanRule;

impl OperatorRule for BatchPlanRule {
    open spec fn can_validate(&self, node: StreamNodeView) -> bool {
        true
    }

    open spec fn validated(&self, node: StreamNodeView) -> Result<(), RewriteErrorView> {
        Ok(())
    }

    open spec fn can_rewrite(
        &self,
        node: StreamNodeView,
        change_set: SinkSchemaChangeSetView,
        ctx: RewriteContextView,
    ) -> bool {
        true
    }

    open spec fn rewritten(
        &self,
        node: StreamNodeView,
        change_set: SinkSchemaChangeSetView,
        ctx: RewriteContextView,
    ) -> (StreamNodeView, Result<(), RewriteErrorView>) {
        (node, Ok(()))
    }

    fn validate(&self, _node: &StreamNode) -> (result: Result<(), RewriteError>) {
        Ok(())
    }

    fn rewrite(
        &self,
        _node: &mut StreamNode,
        _change_set: &SinkSchemaChangeSet,
        _ctx: &RewriteContext<'_>,
    ) -> (result: Result<(), RewriteError>) {
        Ok(())
    }
}

} // verus!
