//! Schema changes, what they are applied against, and the rules that apply them.

use vstd::prelude::*;

use crate::catalog::{ColumnCatalog, ColumnCatalogView, Sink, SinkView, Table, TableView};
use crate::error::{outcome, RewriteError, RewriteErrorView};
use crate::plan::{StreamNode, StreamNodeView};
use crate::text::views;

verus! {

/// A change of the schema of a sink's upstream.
#[derive(Debug, PartialEq, Eq)]
pub enum SinkSchemaChangeSet {
    AddColumns(Vec<ColumnCatalog>),
    DropColumns(Vec<String>),
}

/// What a [`SinkSchemaChangeSet`] says.
pub enum SinkSchemaChangeSetView {
    AddColumns(Seq<ColumnCatalogView>),
    DropColumns(Seq<Seq<char>>),
}

impl View for SinkSchemaChangeSet {
    type V = SinkSchemaChangeSetView;

    open spec fn view(&self) -> SinkSchemaChangeSetView {
        match self {
            SinkSchemaChangeSet::AddColumns(columns) => SinkSchemaChangeSetView::AddColumns(
                views(columns@),
            ),
            SinkSchemaChangeSet::DropColumns(names) => SinkSchemaChangeSetView::DropColumns(
                views(names@),
            ),
        }
    }
}

impl SinkSchemaChangeSet {
    /// The change that adds the given columns, in the given order.
    pub fn for_add_columns(newly_added_columns: &[ColumnCatalog]) -> (change_set: Self)
        ensures
            change_set@ == SinkSchemaChangeSetView::AddColumns(views(newly_added_columns@)),
    {
        let mut columns: Vec<ColumnCatalog> = Vec::new();
        let mut i: usize = 0;
        while i < newly_added_columns.len()
            invariant
                i <= newly_added_columns@.len(),
                columns@.len() == i,
                forall|j: int| 0 <= j < i ==> columns@[j]@ == newly_added_columns@[j]@,
            decreases newly_added_columns@.len() - i,
        {
            columns.push(newly_added_columns[i].clone());
            i += 1;
        }
        assert(views(columns@) =~= views(newly_added_columns@));
        SinkSchemaChangeSet::AddColumns(columns)
    }
}

/// What a plan is rewritten against.
pub struct RewriteContext<'a> {
    pub sink: &'a Sink,
    /// The upstream table, as it is after the change.
    pub upstream_table: &'a Table,
    pub upstream_table_fragment_id: u32,
}

/// What a [`RewriteContext`] says.
pub struct RewriteContextView {
    pub sink: SinkView,
    pub upstream_table: TableView,
    pub upstream_table_fragment_id: u32,
}

impl<'a> View for RewriteContext<'a> {
    type V = RewriteContextView;

    open spec fn view(&self) -> RewriteContextView {
        RewriteContextView {
            sink: self.sink@,
            upstream_table: self.upstream_table@,
            upstream_table_fragment_id: self.upstream_table_fragment_id,
        }
    }
}

/// How operators of one kind take part in a schema change.
pub trait OperatorRule: Send + Sync {
    /// The operators that [`OperatorRule::validate`] can look at.
    spec fn can_validate(&self, node: StreamNodeView) -> bool;

    /// What [`OperatorRule::validate`] answers.
    spec fn validated(&self, node: StreamNodeView) -> Result<(), RewriteErrorView>;

    /// The operators and changes that [`OperatorRule::rewrite`] can work on.
    spec fn can_rewrite(
        &self,
        node: StreamNodeView,
        change_set: SinkSchemaChangeSetView,
        ctx: RewriteContextView,
    ) -> bool;

    /// What [`OperatorRule::rewrite`] makes of an operator, and what it answers.
    spec fn rewritten(
        &self,
        node: StreamNodeView,
        change_set: SinkSchemaChangeSetView,
        ctx: RewriteContextView,
    ) -> (StreamNodeView, Result<(), RewriteErrorView>);

    /// Checks that the operator is one that the rule supports.
    fn validate(&self, node: &StreamNode) -> (result: Result<(), RewriteError>)
        requires
            self.can_validate(node@),
        ensures
            outcome(result) == self.validated(node@),
    ;

    /// Applies the change to the operator. Its inputs have been rewritten before.
    fn rewrite(
        &self,
        node: &mut StreamNode,
        change_set: &SinkSchemaChangeSet,
        ctx: &RewriteContext<'_>,
    ) -> (result: Result<(), RewriteError>)
        requires
            self.can_rewrite(old(node)@, change_set@, ctx@),
        ensures
            (final(node)@, outcome(result)) == self.rewritten(old(node)@, change_set@, ctx@),
    ;
}

} // verus!
