//! The reasons for which a plan is refused.

use vstd::prelude::*;

use crate::text::{decimal, decimal_text};

verus! {

/// Why a plan cannot be validated or rewritten.
#[derive(Debug, PartialEq, Eq)]
pub enum RewriteError {
    /// No rule handles operators of this kind.
    UnsupportedOperator { kind: String },
    /// A rule was handed an operator of another kind than its own.
    UnexpectedNodeBody { expected: String, found: String },
    /// The schema change is not an addition of columns.
    UnsupportedChange,
    /// A sink operator does not describe its sink.
    MissingSinkDesc,
    /// A stream scan does not describe its table.
    MissingTableDesc,
    /// The operator to validate is not a stream scan.
    NotStreamScan,
    /// The stream scan does not read by arrangement backfill.
    UnsupportedScanType { scan_type: String },
    /// The stream scan does not have exactly two inputs.
    UnsupportedScanShape { inputs: usize },
    /// The first input of the stream scan is not a merge.
    FirstInputNotMerge { found: String },
    /// The second input of the stream scan is not a batch plan.
    SecondInputNotBatchPlan { found: String },
}

/// What a [`RewriteError`] says.
pub enum RewriteErrorView {
    UnsupportedOperator { kind: Seq<char> },
    UnexpectedNodeBody { expected: Seq<char>, found: Seq<char> },
    UnsupportedChange,
    MissingSinkDesc,
    MissingTableDesc,
    NotStreamScan,
    UnsupportedScanType { scan_type: Seq<char> },
    UnsupportedScanShape { inputs: nat },
    FirstInputNotMerge { found: Seq<char> },
    SecondInputNotBatchPlan { found: Seq<char> },
}

impl View for RewriteError {
    type V = RewriteErrorView;

    open spec fn view(&self) -> RewriteErrorView {
        match self {
            RewriteError::UnsupportedOperator { kind } => RewriteErrorView::UnsupportedOperator {
                kind: kind@,
            },
            RewriteError::UnexpectedNodeBody {
                expected,
                found,
            } => RewriteErrorView::UnexpectedNodeBody { expected: expected@, found: found@ },
            RewriteError::UnsupportedChange => RewriteErrorView::UnsupportedChange,
            RewriteError::MissingSinkDesc => RewriteErrorView::MissingSinkDesc,
            RewriteError::MissingTableDesc => RewriteErrorView::MissingTableDesc,
            RewriteError::NotStreamScan => RewriteErrorView::NotStreamScan,
            RewriteError::UnsupportedScanType {
                scan_type,
            } => RewriteErrorView::UnsupportedScanType { scan_type: scan_type@ },
            RewriteError::UnsupportedScanShape {
                inputs,
            } => RewriteErrorView::UnsupportedScanShape { inputs: *inputs as nat },
            RewriteError::FirstInputNotMerge { found } => RewriteErrorView::FirstInputNotMerge {
                found: found@,
            },
            RewriteError::SecondInputNotBatchPlan {
                found,
            } => RewriteErrorView::SecondInputNotBatchPlan { found: found@ },
        }
    }
}

impl RewriteErrorView {
    /// The error as text.
    pub open spec fn message(self) -> Seq<char> {
        match self {
            RewriteErrorView::UnsupportedOperator { kind } =>
                "unsupported operator for sink auto schema change: kind="@ + kind,
            RewriteErrorView::UnexpectedNodeBody { expected, found } =>
                "expected "@ + expected + " node_body, got "@ + found,
            RewriteErrorView::UnsupportedChange =>
                "only support AddColumns in sink auto schema change"@,
            RewriteErrorView::MissingSinkDesc => "sink node must have sink_desc"@,
            RewriteErrorView::MissingTableDesc => "stream scan must have table_desc"@,
            RewriteErrorView::NotStreamScan => "expected StreamScan node_body"@,
            RewriteErrorView::UnsupportedScanType { scan_type } =>
                "unsupported stream_scan_type for auto refresh schema: "@ + scan_type,
            RewriteErrorView::UnsupportedScanShape { inputs } =>
                "unsupported StreamScan shape for auto refresh schema: expected 2 inputs, got "@
                    + decimal(inputs),
            RewriteErrorView::FirstInputNotMerge { found } =>
                "unsupported StreamScan child[0]: expected Merge, got "@ + found,
            RewriteErrorView::SecondInputNotBatchPlan { found } =>
                "unsupported StreamScan child[1]: expected BatchPlan, got "@ + found,
        }
    }
}

impl RewriteError {
    /// The error as text.
    pub fn message(&self) -> (text: String)
        ensures
            text@ == self@.message(),
    {
        match self {
            RewriteError::UnsupportedOperator { kind } =>
                "unsupported operator for sink auto schema change: kind=".to_owned().concat(
                    kind.as_str(),
                ),
            RewriteError::UnexpectedNodeBody { expected, found } => "expected ".to_owned()
                .concat(expected.as_str())
                .concat(" node_body, got ")
                .concat(found.as_str()),
            RewriteError::UnsupportedChange =>
                "only support AddColumns in sink auto schema change".to_owned(),
            RewriteError::MissingSinkDesc => "sink node must have sink_desc".to_owned(),
            RewriteError::MissingTableDesc => "stream scan must have table_desc".to_owned(),
            RewriteError::NotStreamScan => "expected StreamScan node_body".to_owned(),
            RewriteError::UnsupportedScanType { scan_type } =>
                "unsupported stream_scan_type for auto refresh schema: ".to_owned().concat(
                    scan_type.as_str(),
                ),
            RewriteError::UnsupportedScanShape { inputs } =>
                "unsupported StreamScan shape for auto refresh schema: expected 2 inputs, got "
                    .to_owned().concat(decimal_text(*inputs).as_str()),
            RewriteError::FirstInputNotMerge { found } =>
                "unsupported StreamScan child[0]: expected Merge, got ".to_owned().concat(
                    found.as_str(),
                ),
            RewriteError::SecondInputNotBatchPlan { found } =>
                "unsupported StreamScan child[1]: expected BatchPlan, got ".to_owned().concat(
                    found.as_str(),
                ),
        }
    }
}

/// The outcome of a step, with the error by what it says.
pub open spec fn outcome(result: Result<(), RewriteError>) -> Result<(), RewriteErrorView> {
    match result {
        Ok(_) => Ok(()),
        Err(error) => Err(error@),
    }
}

} // verus!
