//! Laws of texts: what is joined, counted or reported can be read back.

use vstd::prelude::*;

use crate::catalog::PbColumnCatalogView;
use crate::error::RewriteErrorView;
use crate::map_agg::MapAggError;
use crate::plan::NodeBodyView;
use crate::text::{decimal, joined};

verus! {

/// Joining nothing gives nothing, joining one part gives that part, and joining two lists of parts
/// gives what each of them gives, with the separator between.
pub proof fn law_joining_splits(a: Seq<Seq<char>>, b: Seq<Seq<char>>, sep: Seq<char>)
    ensures
        a.len() == 0 ==> joined(a, sep).len() == 0,
        a.len() == 1 ==> joined(a, sep) == a[0],
        a.len() > 0 && b.len() > 0 ==> joined(a + b, sep) == joined(a, sep) + sep + joined(b, sep),
    decreases a.len(),
{
    if a.len() > 0 && b.len() > 0 {
        assert((a + b)[0] == a[0]);
        if a.len() == 1 {
            assert((a + b).skip(1) =~= b);
        } else {
            law_joining_splits(a.skip(1), b, sep);
            assert((a + b).skip(1) =~= a.skip(1) + b);
            assert(joined(a + b, sep) =~= joined(a, sep) + sep + joined(b, sep));
        }
    }
}

/// The number that decimal digits stand for.
pub open spec fn number(digits: Seq<char>) -> int
    decreases digits.len(),
{
    if digits.len() == 0 {
        0
    } else {
        number(digits.drop_last()) * 10 + (digits.last() as int - '0' as int)
    }
}

/// A number in decimal consists of digits, starts with a zero only if it is zero, and stands for
/// the number.
pub proof fn law_decimals_read_back(n: nat)
    ensures
        number(decimal(n)) == n,
        decimal(n).len() > 0,
        forall|i: int| 0 <= i < decimal(n).len() ==> '0' <= #[trigger] decimal(n)[i] <= '9',
        decimal(n)[0] == '0' ==> n == 0 && decimal(n).len() == 1,
    decreases n,
{
    if n < 10 {
        assert(decimal(n).drop_last() =~= Seq::<char>::empty());
        assert(decimal(n).last() as int == '0' as int + n);
        assert(number(decimal(n).drop_last()) == 0);
    } else {
        law_decimals_read_back(n / 10);
        assert(decimal(n).drop_last() =~= decimal(n / 10));
        assert(decimal(n).last() as int == '0' as int + n % 10);
        assert forall|i: int| 0 <= i < decimal(n).len() implies '0' <= #[trigger] decimal(n)[i]
            <= '9' by {
            if i < decimal(n / 10).len() {
                assert(decimal(n)[i] == decimal(n / 10)[i]);
            }
        }
        assert(decimal(n)[0] == decimal(n / 10)[0]);
    }
}

/// A hidden column is shown by its whole name and a mark, any other by its whole name alone.
pub proof fn law_shown_names_are_whole(column: PbColumnCatalogView)
    ensures
        ({
            let name = column.column_desc->0.name;
            let shown = column.name_with_hidden();
            &&& shown.len() == name.len() + if column.is_hidden {
                8int
            } else {
                0
            }
            &&& forall|i: int| 0 <= i < name.len() ==> #[trigger] shown[i] == name[i]
            &&& column.is_hidden ==> shown.skip(name.len() as int) == seq![
                '(',
                'h',
                'i',
                'd',
                'd',
                'e',
                'n',
                ')',
            ]
        }),
{
    reveal_strlit("(hidden)");
    let name = column.column_desc->0.name;
    if column.is_hidden {
        assert(column.name_with_hidden().skip(name.len() as int) =~= "(hidden)"@);
    }
}

/// An operator's kind is named after its payload, and one of another kind by its own whole name.
pub proof fn law_kinds_are_named(body: NodeBodyView)
    ensures
        body is Sink ==> body.kind() == "Sink"@,
        body is StreamScan ==> body.kind() == "StreamScan"@,
        body is Merge ==> body.kind() == "Merge"@,
        body is BatchPlan ==> body.kind() == "BatchPlan"@,
        body matches NodeBodyView::Other { kind, .. } ==> body.kind() == kind,
{
}

/// A message ends in what the error names, in full; before that stands what is said of it.
pub proof fn law_messages_name_their_cause(
    kind: Seq<char>,
    expected: Seq<char>,
    found: Seq<char>,
    scan_type: Seq<char>,
    inputs: nat,
)
    ensures
        (RewriteErrorView::UnsupportedOperator { kind }).message()
            == "unsupported operator for sink auto schema change: kind="@ + kind,
        (RewriteErrorView::UnexpectedNodeBody { expected, found }).message() == "expected "@
            + expected + " node_body, got "@ + found,
        (RewriteErrorView::UnsupportedScanType { scan_type }).message()
            == "unsupported stream_scan_type for auto refresh schema: "@ + scan_type,
        (RewriteErrorView::FirstInputNotMerge { found }).message()
            == "unsupported StreamScan child[0]: expected Merge, got "@ + found,
        (RewriteErrorView::SecondInputNotBatchPlan { found }).message()
            == "unsupported StreamScan child[1]: expected BatchPlan, got "@ + found,
        exists|count: Seq<char>|
            #![trigger number(count)]
            number(count) == inputs && (RewriteErrorView::UnsupportedScanShape {
                inputs,
            }).message()
                == "unsupported StreamScan shape for auto refresh schema: expected 2 inputs, got "@
                + count,
        RewriteErrorView::UnsupportedChange.message()
            == "only support AddColumns in sink auto schema change"@,
        RewriteErrorView::MissingSinkDesc.message() == "sink node must have sink_desc"@,
        RewriteErrorView::MissingTableDesc.message() == "stream scan must have table_desc"@,
        RewriteErrorView::NotStreamScan.message() == "expected StreamScan node_body"@,
        MapAggError::NullKey.text() == "map keys must not be NULL"@,
        MapAggError::DuplicateKey.text() == "map keys must be unique"@,
{
    law_decimals_read_back(inputs);
    assert(number(decimal(inputs)) == inputs);
}

} // verus!
