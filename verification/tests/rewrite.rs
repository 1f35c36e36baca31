use sink_schema::catalog::{
    ColumnCatalog, ColumnDesc, DataType, Field, PbColumnCatalog, Sink, SinkType, Table,
};
use sink_schema::change::{OperatorRule, RewriteContext, SinkSchemaChangeSet};
use sink_schema::columns::{extend_pb_fields, extend_sink_columns};
use sink_schema::error::RewriteError;
use sink_schema::plan::{
    MergeNode, NodeBody, SinkDesc, SinkNode, StreamNode, StreamScanNode, StreamScanType, TableDesc,
};
use sink_schema::rewriter::PlanRewriter;
use sink_schema::rules::batch_plan::BatchPlanRule;
use sink_schema::rules::merge::MergeRule;
use sink_schema::rules::sink::{sink_identity, SinkRule};
use sink_schema::rules::stream_scan::StreamScanRule;
use sink_schema::text::decimal_text;

fn int4() -> DataType {
    DataType { encoded: vec![2] }
}

fn varchar() -> DataType {
    DataType { encoded: vec![7] }
}

fn desc(column_id: i32, name: &str, data_type: DataType) -> ColumnDesc {
    ColumnDesc { column_id, name: name.to_string(), data_type, attributes: vec![9, 9] }
}

fn column(column_id: i32, name: &str, data_type: DataType) -> ColumnCatalog {
    ColumnCatalog { column_desc: desc(column_id, name, data_type), is_hidden: false }
}

fn pb_column(column_id: i32, name: &str, data_type: DataType) -> PbColumnCatalog {
    PbColumnCatalog { column_desc: Some(desc(column_id, name, data_type)), is_hidden: false }
}

fn hidden(mut column: PbColumnCatalog) -> PbColumnCatalog {
    column.is_hidden = true;
    column
}

fn field(name: &str, data_type: DataType) -> Field {
    Field { name: name.to_string(), data_type: Some(data_type) }
}

fn table(name: &str, columns: Vec<PbColumnCatalog>) -> Table {
    Table { name: name.to_string(), columns, attributes: vec![1, 2, 3] }
}

fn upstream() -> Table {
    table("t", vec![pb_column(1, "a", int4()), pb_column(5, "b", varchar())])
}

fn upsert_sink() -> Sink {
    Sink {
        sink_type: SinkType { type_str: "upsert".to_string(), append_only: false },
        columns: vec![pb_column(1, "a", int4()), pb_column(2, "k\"y", int4())],
        downstream_pk: vec![1, 0],
    }
}

fn append_only_sink() -> Sink {
    Sink {
        sink_type: SinkType { type_str: "append-only".to_string(), append_only: true },
        columns: vec![],
        downstream_pk: vec![7],
    }
}

fn node(identity: &str, fields: Vec<Field>, input: Vec<StreamNode>, body: NodeBody) -> StreamNode {
    StreamNode {
        identity: identity.to_string(),
        fields,
        input,
        node_body: Some(body),
        attributes: vec![31],
    }
}

fn merge() -> StreamNode {
    node(
        "merge",
        vec![field("a", int4())],
        vec![],
        NodeBody::Merge(MergeNode { upstream_fragment_id: 3, attributes: vec![32] }),
    )
}

fn batch_plan() -> StreamNode {
    node("batch", vec![field("a", int4())], vec![], NodeBody::BatchPlan { attributes: vec![33] })
}

fn other(kind: &str) -> NodeBody {
    NodeBody::Other { kind: kind.to_string(), attributes: vec![38] }
}

fn without_body() -> StreamNode {
    StreamNode {
        identity: String::new(),
        fields: vec![],
        input: vec![],
        node_body: None,
        attributes: vec![],
    }
}

fn scan_body() -> StreamScanNode {
    StreamScanNode {
        stream_scan_type: StreamScanType::ArrangementBackfill,
        arrangement_table: None,
        upstream_column_ids: vec![1, 2],
        output_indices: vec![0],
        table_desc: Some(TableDesc {
            columns: vec![desc(1, "a", int4()), desc(2, "r", int4()), desc(3, "s", int4())],
            value_indices: vec![0, 2],
            attributes: vec![34],
        }),
        attributes: vec![35],
    }
}

fn scan(body: StreamScanNode, input: Vec<StreamNode>) -> StreamNode {
    node("scan", vec![field("t.a", int4())], input, NodeBody::StreamScan(body))
}

fn sink_body() -> SinkNode {
    SinkNode {
        sink_desc: Some(SinkDesc {
            column_catalogs: vec![pb_column(4, "a", int4()), hidden(pb_column(2, "r", int4()))],
            attributes: vec![36],
        }),
        table: Some(table("log", vec![pb_column(0, "kv", int4())])),
        attributes: vec![37],
    }
}

fn sink(body: SinkNode, input: Vec<StreamNode>) -> StreamNode {
    node("sink", vec![field("t.a", int4())], input, NodeBody::Sink(body))
}

fn plan() -> StreamNode {
    sink(sink_body(), vec![scan(scan_body(), vec![merge(), batch_plan()])])
}

fn two_columns() -> SinkSchemaChangeSet {
    SinkSchemaChangeSet::for_add_columns(&[column(5, "b", varchar()), column(6, "c", int4())])
}

fn drop_columns() -> SinkSchemaChangeSet {
    SinkSchemaChangeSet::DropColumns(vec!["a".to_string()])
}

fn rewrite(
    root: &mut StreamNode,
    change_set: &SinkSchemaChangeSet,
    sink: &Sink,
) -> Result<(), RewriteError> {
    let upstream_table = upstream();
    let ctx = RewriteContext {
        sink,
        upstream_table: &upstream_table,
        upstream_table_fragment_id: 42,
    };
    PlanRewriter::sink_schema().rewrite_root(root, change_set, &ctx)
}

fn rewrite_by(
    rule: &dyn OperatorRule,
    node: &mut StreamNode,
    change_set: &SinkSchemaChangeSet,
) -> Result<(), RewriteError> {
    let sink = upsert_sink();
    let upstream_table = upstream();
    let ctx = RewriteContext {
        sink: &sink,
        upstream_table: &upstream_table,
        upstream_table_fragment_id: 42,
    };
    rule.rewrite(node, change_set, &ctx)
}

fn validate(root: &StreamNode) -> Result<(), RewriteError> {
    PlanRewriter::sink_schema().validate_root(root)
}

#[test]
fn added_columns_reach_every_operator() {
    let mut root = plan();
    assert_eq!(validate(&root), Ok(()));
    assert_eq!(rewrite(&mut root, &two_columns(), &upsert_sink()), Ok(()));

    let merge = node(
        "merge",
        vec![field("a", int4()), field("b", varchar()), field("c", int4())],
        vec![],
        NodeBody::Merge(MergeNode { upstream_fragment_id: 42, attributes: vec![32] }),
    );
    let scan = node(
        "StreamTableScan { table: t, columns: [t.a, t.b, t.c] }",
        vec![field("t.a", int4()), field("t.b", varchar()), field("t.c", int4())],
        vec![merge, batch_plan()],
        NodeBody::StreamScan(StreamScanNode {
            stream_scan_type: StreamScanType::ArrangementBackfill,
            arrangement_table: Some(upstream()),
            upstream_column_ids: vec![1, 2, 5, 6],
            output_indices: vec![0, 2, 3],
            table_desc: Some(TableDesc {
                columns: vec![
                    desc(1, "a", int4()),
                    desc(2, "r", int4()),
                    desc(3, "s", int4()),
                    desc(5, "b", varchar()),
                    desc(6, "c", int4()),
                ],
                value_indices: vec![0, 2, 3, 4],
                attributes: vec![34],
            }),
            attributes: vec![35],
        }),
    );
    let expected = node(
        "StreamSink { type: upsert, columns: [a, r(hidden), b, c], downstream_pk: [\"k\\\"y\", \"a\"] }",
        vec![field("t.a", int4()), field("t.b", varchar()), field("t.c", int4())],
        vec![scan],
        NodeBody::Sink(SinkNode {
            sink_desc: Some(SinkDesc {
                column_catalogs: vec![
                    pb_column(4, "a", int4()),
                    hidden(pb_column(2, "r", int4())),
                    pb_column(5, "b", varchar()),
                    pb_column(6, "c", int4()),
                ],
                attributes: vec![36],
            }),
            table: Some(table(
                "log",
                vec![
                    pb_column(0, "kv", int4()),
                    pb_column(1, "t_b", varchar()),
                    pb_column(2, "t_c", int4()),
                ],
            )),
            attributes: vec![37],
        }),
    );
    assert_eq!(root, expected);
    assert_eq!(validate(&root), Ok(()));
}

#[test]
fn append_only_sinks_show_no_key() {
    let mut root = sink(SinkNode { table: None, ..sink_body() }, vec![]);
    assert_eq!(rewrite(&mut root, &two_columns(), &append_only_sink()), Ok(()));
    assert_eq!(
        root.identity,
        "StreamSink { type: append-only, columns: [a, r(hidden), b, c] }"
    );
    let Some(NodeBody::Sink(body)) = &root.node_body else {
        panic!("a sink stays a sink");
    };
    assert_eq!(body.table, None);
}

#[test]
fn sink_identity_joins_names() {
    let upsert = SinkType { type_str: "upsert".to_string(), append_only: false };
    assert_eq!(
        sink_identity(&upsert, &vec![], &vec![]),
        "StreamSink { type: upsert, columns: [], downstream_pk: [] }"
    );
    let names = vec!["x".to_string(), "y".to_string()];
    assert_eq!(
        sink_identity(&upsert, &names, &vec!["\"x\"".to_string()]),
        "StreamSink { type: upsert, columns: [x, y], downstream_pk: [\"x\"] }"
    );
}

#[test]
fn ids_start_at_one_and_stay_fresh() {
    let mut columns = vec![];
    extend_sink_columns(&mut columns, &[column(70, "a", int4()), column(70, "b", int4())], None);
    assert_eq!(columns, vec![pb_column(1, "a", int4()), pb_column(2, "b", int4())]);

    let mut columns = vec![pb_column(-3, "a", int4()), pb_column(-7, "b", int4())];
    extend_sink_columns(&mut columns, &[column(70, "c", int4())], Some("u"));
    assert_eq!(columns[2], pb_column(-2, "u_c", int4()));

    let mut columns = vec![pb_column(9, "a", int4()), pb_column(3, "b", int4())];
    extend_sink_columns(&mut columns, &[], None);
    assert_eq!(columns.len(), 2);
}

#[test]
fn fields_are_qualified_by_the_table() {
    let mut fields = vec![Field { name: "x".to_string(), data_type: None }];
    extend_pb_fields(&mut fields, &[column(1, "y", varchar())], "tab");
    assert_eq!(
        fields,
        vec![Field { name: "x".to_string(), data_type: None }, field("tab.y", varchar())]
    );
}

#[test]
fn hidden_added_columns_stay_hidden() {
    let mut added = column(1, "h", int4());
    added.is_hidden = true;
    let mut root = sink(
        SinkNode {
            sink_desc: Some(SinkDesc { column_catalogs: vec![], attributes: vec![] }),
            table: None,
            attributes: vec![],
        },
        vec![],
    );
    let change_set = SinkSchemaChangeSet::for_add_columns(&[added]);
    assert_eq!(rewrite(&mut root, &change_set, &append_only_sink()), Ok(()));
    assert_eq!(root.identity, "StreamSink { type: append-only, columns: [h(hidden)] }");
}

#[test]
fn additions_accumulate() {
    let mut at_once = plan();
    let mut in_steps = plan();
    assert_eq!(rewrite(&mut at_once, &two_columns(), &upsert_sink()), Ok(()));
    let first = SinkSchemaChangeSet::for_add_columns(&[column(5, "b", varchar())]);
    let second = SinkSchemaChangeSet::for_add_columns(&[column(6, "c", int4())]);
    assert_eq!(rewrite(&mut in_steps, &first, &upsert_sink()), Ok(()));
    assert_eq!(rewrite(&mut in_steps, &second, &upsert_sink()), Ok(()));
    assert_eq!(at_once, in_steps);
}

#[test]
fn unsupported_operators_are_refused_after_their_inputs() {
    let mut root = node("p", vec![], vec![merge()], other("Project"));
    let unsupported = RewriteError::UnsupportedOperator { kind: "Project".to_string() };
    assert_eq!(
        unsupported.message(),
        "unsupported operator for sink auto schema change: kind=Project"
    );
    assert_eq!(validate(&root), Err(RewriteError::UnsupportedOperator {
        kind: "Project".to_string()
    }));
    assert_eq!(rewrite(&mut root, &two_columns(), &upsert_sink()), Err(unsupported));
    assert_eq!(root.identity, "p");
    assert_eq!(root.input[0].fields.len(), 3);
}

#[test]
fn other_operators_have_no_rule_whatever_they_are_called() {
    for kind in ["Sink", "StreamScan", "Merge", "BatchPlan"] {
        let mut root = node("o", vec![], vec![], other(kind));
        let unsupported = || Err(RewriteError::UnsupportedOperator { kind: kind.to_string() });
        assert_eq!(validate(&root), unsupported());
        assert_eq!(rewrite(&mut root, &two_columns(), &upsert_sink()), unsupported());
        assert_eq!(rewrite(&mut root, &drop_columns(), &upsert_sink()), unsupported());
        assert_eq!(root, node("o", vec![], vec![], other(kind)));
    }
}

fn can_rewrite(root: &StreamNode, change_set: &SinkSchemaChangeSet, sink: &Sink) -> bool {
    let upstream_table = upstream();
    let ctx = RewriteContext {
        sink,
        upstream_table: &upstream_table,
        upstream_table_fragment_id: 42,
    };
    PlanRewriter::sink_schema().can_rewrite(root, change_set, &ctx)
}

#[test]
fn plans_without_a_body_can_neither_be_validated_nor_rewritten() {
    let rewriter = PlanRewriter::sink_schema();
    assert!(rewriter.can_validate(&plan()));
    assert!(can_rewrite(&plan(), &two_columns(), &upsert_sink()));

    let hollow = sink(sink_body(), vec![merge(), without_body()]);
    assert!(!rewriter.can_validate(&hollow));
    assert!(!can_rewrite(&hollow, &two_columns(), &upsert_sink()));

    let project = node("p", vec![], vec![], other("Project"));
    let stopped = sink(sink_body(), vec![project, without_body()]);
    assert!(rewriter.can_validate(&stopped));
    assert!(can_rewrite(&stopped, &two_columns(), &upsert_sink()));
}

#[test]
fn sinks_that_cannot_number_cannot_be_rewritten() {
    let numbered = |id: i32| {
        let body = SinkNode {
            sink_desc: Some(SinkDesc {
                column_catalogs: vec![pb_column(id, "a", int4())],
                attributes: vec![],
            }),
            table: None,
            attributes: vec![],
        };
        sink(body, vec![])
    };
    let appends = append_only_sink();
    assert!(can_rewrite(&numbered(i32::MAX - 2), &two_columns(), &appends));
    assert!(!can_rewrite(&numbered(i32::MAX - 1), &two_columns(), &appends));
    assert!(!can_rewrite(&numbered(i32::MAX), &two_columns(), &appends));
    assert!(can_rewrite(&numbered(i32::MAX), &drop_columns(), &appends));

    let full = table("log", vec![pb_column(i32::MAX, "kv", int4())]);
    let body = SinkNode { table: Some(full), ..sink_body() };
    assert!(!can_rewrite(&sink(body, vec![]), &two_columns(), &appends));

    let full = table("log", vec![pb_column(i32::MAX, "kv", int4())]);
    let body = SinkNode { sink_desc: None, table: Some(full), ..sink_body() };
    let mut undescribed = sink(body, vec![]);
    assert!(can_rewrite(&undescribed, &two_columns(), &appends));
    assert_eq!(
        rewrite(&mut undescribed, &two_columns(), &appends),
        Err(RewriteError::MissingSinkDesc)
    );
}

#[test]
fn keys_out_of_range_matter_to_sinks_that_show_them() {
    let out_of_range = |position: i32, append_only: bool| Sink {
        sink_type: SinkType { type_str: "x".to_string(), append_only },
        columns: vec![PbColumnCatalog { column_desc: None, is_hidden: false }],
        downstream_pk: vec![position],
    };
    for position in [-1, 0, 1] {
        assert!(!can_rewrite(&plan(), &two_columns(), &out_of_range(position, false)));
        assert!(can_rewrite(&plan(), &two_columns(), &out_of_range(position, true)));
        assert!(can_rewrite(&plan(), &drop_columns(), &out_of_range(position, false)));
    }
}

#[test]
fn inputs_behind_a_refused_one_stay() {
    let project = node("p", vec![], vec![], other("Project"));
    let mut root = sink(sink_body(), vec![merge(), project, merge()]);
    assert!(rewrite(&mut root, &two_columns(), &upsert_sink()).is_err());
    assert_eq!(root.input[0].fields.len(), 3);
    assert_eq!(root.input[2], merge());
    assert_eq!(root.identity, "sink");
}

#[test]
fn operators_behind_a_refused_one_need_no_body() {
    let project = node("p", vec![], vec![], other("Project"));
    let empty = without_body();
    let mut root = sink(sink_body(), vec![project, empty]);
    assert!(validate(&root).is_err());
    assert!(rewrite(&mut root, &two_columns(), &upsert_sink()).is_err());
}

#[test]
fn dropping_columns_is_refused_and_changes_nothing() {
    let mut root = plan();
    assert_eq!(
        rewrite(&mut root, &drop_columns(), &upsert_sink()),
        Err(RewriteError::UnsupportedChange)
    );
    assert_eq!(root, plan());
    for (rule, mut node) in [
        (&SinkRule as &dyn OperatorRule, sink(sink_body(), vec![])),
        (&StreamScanRule, scan(scan_body(), vec![])),
        (&MergeRule, merge()),
    ] {
        assert_eq!(
            rewrite_by(rule, &mut node, &drop_columns()),
            Err(RewriteError::UnsupportedChange)
        );
    }
    let mut batch = batch_plan();
    assert_eq!(rewrite_by(&BatchPlanRule, &mut batch, &drop_columns()), Ok(()));
    assert_eq!(batch, batch_plan());
    assert_eq!(
        RewriteError::UnsupportedChange.message(),
        "only support AddColumns in sink auto schema change"
    );
}

#[test]
fn sinks_need_a_description() {
    let mut root = sink(SinkNode { sink_desc: None, ..sink_body() }, vec![]);
    assert_eq!(
        rewrite(&mut root, &two_columns(), &upsert_sink()),
        Err(RewriteError::MissingSinkDesc)
    );
    assert_eq!(root, sink(SinkNode { sink_desc: None, ..sink_body() }, vec![]));
    assert_eq!(RewriteError::MissingSinkDesc.message(), "sink node must have sink_desc");
}

#[test]
fn scans_without_a_table_description_are_left_half_rewritten() {
    let mut root = scan(StreamScanNode { table_desc: None, ..scan_body() }, vec![]);
    assert_eq!(
        rewrite(&mut root, &two_columns(), &upsert_sink()),
        Err(RewriteError::MissingTableDesc)
    );
    assert_eq!(root.identity, "StreamTableScan { table: t, columns: [t.a, t.b, t.c] }");
    let Some(NodeBody::StreamScan(body)) = &root.node_body else {
        panic!("a scan stays a scan");
    };
    assert_eq!(body.output_indices, vec![0, 2, 3]);
    assert_eq!(body.upstream_column_ids, vec![1, 2, 5, 6]);
    assert_eq!(body.table_desc, None);
    assert_eq!(RewriteError::MissingTableDesc.message(), "stream scan must have table_desc");
}

#[test]
fn rules_refuse_other_kinds() {
    for (rule, mut node, expected, found) in [
        (&SinkRule as &dyn OperatorRule, merge(), "Sink", "Merge"),
        (&StreamScanRule, batch_plan(), "StreamScan", "BatchPlan"),
        (&MergeRule, sink(sink_body(), vec![]), "Merge", "Sink"),
    ] {
        let error = rewrite_by(rule, &mut node, &two_columns()).unwrap_err();
        assert_eq!(
            error.message(),
            format!("expected {} node_body, got {}", expected, found)
        );
        assert_eq!(
            error,
            RewriteError::UnexpectedNodeBody {
                expected: expected.to_string(),
                found: found.to_string()
            }
        );
    }
}

#[test]
fn scans_are_validated() {
    let rule = StreamScanRule;
    assert_eq!(rule.validate(&scan(scan_body(), vec![merge(), batch_plan()])), Ok(()));

    let not_scan = rule.validate(&merge()).unwrap_err();
    assert_eq!(not_scan, RewriteError::NotStreamScan);
    assert_eq!(not_scan.message(), "expected StreamScan node_body");
    let empty = without_body();
    assert_eq!(rule.validate(&empty), Err(RewriteError::NotStreamScan));

    let backfill = StreamScanNode {
        stream_scan_type: StreamScanType::Other("Backfill".to_string()),
        ..scan_body()
    };
    let scan_type = validate(&scan(backfill, vec![merge(), batch_plan()])).unwrap_err();
    assert_eq!(scan_type, RewriteError::UnsupportedScanType { scan_type: "Backfill".to_string() });
    assert_eq!(
        scan_type.message(),
        "unsupported stream_scan_type for auto refresh schema: Backfill"
    );

    let shape = validate(&scan(scan_body(), vec![merge()])).unwrap_err();
    assert_eq!(shape, RewriteError::UnsupportedScanShape { inputs: 1 });
    assert_eq!(
        shape.message(),
        "unsupported StreamScan shape for auto refresh schema: expected 2 inputs, got 1"
    );

    let first = validate(&scan(scan_body(), vec![batch_plan(), batch_plan()])).unwrap_err();
    assert_eq!(first, RewriteError::FirstInputNotMerge { found: "BatchPlan".to_string() });
    assert_eq!(
        first.message(),
        "unsupported StreamScan child[0]: expected Merge, got BatchPlan"
    );

    let second = validate(&scan(scan_body(), vec![merge(), merge()])).unwrap_err();
    assert_eq!(second, RewriteError::SecondInputNotBatchPlan { found: "Merge".to_string() });
    assert_eq!(
        second.message(),
        "unsupported StreamScan child[1]: expected BatchPlan, got Merge"
    );
}

#[test]
fn other_rules_validate_anything() {
    assert_eq!(SinkRule.validate(&merge()), Ok(()));
    assert_eq!(MergeRule.validate(&batch_plan()), Ok(()));
    assert_eq!(BatchPlanRule.validate(&merge()), Ok(()));
}

#[test]
fn decimals() {
    assert_eq!(decimal_text(0), "0");
    assert_eq!(decimal_text(9), "9");
    assert_eq!(decimal_text(10), "10");
    assert_eq!(decimal_text(1234567890), "1234567890");
}
