//! Streaming plans: trees of operators, each with its output schema and its own payload.

use vstd::prelude::*;

use crate::catalog::{
    ColumnDesc, ColumnDescView, Field, FieldView, PbColumnCatalog, PbColumnCatalogView, Table,
    TableView,
};
use crate::text::views;

verus! {

/// What a sink operator knows of the sink that it writes to.
#[derive(Debug, PartialEq, Eq)]
pub struct SinkDesc {
    pub column_catalogs: Vec<PbColumnCatalog>,
    /// The remaining attributes in wire encoding. They are carried along.
    pub attributes: Vec<u8>,
}

/// What a [`SinkDesc`] says.
pub struct SinkDescView {
    pub column_catalogs: Seq<PbColumnCatalogView>,
    pub attributes: Seq<u8>,
}

impl View for SinkDesc {
    type V = SinkDescView;

    open spec fn view(&self) -> SinkDescView {
        SinkDescView {
            column_catalogs: views(self.column_catalogs@),
            attributes: self.attributes@,
        }
    }
}

/// The payload of a sink operator.
#[derive(Debug, PartialEq, Eq)]
pub struct SinkNode {
    pub sink_desc: Option<SinkDesc>,
    /// The log store's table, where the sink is decoupled by one.
    pub table: Option<Table>,
    /// The remaining attributes in wire encoding. They are carried along.
    pub attributes: Vec<u8>,
}

/// What a [`SinkNode`] says.
pub struct SinkNodeView {
    pub sink_desc: Option<SinkDescView>,
    pub table: Option<TableView>,
    pub attributes: Seq<u8>,
}

impl View for SinkNode {
    type V = SinkNodeView;

    open spec fn view(&self) -> SinkNodeView {
        SinkNodeView {
            sink_desc: match self.sink_desc {
                Some(desc) => Some(desc@),
                None => None,
            },
            table: match self.table {
                Some(table) => Some(table@),
                None => None,
            },
            attributes: self.attributes@,
        }
    }
}

/// How a stream scan obtains the upstream's existing rows.
#[derive(Debug, PartialEq, Eq)]
pub enum StreamScanType {
    ArrangementBackfill,
    /// Any other way, by its name.
    Other(String),
}

/// What a [`StreamScanType`] says.
pub enum StreamScanTypeView {
    ArrangementBackfill,
    Other(Seq<char>),
}

impl View for StreamScanType {
    type V = StreamScanTypeView;

    open spec fn view(&self) -> StreamScanTypeView {
        match self {
            StreamScanType::ArrangementBackfill => StreamScanTypeView::ArrangementBackfill,
            StreamScanType::Other(name) => StreamScanTypeView::Other(name@),
        }
    }
}

/// The storage-level description of the table that a scan reads.
#[derive(Debug, PartialEq, Eq)]
pub struct TableDesc {
    pub columns: Vec<ColumnDesc>,
    /// Positions in `columns` that are stored in a row's value.
    pub value_indices: Vec<u32>,
    /// The remaining attributes in wire encoding. They are carried along.
    pub attributes: Vec<u8>,
}

/// What a [`TableDesc`] says.
pub struct TableDescView {
    pub columns: Seq<ColumnDescView>,
    pub value_indices: Seq<u32>,
    pub attributes: Seq<u8>,
}

impl View for TableDesc {
    type V = TableDescView;

    open spec fn view(&self) -> TableDescView {
        TableDescView {
            columns: views(self.columns@),
            value_indices: self.value_indices@,
            attributes: self.attributes@,
        }
    }
}

/// The payload of a stream scan operator.
#[derive(Debug, PartialEq, Eq)]
pub struct StreamScanNode {
    pub stream_scan_type: StreamScanType,
    pub arrangement_table: Option<Table>,
    /// The ids of the upstream columns that the scan reads.
    pub upstream_column_ids: Vec<i32>,
    /// Positions in `upstream_column_ids` that the scan outputs.
    pub output_indices: Vec<u32>,
    pub table_desc: Option<TableDesc>,
    /// The remaining attributes in wire encoding. They are carried along.
    pub attributes: Vec<u8>,
}

/// What a [`StreamScanNode`] says.
pub struct StreamScanNodeView {
    pub stream_scan_type: StreamScanTypeView,
    pub arrangement_table: Option<TableView>,
    pub upstream_column_ids: Seq<i32>,
    pub output_indices: Seq<u32>,
    pub table_desc: Option<TableDescView>,
    pub attributes: Seq<u8>,
}

impl View for StreamScanNode {
    type V = StreamScanNodeView;

    open spec fn view(&self) -> StreamScanNodeView {
        StreamScanNodeView {
            stream_scan_type: self.stream_scan_type@,
            arrangement_table: match self.arrangement_table {
                Some(table) => Some(table@),
                None => None,
            },
            upstream_column_ids: self.upstream_column_ids@,
            output_indices: self.output_indices@,
            table_desc: match self.table_desc {
                Some(desc) => Some(desc@),
                None => None,
            },
            attributes: self.attributes@,
        }
    }
}

/// The payload of a merge operator.
#[derive(Debug, PartialEq, Eq)]
pub struct MergeNode {
    pub upstream_fragment_id: u32,
    /// The remaining attributes in wire encoding. They are carried along.
    pub attributes: Vec<u8>,
}

/// What a [`MergeNode`] says.
pub struct MergeNodeView {
    pub upstream_fragment_id: u32,
    pub attributes: Seq<u8>,
}

impl View for MergeNode {
    type V = MergeNodeView;

    open spec fn view(&self) -> MergeNodeView {
        MergeNodeView {
            upstream_fragment_id: self.upstream_fragment_id,
            attributes: self.attributes@,
        }
    }
}

/// What an operator is, and the payload of its kind.
#[derive(Debug, PartialEq, Eq)]
pub enum NodeBody {
    Sink(SinkNode),
    StreamScan(StreamScanNode),
    Merge(MergeNode),
    /// A batch plan, with its payload in wire encoding.
    BatchPlan { attributes: Vec<u8> },
    /// An operator of any other kind, by the kind's name, with its payload in wire encoding.
    Other { kind: String, attributes: Vec<u8> },
}

/// What a [`NodeBody`] says.
pub enum NodeBodyView {
    Sink(SinkNodeView),
    StreamScan(StreamScanNodeView),
    Merge(MergeNodeView),
    BatchPlan { attributes: Seq<u8> },
    Other { kind: Seq<char>, attributes: Seq<u8> },
}

impl View for NodeBody {
    type V = NodeBodyView;

    open spec fn view(&self) -> NodeBodyView {
        match self {
            NodeBody::Sink(sink) => NodeBodyView::Sink(sink@),
            NodeBody::StreamScan(scan) => NodeBodyView::StreamScan(scan@),
            NodeBody::Merge(merge) => NodeBodyView::Merge(merge@),
            NodeBody::BatchPlan { attributes } => NodeBodyView::BatchPlan {
                attributes: attributes@,
            },
            NodeBody::Other { kind, attributes } => NodeBodyView::Other {
                kind: kind@,
                attributes: attributes@,
            },
        }
    }
}

impl NodeBodyView {
    /// The name of the operator's kind.
    pub open spec fn kind(self) -> Seq<char> {
        match self {
            NodeBodyView::Sink(_) => "Sink"@,
            NodeBodyView::StreamScan(_) => "StreamScan"@,
            NodeBodyView::Merge(_) => "Merge"@,
            NodeBodyView::BatchPlan { .. } => "BatchPlan"@,
            NodeBodyView::Other { kind, .. } => kind,
        }
    }
}

impl NodeBody {
    /// The name of the operator's kind.
    pub fn kind(&self) -> (kind: String)
        ensures
            kind@ == self@.kind(),
    {
        match self {
            NodeBody::Sink(_) => "Sink".to_owned(),
            NodeBody::StreamScan(_) => "StreamScan".to_owned(),
            NodeBody::Merge(_) => "Merge".to_owned(),
            NodeBody::BatchPlan { .. } => "BatchPlan".to_owned(),
            NodeBody::Other { kind, .. } => kind.clone(),
        }
    }
}

/// One operator of a plan, with the operators that feed it.
#[derive(Debug, PartialEq, Eq)]
pub struct StreamNode {
    /// The operator as plan listings show it.
    pub identity: String,
    /// The operator's output schema.
    pub fields: Vec<Field>,
    pub input: Vec<StreamNode>,
    pub node_body: Option<NodeBody>,
    /// The remaining attributes in wire encoding. They are carried along.
    pub attributes: Vec<u8>,
}

/// What a [`StreamNode`] says.
pub struct StreamNodeView {
    pub identity: Seq<char>,
    pub fields: Seq<FieldView>,
    pub input: Seq<StreamNodeView>,
    pub node_body: Option<NodeBodyView>,
    pub attributes: Seq<u8>,
}

impl StreamNode {
    /// The plan as a mathematical tree.
    pub open spec fn view(&self) -> StreamNodeView
        decreases *self,
    {
        StreamNodeView {
            identity: self.identity@,
            fields: views(self.fields@),
            input: Seq::new(
                self.input@.len(),
                |i: int|
                    if 0 <= i < self.input@.len() {
                        self.input@[i].view()
                    } else {
                        arbitrary()
                    },
            ),
            node_body: match self.node_body {
                Some(body) => Some(body@),
                None => None,
            },
            attributes: self.attributes@,
        }
    }
}

} // verus!
