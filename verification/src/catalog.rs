//! Columns, fields, tables and sinks: the catalog values that a plan refers to.

use vstd::prelude::*;

use crate::text::views;

verus! {

/// A logical data type in its wire encoding. It is carried along and never looked into.
#[derive(Debug, PartialEq, Eq)]
pub struct DataType {
    pub encoded: Vec<u8>,
}

impl View for DataType {
    type V = Seq<u8>;

    open spec fn view(&self) -> Seq<u8> {
        self.encoded@
    }
}

impl Clone for DataType {
    fn clone(&self) -> (copy: Self)
        ensures
            copy@ == self@,
    {
        DataType { encoded: self.encoded.clone() }
    }
}

/// A column of a table or a sink: its id, its name, its type, and what else describes it.
#[derive(Debug, PartialEq, Eq)]
pub struct ColumnDesc {
    pub column_id: i32,
    pub name: String,
    pub data_type: DataType,
    /// The remaining attributes (nullability, default expression and the like) in wire encoding.
    pub attributes: Vec<u8>,
}

/// What a [`ColumnDesc`] says.
pub struct ColumnDescView {
    pub column_id: int,
    pub name: Seq<char>,
    pub data_type: Seq<u8>,
    pub attributes: Seq<u8>,
}

impl View for ColumnDesc {
    type V = ColumnDescView;

    open spec fn view(&self) -> ColumnDescView {
        ColumnDescView {
            column_id: self.column_id as int,
            name: self.name@,
            data_type: self.data_type@,
            attributes: self.attributes@,
        }
    }
}

impl Clone for ColumnDesc {
    fn clone(&self) -> (copy: Self)
        ensures
            copy@ == self@,
    {
        ColumnDesc {
            column_id: self.column_id,
            name: self.name.clone(),
            data_type: self.data_type.clone(),
            attributes: self.attributes.clone(),
        }
    }
}

/// A column as the catalog knows it.
#[derive(Debug, PartialEq, Eq)]
pub struct ColumnCatalog {
    pub column_desc: ColumnDesc,
    pub is_hidden: bool,
}

/// What a [`ColumnCatalog`] says.
pub struct ColumnCatalogView {
    pub column_desc: ColumnDescView,
    pub is_hidden: bool,
}

impl View for ColumnCatalog {
    type V = ColumnCatalogView;

    open spec fn view(&self) -> ColumnCatalogView {
        ColumnCatalogView { column_desc: self.column_desc@, is_hidden: self.is_hidden }
    }
}

impl Clone for ColumnCatalog {
    fn clone(&self) -> (copy: Self)
        ensures
            copy@ == self@,
    {
        ColumnCatalog { column_desc: self.column_desc.clone(), is_hidden: self.is_hidden }
    }
}

impl ColumnCatalogView {
    /// The message form of the column: the same description, present.
    pub open spec fn to_protobuf(self) -> PbColumnCatalogView {
        PbColumnCatalogView { column_desc: Some(self.column_desc), is_hidden: self.is_hidden }
    }
}

impl ColumnCatalog {
    /// The message form of the column.
    pub fn to_protobuf(&self) -> (message: PbColumnCatalog)
        ensures
            message@ == self@.to_protobuf(),
    {
        PbColumnCatalog {
            column_desc: Some(self.column_desc.clone()),
            is_hidden: self.is_hidden,
        }
    }
}

/// A column as a plan message holds it. The description may be absent from the message.
#[derive(Debug, PartialEq, Eq)]
pub struct PbColumnCatalog {
    pub column_desc: Option<ColumnDesc>,
    pub is_hidden: bool,
}

/// What a [`PbColumnCatalog`] says.
pub struct PbColumnCatalogView {
    pub column_desc: Option<ColumnDescView>,
    pub is_hidden: bool,
}

impl View for PbColumnCatalog {
    type V = PbColumnCatalogView;

    open spec fn view(&self) -> PbColumnCatalogView {
        PbColumnCatalogView {
            column_desc: match self.column_desc {
                Some(desc) => Some(desc@),
                None => None,
            },
            is_hidden: self.is_hidden,
        }
    }
}

impl Clone for PbColumnCatalog {
    fn clone(&self) -> (copy: Self)
        ensures
            copy@ == self@,
    {
        PbColumnCatalog {
            column_desc: match &self.column_desc {
                Some(desc) => Some(desc.clone()),
                None => None,
            },
            is_hidden: self.is_hidden,
        }
    }
}

impl PbColumnCatalogView {
    /// The column's name as plans show it: a hidden column is marked.
    pub open spec fn name_with_hidden(self) -> Seq<char> {
        if self.is_hidden {
            self.column_desc->0.name + "(hidden)"@
        } else {
            self.column_desc->0.name
        }
    }
}

impl PbColumnCatalog {
    /// The column's name as plans show it, `name` or `name(hidden)`.
    pub fn name_with_hidden(&self) -> (name: String)
        requires
            self.column_desc is Some,
        ensures
            name@ == self@.name_with_hidden(),
    {
        let desc = self.column_desc.as_ref().unwrap();
        let mut name = desc.name.clone();
        if self.is_hidden {
            name.append("(hidden)");
        }
        name
    }
}

/// One field of an operator's output schema.
#[derive(Debug, PartialEq, Eq)]
pub struct Field {
    pub name: String,
    pub data_type: Option<DataType>,
}

/// What a [`Field`] says.
pub struct FieldView {
    pub name: Seq<char>,
    pub data_type: Option<Seq<u8>>,
}

impl View for Field {
    type V = FieldView;

    open spec fn view(&self) -> FieldView {
        FieldView {
            name: self.name@,
            data_type: match self.data_type {
                Some(data_type) => Some(data_type@),
                None => None,
            },
        }
    }
}

/// A table: its name, its columns, and what else describes it.
#[derive(Debug, PartialEq, Eq)]
pub struct Table {
    pub name: String,
    pub columns: Vec<PbColumnCatalog>,
    /// The remaining attributes (keys, distribution and the like) in wire encoding.
    pub attributes: Vec<u8>,
}

/// What a [`Table`] says.
pub struct TableView {
    pub name: Seq<char>,
    pub columns: Seq<PbColumnCatalogView>,
    pub attributes: Seq<u8>,
}

impl View for Table {
    type V = TableView;

    open spec fn view(&self) -> TableView {
        TableView {
            name: self.name@,
            columns: views(self.columns@),
            attributes: self.attributes@,
        }
    }
}

impl Clone for Table {
    fn clone(&self) -> (copy: Self)
        ensures
            copy@ == self@,
    {
        let columns = self.columns.clone();
        assert(views(columns@) =~= views(self.columns@));
        Table { name: self.name.clone(), columns, attributes: self.attributes.clone() }
    }
}

/// How a sink writes its changes.
#[derive(Debug, PartialEq, Eq)]
pub struct SinkType {
    /// The type as the sink's options and plans spell it, such as `upsert`.
    pub type_str: String,
    /// Whether the sink only ever appends rows.
    pub append_only: bool,
}

/// What a [`SinkType`] says.
pub struct SinkTypeView {
    pub type_str: Seq<char>,
    pub append_only: bool,
}

impl View for SinkType {
    type V = SinkTypeView;

    open spec fn view(&self) -> SinkTypeView {
        SinkTypeView { type_str: self.type_str@, append_only: self.append_only }
    }
}

/// A sink of the catalog.
#[derive(Debug, PartialEq, Eq)]
pub struct Sink {
    pub sink_type: SinkType,
    pub columns: Vec<PbColumnCatalog>,
    /// Positions in `columns` of the key that the downstream system uses.
    pub downstream_pk: Vec<i32>,
}

/// What a [`Sink`] says.
pub struct SinkView {
    pub sink_type: SinkTypeView,
    pub columns: Seq<PbColumnCatalogView>,
    pub downstream_pk: Seq<i32>,
}

impl View for Sink {
    type V = SinkView;

    open spec fn view(&self) -> SinkView {
        SinkView {
            sink_type: self.sink_type@,
            columns: views(self.columns@),
            downstream_pk: self.downstream_pk@,
        }
    }
}

} // verus!
