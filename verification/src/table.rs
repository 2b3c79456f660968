//! The table function that reads columnar files picked by path patterns.

use crate::arguments::{insecure, resolve_files, resolved_files, texts, DataValue, GlobEntry};
use crate::exception::{ErrorCode, ErrorView};
use crate::file_meta::{infer_schema, inference, DataSchema, FieldView, MetaReadOutcome};
use crate::text::frame;
use std::sync::Arc;
use vstd::prelude::*;

verus! {

/// The identity of a table: its number and the number of its revision.
#[derive(Clone, Copy, Debug, PartialEq, Eq, Structural)]
pub struct TableIdent {
    pub table_id: u64,
    pub seq: u64,
}

/// What is kept of a table besides its identity.
#[derive(Debug)]
pub struct TableMeta {
    pub schema: DataSchema,
    pub engine: String,
    /// Seconds since the epoch.
    pub created_on: i64,
    /// Seconds since the epoch.
    pub updated_on: i64,
}

/// The description of a table.
#[derive(Debug)]
pub struct TableInfo {
    pub ident: TableIdent,
    pub desc: String,
    pub name: String,
    pub meta: TableMeta,
}

/// The description of a table as a value.
pub ghost struct TableInfoView {
    pub ident: TableIdent,
    pub desc: Seq<char>,
    pub name: Seq<char>,
    pub schema: Seq<FieldView>,
    pub engine: Seq<char>,
    pub created_on: i64,
    pub updated_on: i64,
}

impl View for TableInfo {
    type V = TableInfoView;

    open spec fn view(&self) -> TableInfoView {
        TableInfoView {
            ident: self.ident,
            desc: self.desc@,
            name: self.name@,
            schema: self.meta.schema@,
            engine: self.meta.engine@,
            created_on: self.meta.created_on,
            updated_on: self.meta.updated_on,
        }
    }
}

/// The description of the table that a call of the function stands for.
/// It is no table of the catalog: its engine says so, it has no revision,
/// and its times are those of the epoch.
pub open spec fn function_table_info(
    database_name: Seq<char>,
    table_func_name: Seq<char>,
    table_id: u64,
    schema: Seq<FieldView>,
) -> TableInfoView {
    TableInfoView {
        ident: TableIdent { table_id, seq: 0 },
        desc: "'"@ + database_name + "'.'"@ + table_func_name + "'"@,
        name: table_func_name,
        schema,
        engine: "SystemReadParquet"@,
        created_on: 0,
        updated_on: 0,
    }
}

/// The table that one call of the function stands for. It does not change
/// once it is made.
#[derive(Debug)]
pub struct ParquetTable {
    table_args: Vec<DataValue>,
    file_locations: Vec<String>,
    table_info: TableInfo,
}

/// A function table as a value.
pub ghost struct TableView {
    pub table_args: Seq<DataValue>,
    pub file_locations: Seq<Seq<char>>,
    pub table_info: TableInfoView,
}

impl View for ParquetTable {
    type V = TableView;

    closed spec fn view(&self) -> TableView {
        TableView {
            table_args: self.table_args@,
            file_locations: texts(self.file_locations@),
            table_info: self.table_info@,
        }
    }
}

/// The table that a call stands for, or the error that the call ends in.
/// `first_meta` is how reading the footer of the first resolved file ended;
/// the schema comes from that file alone.
pub open spec fn created(
    allow_insecure: bool,
    database_name: Seq<char>,
    table_func_name: Seq<char>,
    table_id: u64,
    table_args: Option<Vec<DataValue>>,
    walks: Seq<Vec<GlobEntry>>,
    first_meta: MetaReadOutcome,
) -> Result<TableView, ErrorView> {
    match resolved_files(allow_insecure, table_args, walks) {
        Err(e) => Err(e),
        Ok(files) => match inference(files[0], first_meta) {
            Err(e) => Err(e),
            Ok(schema) => Ok(
                TableView {
                    table_args: table_args.unwrap()@,
                    file_locations: files,
                    table_info: function_table_info(
                        database_name,
                        table_func_name,
                        table_id,
                        schema,
                    ),
                },
            ),
        },
    }
}

impl ParquetTable {
    /// Makes the table for a call of the function with `table_args`.
    /// `allow_insecure` is the setting that permits functions which read
    /// local paths. `walks` holds, for each argument in turn, what the walk
    /// for its pattern met, and `first_meta` how reading the footer of the
    /// first resolved file ended.
    pub fn create(
        allow_insecure: bool,
        database_name: &str,
        table_func_name: &str,
        table_id: u64,
        table_args: Option<Vec<DataValue>>,
        walks: &Vec<Vec<GlobEntry>>,
        first_meta: MetaReadOutcome,
    ) -> (r: Result<Arc<ParquetTable>, ErrorCode>)
        ensures
            match r {
                Ok(table) => created(
                    allow_insecure,
                    database_name@,
                    table_func_name@,
                    table_id,
                    table_args,
                    walks@,
                    first_meta,
                ) == Ok::<TableView, ErrorView>(table@),
                Err(e) => created(
                    allow_insecure,
                    database_name@,
                    table_func_name@,
                    table_id,
                    table_args,
                    walks@,
                    first_meta,
                ) == Err::<TableView, ErrorView>(e@),
            },
    {
        let file_locations = match resolve_files(allow_insecure, &table_args, walks) {
            Ok(files) => files,
            Err(e) => {
                return Err(e);
            },
        };
        assert(texts(file_locations@)[0] == file_locations@[0]@);
        let schema = match infer_schema(file_locations[0].as_str(), first_meta) {
            Ok(schema) => schema,
            Err(e) => {
                return Err(e);
            },
        };
        let mut desc = frame("'", database_name, "'.'");
        desc.push_str(table_func_name);
        desc.push_str("'");
        let table_info = TableInfo {
            ident: TableIdent { table_id, seq: 0 },
            desc,
            name: table_func_name.to_owned(),
            meta: TableMeta {
                schema,
                engine: "SystemReadParquet".to_owned(),
                created_on: 0,
                updated_on: 0,
            },
        };
        let table_args = match table_args {
            Some(args) => args,
            None => Vec::new(),
        };
        Ok(Arc::new(ParquetTable { table_args, file_locations, table_info }))
    }

    /// The files that the table reads, in the order of the arguments that named them.
    pub fn file_locations(&self) -> (files: &Vec<String>)
        ensures
            texts(files@) == self@.file_locations,
    {
        &self.file_locations
    }

    /// The description of the table.
    pub fn get_table_info(&self) -> (info: &TableInfo)
        ensures
            info@ == self@.table_info,
    {
        &self.table_info
    }

    /// The arguments that the table was made with.
    pub fn table_args(&self) -> (args: Option<&Vec<DataValue>>)
        ensures
            args matches Some(a) && a@ == self@.table_args,
    {
        Some(&self.table_args)
    }

    /// The name of the function.
    pub fn function_name(&self) -> (name: &str)
        ensures
            name@ == self@.table_info.name,
    {
        self.table_info.name.as_str()
    }

    /// Reading fewer columns makes a scan of this table cheaper.
    pub fn benefit_column_prune(&self) -> (r: bool)
        ensures
            r,
    {
        true
    }

    /// The table can filter rows before it reads the other columns.
    pub fn support_prewhere(&self) -> (r: bool)
        ensures
            r,
    {
        true
    }

    /// The row counts that the table reports are those of its files.
    pub fn has_exact_total_row_count(&self) -> (r: bool)
        ensures
            r,
    {
        true
    }
}

/// Without the permission to read local paths no table is made, whatever
/// the arguments are.
pub proof fn lemma_permission_is_checked_first(
    database_name: Seq<char>,
    table_func_name: Seq<char>,
    table_id: u64,
    table_args: Option<Vec<DataValue>>,
    walks: Seq<Vec<GlobEntry>>,
    first_meta: MetaReadOutcome,
)
    ensures
        created(false, database_name, table_func_name, table_id, table_args, walks, first_meta)
            == Err::<TableView, ErrorView>(insecure()),
{
}

} // verus!
