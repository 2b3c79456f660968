//! What the footer of a columnar file says, and the schema inferred from it.

use crate::exception::{ErrorCode, ErrorKind, ErrorView};
use crate::parquet_part::{Compression, MinMax};
use crate::text::{frame, lowercase};
use vstd::prelude::*;

verus! {

/// How the values of a column are laid down in the file.
#[derive(Clone, Copy, Debug, PartialEq, Eq, Structural)]
pub enum PhysicalType {
    Boolean,
    Int32,
    Int64,
    Int96,
    Float,
    Double,
    ByteArray,
    FixedLenByteArray(usize),
}

/// The chunk of one column inside a row group.
#[derive(Debug)]
pub struct ColumnChunkMeta {
    /// The column's name, as the file spells it.
    pub name: String,
    pub physical_type: PhysicalType,
    pub offset: u64,
    pub length: u64,
    pub compression: Compression,
    pub min_max: Option<MinMax>,
}

/// One row group: a chunk for each column, over the same rows.
#[derive(Debug)]
pub struct RowGroupMeta {
    pub columns: Vec<ColumnChunkMeta>,
    pub num_rows: usize,
}

/// The footer of one file.
#[derive(Debug)]
pub struct FileMetaData {
    pub num_rows: usize,
    pub row_groups: Vec<RowGroupMeta>,
}

/// The footer of a file together with the place the file was read from.
#[derive(Debug)]
pub struct ParquetFileMeta {
    pub location: String,
    pub file_meta: FileMetaData,
}

/// How an attempt to read the footer of a file ended.
#[derive(Debug)]
pub enum MetaReadOutcome {
    /// The footer was read and decoded.
    Read(FileMetaData),
    /// The file could not be opened; the text says why.
    OpenFailed(String),
    /// The footer could not be decoded; the text says why.
    DecodeFailed(String),
}

/// One column of a table: its name and the type of its values.
#[derive(Debug)]
pub struct DataField {
    pub name: String,
    pub data_type: PhysicalType,
}

/// The columns of a table, in order.
#[derive(Debug)]
pub struct DataSchema {
    pub fields: Vec<DataField>,
}

/// A column of a table as a value.
pub ghost struct FieldView {
    pub name: Seq<char>,
    pub data_type: PhysicalType,
}

impl View for DataField {
    type V = FieldView;

    open spec fn view(&self) -> FieldView {
        FieldView { name: self.name@, data_type: self.data_type }
    }
}

impl View for DataSchema {
    type V = Seq<FieldView>;

    open spec fn view(&self) -> Seq<FieldView> {
        self.fields@.map_values(|f: DataField| f@)
    }
}

/// The error for a file that could not be opened.
pub open spec fn open_failure(location: Seq<char>, cause: Seq<char>) -> ErrorView {
    ErrorView {
        kind: ErrorKind::MetadataReadFailed,
        message: "Failed to open file '"@ + location + "': "@ + cause,
    }
}

/// The error for a footer that could not be decoded.
pub open spec fn decode_failure(location: Seq<char>, cause: Seq<char>) -> ErrorView {
    ErrorView {
        kind: ErrorKind::MetadataReadFailed,
        message: "Read parquet file '"@ + location + "''s meta error: "@ + cause,
    }
}

/// The error for a file without row groups.
pub open spec fn empty_file(location: Seq<char>) -> ErrorView {
    ErrorView {
        kind: ErrorKind::EmptyFile,
        message: "No row groups found in parquet file '"@ + location + "'"@,
    }
}

/// The error that a failed read of the file at `location` ends in, if it failed.
pub open spec fn read_failure(location: Seq<char>, outcome: MetaReadOutcome) -> Option<ErrorView> {
    match outcome {
        MetaReadOutcome::Read(_) => None,
        MetaReadOutcome::OpenFailed(cause) => Some(open_failure(location, cause@)),
        MetaReadOutcome::DecodeFailed(cause) => Some(decode_failure(location, cause@)),
    }
}

/// The footer of the file at `location`, or the error that says why it
/// could not be had.
pub fn read_parquet_meta(location: &str, outcome: MetaReadOutcome) -> (r: Result<
    FileMetaData,
    ErrorCode,
>)
    ensures
        match r {
            Ok(meta) => outcome == MetaReadOutcome::Read(meta),
            Err(e) => read_failure(location@, outcome) == Some(e@),
        },
{
    match outcome {
        MetaReadOutcome::Read(meta) => Ok(meta),
        MetaReadOutcome::OpenFailed(cause) => {
            let mut message = frame("Failed to open file '", location, "': ");
            message.push_str(cause.as_str());
            Err(ErrorCode { kind: ErrorKind::MetadataReadFailed, message })
        },
        MetaReadOutcome::DecodeFailed(cause) => {
            let mut message = frame("Read parquet file '", location, "''s meta error: ");
            message.push_str(cause.as_str());
            Err(ErrorCode { kind: ErrorKind::MetadataReadFailed, message })
        },
    }
}

/// The field that a column chunk stands for: the column's name in lower
/// case, with the chunk's type.
pub open spec fn inferred_field(column: ColumnChunkMeta) -> FieldView {
    FieldView { name: lowercase(column.name@), data_type: column.physical_type }
}

/// The schema of a file: one field for each column chunk of its first row
/// group, in their order. A file without row groups has none.
pub open spec fn inferred_schema(meta: FileMetaData) -> Option<Seq<FieldView>> {
    if meta.row_groups@.len() == 0 {
        None
    } else {
        Some(meta.row_groups@[0].columns@.map_values(|c: ColumnChunkMeta| inferred_field(c)))
    }
}

/// What schema inference on the file at `location` ends in, given how
/// reading its footer ended.
pub open spec fn inference(location: Seq<char>, outcome: MetaReadOutcome) -> Result<
    Seq<FieldView>,
    ErrorView,
> {
    match outcome {
        MetaReadOutcome::Read(meta) => match inferred_schema(meta) {
            Some(fields) => Ok(fields),
            None => Err(empty_file(location)),
        },
        _ => Err(read_failure(location, outcome).unwrap()),
    }
}

/// Infers the schema of the file at `location` from its footer.
pub fn infer_schema(location: &str, outcome: MetaReadOutcome) -> (r: Result<DataSchema, ErrorCode>)
    ensures
        match r {
            Ok(schema) => inference(location@, outcome) == Ok::<Seq<FieldView>, ErrorView>(schema@),
            Err(e) => inference(location@, outcome) == Err::<Seq<FieldView>, ErrorView>(e@),
        },
{
    let meta = match read_parquet_meta(location, outcome) {
        Ok(meta) => meta,
        Err(e) => {
            return Err(e);
        },
    };
    if meta.row_groups.len() == 0 {
        let message = frame("No row groups found in parquet file '", location, "'");
        return Err(ErrorCode { kind: ErrorKind::EmptyFile, message });
    }
    let columns = &meta.row_groups[0].columns;
    let mut fields: Vec<DataField> = Vec::with_capacity(columns.len());
    let mut i: usize = 0;
    while i < columns.len()
        invariant
            i <= columns.len(),
            fields.len() == i,
            forall|j: int| 0 <= j < i ==> (#[trigger] fields@[j])@ == inferred_field(columns@[j]),
        decreases columns.len() - i,
    {
        let column = &columns[i];
        fields.push(
            DataField {
                name: column.name.as_str().to_lowercase(),
                data_type: column.physical_type,
            },
        );
        i = i + 1;
    }
    let schema = DataSchema { fields };
    assert(schema@ =~= inferred_schema(meta).unwrap());
    Ok(schema)
}

/// A file without row groups has no schema to infer: inference on it
/// fails, and the error names the file.
pub proof fn lemma_no_row_groups_no_schema(location: Seq<char>, meta: FileMetaData)
    requires
        meta.row_groups@.len() == 0,
    ensures
        inference(location, MetaReadOutcome::Read(meta)) == Err::<Seq<FieldView>, ErrorView>(
            empty_file(location),
        ),
        empty_file(location).kind == ErrorKind::EmptyFile,
{
}

/// The names of an inferred schema are the lower-case forms of the
/// columns' names, and nothing else of a column's name enters it.
pub proof fn lemma_inferred_names_are_lower_case(meta: FileMetaData, index: int)
    requires
        0 <= index < first_row_group_len(meta),
    ensures
        inferred_schema(meta) matches Some(fields) && fields[index].name == lowercase(
            meta.row_groups@[0].columns@[index].name@,
        ),
{
}

/// The number of columns in the first row group of a file, or 0 where it has none.
pub open spec fn first_row_group_len(meta: FileMetaData) -> int {
    if meta.row_groups@.len() == 0 {
        0
    } else {
        meta.row_groups@[0].columns@.len() as int
    }
}

} // verus!
