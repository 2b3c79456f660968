//! Partition descriptors and scan planning for columnar files, together with
//! the string-literal readers that the engine's text formats share.

pub mod arguments;
pub mod cursor;
pub mod cursor_read_string_ext;
pub mod exception;
pub mod file_meta;
pub mod interpreter_role_revoke;
pub mod parquet_part;
pub mod partitions;
pub mod pipeline;
pub mod plan;
pub mod table;
pub mod text;
