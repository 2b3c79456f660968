use parquet_scan::exception::{ErrorCode, ErrorKind};
use parquet_scan::file_meta::{
    infer_schema, read_parquet_meta, ColumnChunkMeta, FileMetaData, MetaReadOutcome,
    ParquetFileMeta, PhysicalType, RowGroupMeta,
};
use parquet_scan::parquet_part::{
    Compression, MinMax, OpaquePartInfo, ParquetColumnMeta, ParquetPartInfo, PartInfo,
    PartInfoPtr,
};
use parquet_scan::plan::{asks_for, PartStatistics, PushDownInfo};
use parquet_scan::arguments::{collect_matches, resolve_files, DataValue, GlobEntry};
use parquet_scan::partitions::FORMAT_VERSION;
use parquet_scan::pipeline::Pipeline;
use parquet_scan::table::ParquetTable;
use std::sync::Arc;

fn text(s: &str) -> DataValue {
    DataValue::String(s.as_bytes().to_vec())
}

fn found(paths: &[&str]) -> Vec<GlobEntry> {
    paths.iter().map(|p| Ok(p.to_string())).collect()
}

fn column(name: &str, physical_type: PhysicalType, offset: u64, length: u64) -> ColumnChunkMeta {
    ColumnChunkMeta {
        name: name.to_string(),
        physical_type,
        offset,
        length,
        compression: Compression::Snappy,
        min_max: None,
    }
}

fn file_meta(num_rows: usize, groups: Vec<Vec<ColumnChunkMeta>>) -> FileMetaData {
    FileMetaData {
        num_rows,
        row_groups: groups
            .into_iter()
            .map(|columns| RowGroupMeta { columns, num_rows })
            .collect(),
    }
}

fn two_columns(num_rows: usize) -> FileMetaData {
    file_meta(
        num_rows,
        vec![vec![
            column("Id", PhysicalType::Int64, 4, 100),
            column("MixedCase", PhysicalType::ByteArray, 104, 60),
        ]],
    )
}

fn check(err: ErrorCode, kind: ErrorKind, message: &str) {
    assert_eq!(err.kind(), kind);
    assert_eq!(err.message(), message);
}

fn two_file_table() -> Arc<ParquetTable> {
    ParquetTable::create(
        true,
        "default",
        "read_parquet",
        42,
        Some(vec![text("*.parquet")]),
        &vec![found(&["a.parquet", "b.parquet"])],
        MetaReadOutcome::Read(two_columns(3)),
    )
    .unwrap()
}

#[test]
fn a_call_without_permission_is_refused() {
    let err = resolve_files(false, &Some(vec![text("*.parquet")]), &vec![found(&["a.parquet"])])
        .unwrap_err();
    check(
        err,
        ErrorKind::SecurityDisabled,
        "Should enable `allow_insecure` to use table function `read_parquet`",
    );
    let err = ParquetTable::create(
        false,
        "default",
        "read_parquet",
        1,
        Some(vec![text("*.parquet")]),
        &vec![found(&["a.parquet"])],
        MetaReadOutcome::Read(two_columns(1)),
    )
    .unwrap_err();
    assert_eq!(err.kind(), ErrorKind::SecurityDisabled);
    let err = resolve_files(false, &None, &vec![]).unwrap_err();
    assert_eq!(err.kind(), ErrorKind::SecurityDisabled);
}

#[test]
fn a_call_without_arguments_is_refused() {
    let err = resolve_files(true, &None, &vec![]).unwrap_err();
    check(err, ErrorKind::BadArguments, "read_parquet needs at least one argument");
    let err = resolve_files(true, &Some(vec![]), &vec![]).unwrap_err();
    check(err, ErrorKind::BadArguments, "read_parquet needs at least one argument");
}

#[test]
fn an_argument_that_is_no_string_is_refused() {
    let err = resolve_files(true, &Some(vec![DataValue::UInt64(7)]), &vec![found(&["a"])])
        .unwrap_err();
    check(err, ErrorKind::BadArguments, "read_parquet only accepts string arguments");
    for arg in [DataValue::Null, DataValue::Boolean(true), DataValue::Int64(-1)] {
        let err = resolve_files(true, &Some(vec![text("a"), arg]), &vec![found(&["a"])])
            .unwrap_err();
        check(err, ErrorKind::BadArguments, "read_parquet only accepts string arguments");
    }
}

#[test]
fn a_string_that_is_no_text_is_refused() {
    let err = resolve_files(true, &Some(vec![DataValue::String(vec![0xff, 0xfe])]), &vec![])
        .unwrap_err();
    check(err, ErrorKind::BadArguments, "read_parquet only accepts string arguments");
}

#[test]
fn a_malformed_pattern_is_refused_before_its_walk_is_read() {
    let err = resolve_files(true, &Some(vec![text("a/**b")]), &vec![found(&["a/b"])])
        .unwrap_err();
    check(
        err,
        ErrorKind::GlobExpansionFailed,
        "glob error: Pattern syntax error near position 4: recursive wildcards must form a single path component",
    );
    let err = resolve_files(true, &Some(vec![text("abc[def")]), &vec![]).unwrap_err();
    check(
        err,
        ErrorKind::GlobExpansionFailed,
        "glob error: Pattern syntax error near position 3: invalid range pattern",
    );
    let err = resolve_files(true, &Some(vec![text("a***")]), &vec![]).unwrap_err();
    check(
        err,
        ErrorKind::GlobExpansionFailed,
        "glob error: Pattern syntax error near position 3: wildcards are either regular `*` or recursive `**`",
    );
}

#[test]
fn an_error_of_the_walk_fails_the_call() {
    let walk: Vec<GlobEntry> = vec![
        Ok("a.parquet".to_string()),
        Err("Permission denied (os error 13)".to_string()),
        Ok("b.parquet".to_string()),
    ];
    let err = resolve_files(true, &Some(vec![text("*.parquet")]), &vec![walk]).unwrap_err();
    check(err, ErrorKind::GlobExpansionFailed, "glob error: Permission denied (os error 13)");
}

#[test]
fn the_first_failing_argument_decides() {
    let err = resolve_files(
        true,
        &Some(vec![text("abc[def"), DataValue::UInt64(1)]),
        &vec![vec![], vec![]],
    )
    .unwrap_err();
    assert_eq!(err.kind(), ErrorKind::GlobExpansionFailed);
    let err = resolve_files(
        true,
        &Some(vec![DataValue::UInt64(1), text("abc[def")]),
        &vec![vec![], vec![]],
    )
    .unwrap_err();
    assert_eq!(err.kind(), ErrorKind::BadArguments);
}

#[test]
fn patterns_that_match_nothing_are_refused() {
    let err = resolve_files(true, &Some(vec![text("*.parquet")]), &vec![vec![]]).unwrap_err();
    check(err, ErrorKind::BadArguments, "No matched files found for read_parquet");
    let err = resolve_files(true, &Some(vec![text("*.parquet"), text("x")]), &vec![]).unwrap_err();
    check(err, ErrorKind::BadArguments, "No matched files found for read_parquet");
}

#[test]
fn files_come_in_the_order_of_the_arguments() {
    let files = resolve_files(
        true,
        &Some(vec![text("b/*.parquet"), text("nothing"), text("a/[xy].parquet")]),
        &vec![found(&["b/2.parquet", "b/1.parquet"]), vec![], found(&["a/x.parquet"])],
    )
    .unwrap();
    assert_eq!(files, vec!["b/2.parquet", "b/1.parquet", "a/x.parquet"]);
}

#[test]
fn matches_are_added_up_to_the_first_error() {
    let mut files = vec!["seen".to_string()];
    let walk: Vec<GlobEntry> =
        vec![Ok("a".to_string()), Err("gone".to_string()), Ok("b".to_string())];
    let err = collect_matches(None, &walk, &mut files).unwrap_err();
    check(err, ErrorKind::GlobExpansionFailed, "glob error: gone");
    assert_eq!(files, vec!["seen", "a"]);
    let err = collect_matches(Some("bad".to_string()), &walk, &mut files).unwrap_err();
    check(err, ErrorKind::GlobExpansionFailed, "glob error: bad");
    assert_eq!(files, vec!["seen", "a"]);
    assert!(collect_matches(None, &found(&["c", "d"]), &mut files).is_ok());
    assert_eq!(files, vec!["seen", "a", "c", "d"]);
}

#[test]
fn a_footer_that_cannot_be_read_fails_with_the_location() {
    let err = read_parquet_meta(
        "a.parquet",
        MetaReadOutcome::OpenFailed("No such file or directory (os error 2)".to_string()),
    )
    .unwrap_err();
    check(
        err,
        ErrorKind::MetadataReadFailed,
        "Failed to open file 'a.parquet': No such file or directory (os error 2)",
    );
    let err = infer_schema("a.parquet", MetaReadOutcome::DecodeFailed("Invalid magic".to_string()))
        .unwrap_err();
    check(
        err,
        ErrorKind::MetadataReadFailed,
        "Read parquet file 'a.parquet''s meta error: Invalid magic",
    );
    let meta = read_parquet_meta("a.parquet", MetaReadOutcome::Read(two_columns(5))).unwrap();
    assert_eq!(meta.num_rows, 5);
    assert_eq!(meta.row_groups.len(), 1);
}

#[test]
fn a_file_without_row_groups_has_no_schema() {
    let err = infer_schema("empty.parquet", MetaReadOutcome::Read(file_meta(0, vec![])))
        .unwrap_err();
    check(err, ErrorKind::EmptyFile, "No row groups found in parquet file 'empty.parquet'");
}

#[test]
fn inferred_names_are_lower_case() {
    let schema = infer_schema("a.parquet", MetaReadOutcome::Read(two_columns(5))).unwrap();
    assert_eq!(schema.fields.len(), 2);
    assert_eq!(schema.fields[0].name, "id");
    assert_eq!(schema.fields[0].data_type, PhysicalType::Int64);
    assert_eq!(schema.fields[1].name, "mixedcase");
    assert_eq!(schema.fields[1].data_type, PhysicalType::ByteArray);
}

#[test]
fn the_schema_comes_from_the_first_row_group() {
    let meta = file_meta(
        2,
        vec![
            vec![column("ÄB", PhysicalType::FixedLenByteArray(16), 4, 8)],
            vec![column("other", PhysicalType::Boolean, 12, 8), column("more", PhysicalType::Int32, 20, 8)],
        ],
    );
    let schema = infer_schema("a.parquet", MetaReadOutcome::Read(meta)).unwrap();
    assert_eq!(schema.fields.len(), 1);
    assert_eq!(schema.fields[0].name, "äb");
    assert_eq!(schema.fields[0].data_type, PhysicalType::FixedLenByteArray(16));
}

#[test]
fn a_table_describes_the_call_it_stands_for() {
    let table = two_file_table();
    assert_eq!(table.file_locations(), &vec!["a.parquet".to_string(), "b.parquet".to_string()]);
    assert_eq!(table.function_name(), "read_parquet");
    assert_eq!(table.table_args().unwrap().len(), 1);
    assert!(matches!(&table.table_args().unwrap()[0], DataValue::String(s) if s == b"*.parquet"));
    let info = table.get_table_info();
    assert_eq!(info.ident.table_id, 42);
    assert_eq!(info.ident.seq, 0);
    assert_eq!(info.desc, "'default'.'read_parquet'");
    assert_eq!(info.name, "read_parquet");
    assert_eq!(info.meta.engine, "SystemReadParquet");
    assert_eq!(info.meta.created_on, 0);
    assert_eq!(info.meta.updated_on, 0);
    assert_eq!(info.meta.schema.fields.len(), 2);
    assert_eq!(info.meta.schema.fields[1].name, "mixedcase");
    assert!(table.benefit_column_prune());
    assert!(table.support_prewhere());
    assert!(table.has_exact_total_row_count());
}

#[test]
fn a_table_is_not_made_where_the_first_file_fails() {
    let args = || Some(vec![text("*.parquet")]);
    let walks = vec![found(&["a.parquet", "b.parquet"])];
    let err = ParquetTable::create(
        true,
        "default",
        "read_parquet",
        1,
        args(),
        &walks,
        MetaReadOutcome::OpenFailed("denied".to_string()),
    )
    .unwrap_err();
    check(err, ErrorKind::MetadataReadFailed, "Failed to open file 'a.parquet': denied");
    let err = ParquetTable::create(
        true,
        "default",
        "read_parquet",
        1,
        args(),
        &walks,
        MetaReadOutcome::Read(file_meta(0, vec![])),
    )
    .unwrap_err();
    check(err, ErrorKind::EmptyFile, "No row groups found in parquet file 'a.parquet'");
    let err = ParquetTable::create(
        true,
        "default",
        "read_parquet",
        1,
        None,
        &walks,
        MetaReadOutcome::Read(two_columns(1)),
    )
    .unwrap_err();
    assert_eq!(err.kind(), ErrorKind::BadArguments);
}

#[test]
fn footers_are_paired_with_the_files_in_order() {
    let table = two_file_table();
    let metas = table
        .read_file_metas(vec![
            MetaReadOutcome::Read(two_columns(3)),
            MetaReadOutcome::Read(two_columns(4)),
        ])
        .unwrap();
    assert_eq!(metas.len(), 2);
    assert_eq!(metas[0].location, "a.parquet");
    assert_eq!(metas[0].file_meta.num_rows, 3);
    assert_eq!(metas[1].location, "b.parquet");
    assert_eq!(metas[1].file_meta.num_rows, 4);
    let fewer = table.read_file_metas(vec![MetaReadOutcome::Read(two_columns(3))]).unwrap();
    assert_eq!(fewer.len(), 1);
    let more = table
        .read_file_metas(vec![
            MetaReadOutcome::Read(two_columns(3)),
            MetaReadOutcome::Read(two_columns(4)),
            MetaReadOutcome::OpenFailed("unused".to_string()),
        ])
        .unwrap();
    assert_eq!(more.len(), 2);
}

#[test]
fn the_first_failed_read_fails_the_whole() {
    let table = two_file_table();
    let err = table
        .read_file_metas(vec![
            MetaReadOutcome::Read(two_columns(3)),
            MetaReadOutcome::DecodeFailed("cut".to_string()),
        ])
        .unwrap_err();
    check(err, ErrorKind::MetadataReadFailed, "Read parquet file 'b.parquet''s meta error: cut");
    let err = table
        .read_file_metas(vec![
            MetaReadOutcome::OpenFailed("gone".to_string()),
            MetaReadOutcome::DecodeFailed("cut".to_string()),
        ])
        .unwrap_err();
    check(err, ErrorKind::MetadataReadFailed, "Failed to open file 'a.parquet': gone");
}

fn two_files() -> Vec<ParquetFileMeta> {
    vec![
        ParquetFileMeta { location: "a.parquet".to_string(), file_meta: two_columns(3) },
        ParquetFileMeta { location: "b.parquet".to_string(), file_meta: two_columns(4) },
    ]
}

fn narrowed(part: &PartInfoPtr) -> &ParquetPartInfo {
    ParquetPartInfo::from_part(part).unwrap()
}

#[test]
fn each_file_becomes_one_partition() {
    let table = two_file_table();
    let (stats, parts) = table.read_partitions(&two_files(), &None);
    assert_eq!(parts.len(), 2);
    assert_eq!(narrowed(&parts[0]).location, "a.parquet");
    assert_eq!(narrowed(&parts[0]).nums_rows, 3);
    assert_eq!(narrowed(&parts[0]).format_version, FORMAT_VERSION);
    assert_eq!(narrowed(&parts[1]).location, "b.parquet");
    assert_eq!(narrowed(&parts[1]).nums_rows, 4);
    let chunks = &narrowed(&parts[1]).columns_meta;
    assert_eq!(chunks.len(), 2);
    assert_eq!(
        chunks[&0],
        ParquetColumnMeta { offset: 4, length: 100, compression: Compression::Snappy, min_max: None }
    );
    assert_eq!(chunks[&1].offset, 104);
    assert_eq!(chunks[&1].length, 60);
    assert_eq!(
        stats,
        PartStatistics {
            read_rows: 7,
            read_bytes: 320,
            partitions_scanned: 2,
            partitions_total: 2,
            is_exact: true,
        }
    );
}

#[test]
fn a_projection_leaves_out_the_other_columns() {
    let table = two_file_table();
    let push_down = Some(PushDownInfo { projection: Some(vec![1, 1, 9]), filter: None, limit: None });
    let (stats, parts) = table.read_partitions(&two_files(), &push_down);
    let chunks = &narrowed(&parts[0]).columns_meta;
    assert_eq!(chunks.len(), 1);
    assert_eq!(chunks[&1].length, 60);
    assert_eq!(stats.read_rows, 7);
    assert_eq!(stats.read_bytes, 120);
    assert!(stats.is_exact);
    assert!(asks_for(&push_down, 1));
    assert!(asks_for(&push_down, 9));
    assert!(!asks_for(&push_down, 0));
    assert!(asks_for(&None, 0));
    assert!(asks_for(&Some(PushDownInfo { projection: None, filter: None, limit: Some(1) }), 5));
}

#[test]
fn chunk_statistics_travel_with_the_partition() {
    let table = two_file_table();
    let mut chunk = column("n", PhysicalType::Int32, 4, 10);
    chunk.compression = Compression::Zstd;
    chunk.min_max = Some(MinMax { min: -5, max: 5 });
    let files = vec![ParquetFileMeta {
        location: "a.parquet".to_string(),
        file_meta: file_meta(1, vec![vec![chunk]]),
    }];
    let (_, parts) = table.read_partitions(&files, &None);
    assert_eq!(
        narrowed(&parts[0]).columns_meta[&0],
        ParquetColumnMeta {
            offset: 4,
            length: 10,
            compression: Compression::Zstd,
            min_max: Some(MinMax { min: -5, max: 5 }),
        }
    );
}

#[test]
fn no_files_make_no_partitions() {
    let table = two_file_table();
    let (stats, parts) = table.read_partitions(&vec![], &None);
    assert!(parts.is_empty());
    assert_eq!(
        stats,
        PartStatistics {
            read_rows: 0,
            read_bytes: 0,
            partitions_scanned: 0,
            partitions_total: 0,
            is_exact: true,
        }
    );
    let files = vec![ParquetFileMeta {
        location: "e.parquet".to_string(),
        file_meta: file_meta(0, vec![]),
    }];
    let (stats, parts) = table.read_partitions(&files, &None);
    assert_eq!(parts.len(), 1);
    assert!(narrowed(&parts[0]).columns_meta.is_empty());
    assert_eq!(stats.read_bytes, 0);
    assert_eq!(stats.partitions_total, 1);
}

#[test]
fn sums_that_do_not_fit_are_not_exact() {
    let table = two_file_table();
    let files = vec![
        ParquetFileMeta { location: "a.parquet".to_string(), file_meta: two_columns(usize::MAX) },
        ParquetFileMeta { location: "b.parquet".to_string(), file_meta: two_columns(1) },
    ];
    let (stats, parts) = table.read_partitions(&files, &None);
    assert_eq!(parts.len(), 2);
    assert_eq!(stats.read_rows, usize::MAX);
    assert_eq!(stats.read_bytes, 320);
    assert!(!stats.is_exact);
    let big = vec![ParquetFileMeta {
        location: "a.parquet".to_string(),
        file_meta: file_meta(
            1,
            vec![vec![
                column("a", PhysicalType::Int64, 0, u64::MAX),
                column("b", PhysicalType::Int64, 0, 1),
            ]],
        ),
    }];
    let (stats, _) = table.read_partitions(&big, &None);
    assert_eq!(stats.read_rows, 1);
    assert_eq!(stats.read_bytes, usize::MAX);
    assert!(!stats.is_exact);
}

#[test]
fn a_scan_gets_one_stage_for_each_partition() {
    let table = two_file_table();
    let push_down = Some(PushDownInfo {
        projection: Some(vec![0]),
        filter: Some("id > 1".to_string()),
        limit: Some(10),
    });
    let (_, parts) = table.read_partitions(&two_files(), &push_down);
    let mut pipeline = Pipeline { stages: vec![] };
    assert!(table.read_data(&parts, &push_down, &mut pipeline).is_ok());
    assert_eq!(pipeline.stages.len(), 2);
    assert_eq!(pipeline.stages[0].location, "a.parquet");
    assert_eq!(pipeline.stages[0].nums_rows, 3);
    assert_eq!(pipeline.stages[0].format_version, FORMAT_VERSION);
    assert_eq!(pipeline.stages[0].columns_meta.len(), 1);
    assert_eq!(pipeline.stages[0].filter.as_deref(), Some("id > 1"));
    assert_eq!(pipeline.stages[0].limit, Some(10));
    assert_eq!(pipeline.stages[1].location, "b.parquet");
    assert!(table.read_data(&parts, &None, &mut pipeline).is_ok());
    assert_eq!(pipeline.stages.len(), 4);
    assert_eq!(pipeline.stages[3].location, "b.parquet");
    assert_eq!(pipeline.stages[3].filter, None);
    assert_eq!(pipeline.stages[3].limit, None);
}

#[test]
fn a_scan_of_another_kind_of_partition_adds_nothing() {
    let table = two_file_table();
    let (_, mut parts) = table.read_partitions(&two_files(), &None);
    parts.push(Arc::new(PartInfo::Opaque(OpaquePartInfo {
        kind: "numbers".to_string(),
        identity: 1,
    })));
    let mut pipeline = Pipeline { stages: vec![] };
    let err = table.read_data(&parts, &None, &mut pipeline).unwrap_err();
    check(
        err,
        ErrorKind::WrongPartitionKind,
        "read_parquet can only read the partitions of files",
    );
    assert!(pipeline.stages.is_empty());
}
