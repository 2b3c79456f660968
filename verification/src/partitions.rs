//! The partitions of a scan of the table function, and what the scan reads.

use crate::arguments::texts;
use crate::exception::{ErrorCode, ErrorView};
use crate::file_meta::{
    read_failure, read_parquet_meta, ColumnChunkMeta, FileMetaData, MetaReadOutcome,
    ParquetFileMeta,
};
use crate::parquet_part::{
    ParquetColumnMeta, ParquetPartInfo, ParquetPartView, PartInfoPtr, PartView,
};
use crate::plan::{asks_for, projection_of, saturated, wanted, PartStatistics, PushDownInfo};
use crate::table::ParquetTable;
use std::collections::HashMap;
use vstd::prelude::*;
use vstd::std_specs::hash::*;

verus! {

/// The encoding generation of the files that the table function reads.
pub const FORMAT_VERSION: u64 = 0;

/// The footers of the first `count` files, each with its location, where
/// every one of those reads succeeded.
pub open spec fn all_read(
    locations: Seq<Seq<char>>,
    outcomes: Seq<MetaReadOutcome>,
    metas: Seq<ParquetFileMeta>,
    count: int,
) -> bool {
    &&& metas.len() == count
    &&& forall|i: int|
        #![trigger metas[i]]
        #![trigger outcomes[i]]
        0 <= i < count ==> metas[i].location@ == locations[i] && outcomes[i]
            == MetaReadOutcome::Read(metas[i].file_meta)
}

/// The reads before `index` succeeded and the one at `index` failed with `error`.
pub open spec fn first_failed_read(
    locations: Seq<Seq<char>>,
    outcomes: Seq<MetaReadOutcome>,
    index: int,
    error: ErrorView,
) -> bool {
    &&& 0 <= index < locations.len()
    &&& index < outcomes.len()
    &&& forall|i: int| 0 <= i < index ==> #[trigger] outcomes[i] is Read
    &&& read_failure(locations[index], outcomes[index]) == Some(error)
}

/// The number of files that have both a location and the outcome of a read.
pub open spec fn paired(locations: Seq<Seq<char>>, outcomes: Seq<MetaReadOutcome>) -> int {
    if locations.len() <= outcomes.len() {
        locations.len() as int
    } else {
        outcomes.len() as int
    }
}

/// What a chunk of a row group tells a partition about its column.
pub open spec fn column_meta_of(chunk: ColumnChunkMeta) -> ParquetColumnMeta {
    ParquetColumnMeta {
        offset: chunk.offset,
        length: chunk.length,
        compression: chunk.compression,
        min_max: chunk.min_max,
    }
}

/// The column chunks by which a file is planned: those of its first row group.
pub open spec fn first_columns(meta: FileMetaData) -> Seq<ColumnChunkMeta> {
    if meta.row_groups@.len() == 0 {
        Seq::empty()
    } else {
        meta.row_groups@[0].columns@
    }
}

/// The chunks of the columns that the projection asks for, each under the
/// index of its column.
pub open spec fn projected_columns(
    columns: Seq<ColumnChunkMeta>,
    projection: Option<Seq<usize>>,
) -> Map<usize, ParquetColumnMeta> {
    Map::new(
        |i: usize| i < columns.len() && wanted(projection, i),
        |i: usize| column_meta_of(columns[i as int]),
    )
}

/// The number of bytes in the chunks of the columns that the projection asks for.
pub open spec fn projected_bytes(
    columns: Seq<ColumnChunkMeta>,
    projection: Option<Seq<usize>>,
) -> nat
    decreases columns.len(),
{
    if columns.len() == 0 {
        0
    } else {
        projected_bytes(columns.drop_last(), projection) + if wanted(
            projection,
            (columns.len() - 1) as usize,
        ) {
            columns.last().length as nat
        } else {
            0
        }
    }
}

/// The partition that stands for one file under a projection.
pub open spec fn partition_of(file: ParquetFileMeta, projection: Option<Seq<usize>>) -> PartView {
    PartView::Parquet(
        ParquetPartView {
            location: file.location@,
            format_version: FORMAT_VERSION,
            nums_rows: file.file_meta.num_rows,
            columns_meta: projected_columns(first_columns(file.file_meta), projection),
        },
    )
}

/// The rows of all the files together.
pub open spec fn total_rows(files: Seq<ParquetFileMeta>) -> nat
    decreases files.len(),
{
    if files.len() == 0 {
        0
    } else {
        total_rows(files.drop_last()) + files.last().file_meta.num_rows as nat
    }
}

/// The bytes of the projected column chunks of all the files together.
pub open spec fn total_bytes(files: Seq<ParquetFileMeta>, projection: Option<Seq<usize>>) -> nat
    decreases files.len(),
{
    if files.len() == 0 {
        0
    } else {
        total_bytes(files.drop_last(), projection) + projected_bytes(
            first_columns(files.last().file_meta),
            projection,
        )
    }
}

/// What a scan of the files under a projection reads. Where a sum does not
/// fit a machine word, the word holds the largest number it can and the
/// statistics are not exact.
pub open spec fn statistics_of(
    files: Seq<ParquetFileMeta>,
    projection: Option<Seq<usize>>,
) -> PartStatistics {
    PartStatistics {
        read_rows: saturated(total_rows(files)),
        read_bytes: saturated(total_bytes(files, projection)),
        partitions_scanned: saturated(files.len()),
        partitions_total: saturated(files.len()),
        is_exact: total_rows(files) <= usize::MAX && total_bytes(files, projection) <= usize::MAX,
    }
}

/// The chunks of the columns that `push_down` asks for, and their bytes.
fn project_columns(columns: &Vec<ColumnChunkMeta>, push_down: &Option<PushDownInfo>) -> (r: (
    HashMap<usize, ParquetColumnMeta>,
    usize,
    bool,
))
    ensures
        r.0@ == projected_columns(columns@, projection_of(*push_down)),
        r.1 == saturated(projected_bytes(columns@, projection_of(*push_down))),
        r.2 == (projected_bytes(columns@, projection_of(*push_down)) <= usize::MAX),
{
    broadcast use group_hash_axioms;

    let ghost projection = projection_of(*push_down);
    let mut chunks: HashMap<usize, ParquetColumnMeta> = HashMap::new();
    let mut bytes: usize = 0;
    let mut fits = true;
    let mut i: usize = 0;
    assert(columns@.take(0) =~= Seq::<ColumnChunkMeta>::empty());
    assert(chunks@ =~= projected_columns(columns@.take(0), projection));
    while i < columns.len()
        invariant
            i <= columns.len(),
            projection == projection_of(*push_down),
            chunks@ == projected_columns(columns@.take(i as int), projection),
            bytes == saturated(projected_bytes(columns@.take(i as int), projection)),
            fits == (projected_bytes(columns@.take(i as int), projection) <= usize::MAX),
        decreases columns.len() - i,
    {
        let chunk = &columns[i];
        let ghost before = chunks@;
        proof {
            assert(columns@.take(i + 1).drop_last() =~= columns@.take(i as int));
            assert(columns@.take(i + 1).last() == columns@[i as int]);
        }
        if asks_for(push_down, i) {
            chunks.insert(
                i,
                ParquetColumnMeta {
                    offset: chunk.offset,
                    length: chunk.length,
                    compression: chunk.compression,
                    min_max: chunk.min_max,
                },
            );
            if chunk.length > usize::MAX as u64 {
                bytes = usize::MAX;
                fits = false;
            } else {
                let length: usize = chunk.length as usize;
                if length > usize::MAX - bytes {
                    fits = false;
                }
                bytes = bytes.saturating_add(length);
            }
        }
        assert(chunks@ =~= projected_columns(columns@.take(i + 1), projection));
        i = i + 1;
    }
    assert(columns@.take(columns.len() as int) =~= columns@);
    (chunks, bytes, fits)
}

impl ParquetTable {
    /// Pairs each file of the table with its footer. `outcomes` holds, for
    /// each file in turn, how reading its footer ended; the first read that
    /// failed fails the whole.
    pub fn read_file_metas(&self, outcomes: Vec<MetaReadOutcome>) -> (r: Result<
        Vec<ParquetFileMeta>,
        ErrorCode,
    >)
        ensures
            match r {
                Ok(metas) => all_read(
                    self@.file_locations,
                    outcomes@,
                    metas@,
                    paired(self@.file_locations, outcomes@),
                ),
                Err(e) => exists|index: int|
                    first_failed_read(self@.file_locations, outcomes@, index, e@),
            },
    {
        let files = self.file_locations();
        let ghost locations = texts(files@);
        let ghost all = outcomes@;
        let mut metas: Vec<ParquetFileMeta> = Vec::with_capacity(outcomes.len());
        let mut i: usize = 0;
        for outcome in it: outcomes.into_iter()
            invariant
                it.seq() == all,
                all.len() <= usize::MAX,
                i == it.index(),
                locations == texts(files@),
                locations == self@.file_locations,
                i <= locations.len() ==> all_read(locations, all, metas@, i as int),
                i > locations.len() ==> all_read(locations, all, metas@, locations.len() as int),
        {
            if i < files.len() {
                let location = &files[i];
                assert(locations[i as int] == location@);
                match read_parquet_meta(location.as_str(), outcome) {
                    Ok(file_meta) => {
                        metas.push(ParquetFileMeta { location: location.clone(), file_meta });
                    },
                    Err(e) => {
                        assert(first_failed_read(locations, all, i as int, e@));
                        return Err(e);
                    },
                }
            }
            assert(i < usize::MAX) by {
                assert(i < all.len());
            }
            i = i + 1;
        }
        Ok(metas)
    }

    /// The partitions of a scan of `files` and what the scan reads: one
    /// partition for each file, in order, with the chunks of the columns
    /// that `push_down` asks for.
    pub fn read_partitions(
        &self,
        files: &Vec<ParquetFileMeta>,
        push_down: &Option<PushDownInfo>,
    ) -> (r: (PartStatistics, Vec<PartInfoPtr>))
        ensures
            r.0 == statistics_of(files@, projection_of(*push_down)),
            r.1@.len() == files@.len(),
            forall|i: int|
                0 <= i < files@.len() ==> (#[trigger] r.1@[i])@ == partition_of(
                    files@[i],
                    projection_of(*push_down),
                ),
    {
        let ghost projection = projection_of(*push_down);
        let mut parts: Vec<PartInfoPtr> = Vec::with_capacity(files.len());
        let mut rows: usize = 0;
        let mut bytes: usize = 0;
        let mut exact = true;
        let none: Vec<ColumnChunkMeta> = Vec::new();
        let mut i: usize = 0;
        assert(files@.take(0) =~= Seq::<ParquetFileMeta>::empty());
        while i < files.len()
            invariant
                i <= files.len(),
                none@.len() == 0,
                projection == projection_of(*push_down),
                parts@.len() == i,
                forall|j: int|
                    0 <= j < i ==> (#[trigger] parts@[j])@ == partition_of(files@[j], projection),
                rows == saturated(total_rows(files@.take(i as int))),
                bytes == saturated(total_bytes(files@.take(i as int), projection)),
                exact == (total_rows(files@.take(i as int)) <= usize::MAX && total_bytes(
                    files@.take(i as int),
                    projection,
                ) <= usize::MAX),
            decreases files.len() - i,
        {
            let file = &files[i];
            proof {
                assert(files@.take(i + 1).drop_last() =~= files@.take(i as int));
                assert(files@.take(i + 1).last() == files@[i as int]);
            }
            let columns = if file.file_meta.row_groups.len() == 0 {
                &none
            } else {
                &file.file_meta.row_groups[0].columns
            };
            assert(columns@ =~= first_columns(file.file_meta));
            let (chunks, chunk_bytes, chunks_fit) = project_columns(columns, push_down);
            let num_rows: usize = file.file_meta.num_rows;
            if num_rows > usize::MAX - rows || !chunks_fit || chunk_bytes > usize::MAX - bytes {
                exact = false;
            }
            rows = rows.saturating_add(num_rows);
            bytes = bytes.saturating_add(chunk_bytes);
            parts.push(
                ParquetPartInfo::create(
                    file.location.clone(),
                    FORMAT_VERSION,
                    num_rows as u64,
                    chunks,
                ),
            );
            i = i + 1;
        }
        assert(files@.take(files.len() as int) =~= files@);
        let stats = PartStatistics {
            read_rows: rows,
            read_bytes: bytes,
            partitions_scanned: files.len(),
            partitions_total: files.len(),
            is_exact: exact,
        };
        (stats, parts)
    }
}

/// The statistics of a scan count every file as a partition, and their row
/// count is the sum of the files' row counts where a machine word holds it.
pub proof fn lemma_statistics_count_all(files: Seq<ParquetFileMeta>, projection: Option<Seq<usize>>)
    requires
        total_rows(files) <= usize::MAX,
    ensures
        statistics_of(files, projection).read_rows == total_rows(files),
        statistics_of(files, projection).partitions_total == saturated(files.len()),
{
}

} // verus!
