//! The stages that a scan of the table function adds to an execution.

use crate::arguments::optional_text;
use crate::exception::{ErrorCode, ErrorKind, ErrorView};
use crate::parquet_part::{ParquetColumnMeta, ParquetPartInfo, ParquetPartView, PartInfoPtr};
use crate::plan::PushDownInfo;
use crate::table::ParquetTable;
use std::collections::HashMap;
use vstd::prelude::*;

verus! {

/// One stage of a scan: the file to open and what the read has to honour.
#[derive(Debug)]
pub struct ScanStage {
    pub location: String,
    pub format_version: u64,
    pub nums_rows: usize,
    pub columns_meta: HashMap<usize, ParquetColumnMeta>,
    pub filter: Option<String>,
    pub limit: Option<usize>,
}

/// The stages of an execution, in the order in which they were added.
#[derive(Debug)]
pub struct Pipeline {
    pub stages: Vec<ScanStage>,
}

/// A stage as a value.
pub ghost struct StageView {
    pub part: ParquetPartView,
    pub filter: Option<Seq<char>>,
    pub limit: Option<usize>,
}

impl View for ScanStage {
    type V = StageView;

    open spec fn view(&self) -> StageView {
        StageView {
            part: ParquetPartView {
                location: self.location@,
                format_version: self.format_version,
                nums_rows: self.nums_rows,
                columns_meta: self.columns_meta@,
            },
            filter: optional_text(self.filter),
            limit: self.limit,
        }
    }
}

impl View for Pipeline {
    type V = Seq<StageView>;

    open spec fn view(&self) -> Seq<StageView> {
        self.stages@.map_values(|s: ScanStage| s@)
    }
}

/// The predicate that a request asks the scan to apply.
pub open spec fn filter_of(push_down: Option<PushDownInfo>) -> Option<Seq<char>> {
    match push_down {
        Some(info) => optional_text(info.filter),
        None => None,
    }
}

/// The number of rows after which a request lets the scan stop.
pub open spec fn limit_of(push_down: Option<PushDownInfo>) -> Option<usize> {
    match push_down {
        Some(info) => info.limit,
        None => None,
    }
}

/// The stage that reads `part` under `push_down`.
pub open spec fn stage_for(part: ParquetPartView, push_down: Option<PushDownInfo>) -> StageView {
    StageView { part, filter: filter_of(push_down), limit: limit_of(push_down) }
}

/// The error for a partition that is not the partition of a file.
pub open spec fn wrong_partition_kind() -> ErrorView {
    ErrorView {
        kind: ErrorKind::WrongPartitionKind,
        message: "read_parquet can only read the partitions of files"@,
    }
}

/// Whether every partition is the partition of a file.
pub open spec fn all_files(parts: Seq<PartInfoPtr>) -> bool {
    forall|i: int|
        0 <= i < parts.len() ==> ParquetPartInfo::narrow((#[trigger] parts[i])@).is_some()
}

/// The stages that read `parts`, one for each in order.
pub open spec fn stages_for(parts: Seq<PartInfoPtr>, push_down: Option<PushDownInfo>) -> Seq<
    StageView,
> {
    parts.map_values(
        |p: PartInfoPtr| stage_for(ParquetPartInfo::narrow(p@).unwrap(), push_down),
    )
}

/// Whether every partition is the partition of a file.
fn check_kinds(parts: &Vec<PartInfoPtr>) -> (r: bool)
    ensures
        r == all_files(parts@),
{
    let mut i: usize = 0;
    while i < parts.len()
        invariant
            i <= parts.len(),
            forall|j: int|
                0 <= j < i ==> ParquetPartInfo::narrow((#[trigger] parts@[j])@).is_some(),
        decreases parts.len() - i,
    {
        if parts[i].as_parquet().is_none() {
            return false;
        }
        i = i + 1;
    }
    true
}

/// A copy of a text that may be missing.
fn copy_text(text: &Option<String>) -> (r: Option<String>)
    ensures
        optional_text(r) == optional_text(*text),
{
    match text {
        Some(t) => Some(t.clone()),
        None => None,
    }
}

impl ParquetTable {
    /// Adds to `pipeline` the stages that read `parts` under `push_down`,
    /// one for each partition in order. Nothing is opened or read. Where a
    /// partition is not the partition of a file, nothing is added.
    pub fn read_data(
        &self,
        parts: &Vec<PartInfoPtr>,
        push_down: &Option<PushDownInfo>,
        pipeline: &mut Pipeline,
    ) -> (r: Result<(), ErrorCode>)
        ensures
            match r {
                Ok(_) => all_files(parts@) && final(pipeline)@ == old(pipeline)@ + stages_for(
                    parts@,
                    *push_down,
                ),
                Err(e) => !all_files(parts@) && e@ == wrong_partition_kind() && *final(pipeline)
                    == *old(pipeline),
            },
    {
        if !check_kinds(parts) {
            return Err(
                ErrorCode::new(
                    ErrorKind::WrongPartitionKind,
                    "read_parquet can only read the partitions of files",
                ),
            );
        }
        let ghost before = pipeline@;
        let mut i: usize = 0;
        assert(pipeline@ =~= before + stages_for(parts@, *push_down).take(0));
        while i < parts.len()
            invariant
                i <= parts.len(),
                all_files(parts@),
                before == old(pipeline)@,
                pipeline@ == before + stages_for(parts@, *push_down).take(i as int),
            decreases parts.len() - i,
        {
            let ghost held = pipeline@;
            match parts[i].as_parquet() {
                Some(part) => {
                    let (filter, limit) = match push_down {
                        Some(info) => (copy_text(&info.filter), info.limit),
                        None => (None, None),
                    };
                    pipeline.stages.push(
                        ScanStage {
                            location: part.location.clone(),
                            format_version: part.format_version,
                            nums_rows: part.nums_rows,
                            columns_meta: part.columns_meta.clone(),
                            filter,
                            limit,
                        },
                    );
                    assert(pipeline@ =~= held.push(
                        stage_for(ParquetPartInfo::narrow(parts@[i as int]@).unwrap(), *push_down),
                    ));
                    assert(pipeline@ =~= before + stages_for(parts@, *push_down).take(i + 1));
                },
                None => {
                    assert(ParquetPartInfo::narrow(parts@[i as int]@).is_some());
                },
            }
            i = i + 1;
        }
        assert(stages_for(parts@, *push_down).take(parts.len() as int) =~= stages_for(
            parts@,
            *push_down,
        ));
        Ok(())
    }
}

} // verus!
