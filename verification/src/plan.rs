//! What planning and a source tell each other about a scan.

use vstd::prelude::*;

verus! {

/// An estimate of what a set of partitions makes a scan read.
#[derive(Clone, Copy, Debug, PartialEq, Eq, Structural)]
pub struct PartStatistics {
    pub read_rows: usize,
    pub read_bytes: usize,
    pub partitions_scanned: usize,
    pub partitions_total: usize,
    /// Whether the numbers are exact, or bounds from below.
    pub is_exact: bool,
}

/// What planning asks a source to leave out. Nothing asked means every
/// column, every row.
#[derive(Debug)]
pub struct PushDownInfo {
    /// The indices of the columns asked for.
    pub projection: Option<Vec<usize>>,
    /// The text of a predicate that rows have to meet.
    pub filter: Option<String>,
    /// The number of rows after which the scan may stop.
    pub limit: Option<usize>,
}

/// The columns that a request asks for, or nothing where it asks for all.
pub open spec fn projection_of(push_down: Option<PushDownInfo>) -> Option<Seq<usize>> {
    match push_down {
        Some(info) => match info.projection {
            Some(columns) => Some(columns@),
            None => None,
        },
        None => None,
    }
}

/// Whether a request with this projection asks for the column at `index`.
pub open spec fn wanted(projection: Option<Seq<usize>>, index: usize) -> bool {
    match projection {
        Some(columns) => columns.contains(index),
        None => true,
    }
}

/// Whether `push_down` asks for the column at `index`.
pub fn asks_for(push_down: &Option<PushDownInfo>, index: usize) -> (r: bool)
    ensures
        r == wanted(projection_of(*push_down), index),
{
    let columns = match push_down {
        Some(info) => match &info.projection {
            Some(columns) => columns,
            None => {
                return true;
            },
        },
        None => {
            return true;
        },
    };
    let mut i: usize = 0;
    while i < columns.len()
        invariant
            i <= columns.len(),
            projection_of(*push_down) == Some(columns@),
            forall|j: int| 0 <= j < i ==> columns@[j] != index,
        decreases columns.len() - i,
    {
        if columns[i] == index {
            return true;
        }
        i = i + 1;
    }
    false
}

/// `n`, as far as a machine word holds it.
pub open spec fn saturated(n: nat) -> usize {
    if n > usize::MAX {
        usize::MAX
    } else {
        n as usize
    }
}

} // verus!
