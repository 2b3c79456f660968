//! Partition descriptors: the units of scan work that planning hands to the
//! workers, and the file partition of a columnar file.

use crate::exception::{framed_error, ErrorCode, ErrorKind, ErrorView};
use std::collections::hash_map::DefaultHasher;
use std::collections::HashMap;
use std::hash::Hasher;
use std::sync::Arc;
use vstd::prelude::*;
use vstd::std_specs::hash::*;
use vstd::std_specs::iter::IteratorSpec;

verus! {

/// How the bytes of a column chunk are compressed.
#[derive(Clone, Copy, Debug, PartialEq, Eq, Structural)]
pub enum Compression {
    Uncompressed,
    Snappy,
    Gzip,
    Lzo,
    Brotli,
    Lz4,
    Zstd,
    Lz4Raw,
}

/// The smallest and the largest value of a column chunk, each by its order key.
#[derive(Clone, Copy, Debug, PartialEq, Eq, Structural)]
pub struct MinMax {
    pub min: i64,
    pub max: i64,
}

/// Where the chunk of one column lies in its file, and what is known of its values.
#[derive(Clone, Copy, Debug, PartialEq, Eq, Structural)]
pub struct ParquetColumnMeta {
    pub offset: u64,
    pub length: u64,
    pub compression: Compression,
    pub min_max: Option<MinMax>,
}

/// The partition of one columnar file.
#[derive(Debug)]
pub struct ParquetPartInfo {
    pub location: String,
    /// The encoding generation of the file that `location` points to; the
    /// partition itself is not versioned.
    pub format_version: u64,
    pub nums_rows: usize,
    pub columns_meta: HashMap<usize, ParquetColumnMeta>,
}

/// A file partition as a value.
pub ghost struct ParquetPartView {
    pub location: Seq<char>,
    pub format_version: u64,
    pub nums_rows: usize,
    pub columns_meta: Map<usize, ParquetColumnMeta>,
}

impl View for ParquetPartInfo {
    type V = ParquetPartView;

    open spec fn view(&self) -> ParquetPartView {
        ParquetPartView {
            location: self.location@,
            format_version: self.format_version,
            nums_rows: self.nums_rows,
            columns_meta: self.columns_meta@,
        }
    }
}

/// Whether two column maps hold the same chunks under the same indices.
pub fn same_columns(
    a: &HashMap<usize, ParquetColumnMeta>,
    b: &HashMap<usize, ParquetColumnMeta>,
) -> (r: bool)
    ensures
        r == (a@ == b@),
{
    broadcast use group_hash_axioms;

    if a.len() != b.len() {
        return false;
    }
    let ghost keys = spec_keys_iter(a).remaining();
    let ghost seen: int = 0;
    for k in it: a.keys()
        invariant
            a@.dom().len() == b@.dom().len(),
            keys == spec_keys_iter(a).remaining(),
            it.seq() == keys,
            seen == it.index(),
            forall|i: int|
                0 <= i < seen ==> b@.contains_key(*#[trigger] keys[i]) && b@[*keys[i]]
                    == a@[*keys[i]],
    {
        match b.get(k) {
            None => {
                return false;
            },
            Some(v) => {
                let u = a.get(k);
                if u.is_none() || *u.unwrap() != *v {
                    return false;
                }
            },
        }
        proof {
            seen = seen + 1;
        }
    }
    proof {
        assert(seen == keys.len());
        assert forall|k: usize| a@.dom().contains(k) implies b@.dom().contains(k) && b@[k]
            == a@[k] by {
            assert(keys.unref().to_set().contains(k));
            let i = choose|i: int| 0 <= i < keys.unref().len() && keys.unref()[i] == k;
            assert(*keys[i] == k);
        }
        assert(a@.dom().subset_of(b@.dom()));
        vstd::set_lib::lemma_subset_equality(a@.dom(), b@.dom());
        assert(a@ =~= b@);
    }
    true
}

/// A partition that only the source named by `kind` can read. Planning
/// carries it along and tells it from others by `identity`.
#[derive(Debug)]
pub struct OpaquePartInfo {
    pub kind: String,
    pub identity: u64,
}

/// A unit of scan work, of one of the kinds that planning knows.
#[derive(Debug)]
pub enum PartInfo {
    Parquet(ParquetPartInfo),
    Opaque(OpaquePartInfo),
}

/// A partition as planning shares it: made once, read by every worker.
pub type PartInfoPtr = Arc<PartInfo>;

/// A partition as a value.
pub ghost enum PartView {
    Parquet(ParquetPartView),
    Opaque { kind: Seq<char>, identity: u64 },
}

impl View for PartInfo {
    type V = PartView;

    open spec fn view(&self) -> PartView {
        match self {
            PartInfo::Parquet(p) => PartView::Parquet(p@),
            PartInfo::Opaque(o) => PartView::Opaque { kind: o.kind@, identity: o.identity },
        }
    }
}

/// The writes that hashing a string makes to a hasher, as `Hash for String` makes them.
pub uninterp spec fn string_hash_writes(s: Seq<char>) -> Seq<Seq<u8>>;

/// `Hash::hash` of a `String` feeds the hasher a sequence of writes that
/// depends on the characters of the string alone.
#[verifier::external_body]
fn hash_string(s: &String, state: &mut DefaultHasher)
    ensures
        final(state)@ == old(state)@ + string_hash_writes(s@),
{
    std::hash::Hash::hash(s, state)
}

/// The identity hash of the file at `location`: what a fresh default hasher
/// gives after the location was hashed into it.
pub open spec fn location_hash(location: Seq<char>) -> u64 {
    DefaultHasher::spec_finish(string_hash_writes(location))
}

/// The message of a failed narrowing to a file partition.
pub open spec fn downcast_failure() -> ErrorView {
    ErrorView {
        kind: ErrorKind::InternalDowncastFailure,
        message: "Cannot downcast from PartInfo to ParquetPartInfo."@,
    }
}

impl ParquetPartInfo {
    /// The file partition among the kinds, or nothing where `info` is of another kind.
    pub open spec fn narrow(info: PartView) -> Option<ParquetPartView> {
        match info {
            PartView::Parquet(p) => Some(p),
            _ => None,
        }
    }

    /// Whether `info` is a file partition with the same values as `part`.
    /// A partition of another kind is never equal to a file partition.
    pub open spec fn spec_equals(part: ParquetPartView, info: PartView) -> bool {
        Self::narrow(info) == Some(part)
    }

    /// Whether `info` is a file partition with the same location, format
    /// version, row count and column chunks.
    pub fn equals(&self, info: &PartInfo) -> (r: bool)
        ensures
            r == Self::spec_equals(self@, info@),
    {
        match info {
            PartInfo::Parquet(other) => {
                let r = self.location == other.location && self.format_version
                    == other.format_version && self.nums_rows == other.nums_rows && same_columns(
                    &self.columns_meta,
                    &other.columns_meta,
                );
                r
            },
            PartInfo::Opaque(_) => false,
        }
    }

    /// The identity hash, taken from the location alone.
    pub fn hash(&self) -> (h: u64)
        ensures
            h == location_hash(self@.location),
    {
        let mut s = DefaultHasher::new();
        hash_string(&self.location, &mut s);
        assert(s@ =~= string_hash_writes(self.location@));
        s.finish()
    }

    /// The shared partition for the file at `location`. The row count is
    /// kept as far as the machine's word holds it.
    pub fn create(
        location: String,
        format_version: u64,
        rows_count: u64,
        columns_meta: HashMap<usize, ParquetColumnMeta>,
    ) -> (part: PartInfoPtr)
        ensures
            part@ == PartView::Parquet(
                ParquetPartView {
                    location: location@,
                    format_version,
                    nums_rows: rows_count as usize,
                    columns_meta: columns_meta@,
                },
            ),
            rows_count <= usize::MAX ==> Self::narrow(part@).unwrap().nums_rows == rows_count,
    {
        Arc::new(
            PartInfo::Parquet(
                ParquetPartInfo {
                    location,
                    format_version,
                    columns_meta,
                    nums_rows: #[verifier::truncate]
                    (rows_count as usize),
                },
            ),
        )
    }

    /// The file partition behind `info`, or an error where it is of another kind.
    pub fn from_part(info: &PartInfoPtr) -> (r: Result<&ParquetPartInfo, ErrorCode>)
        ensures
            match r {
                Ok(part) => **info == PartInfo::Parquet(*part),
                Err(e) => Self::narrow(info@).is_none() && e@ == downcast_failure(),
            },
    {
        match &**info {
            PartInfo::Parquet(part) => Ok(part),
            PartInfo::Opaque(_) => Err(
                ErrorCode::new(
                    ErrorKind::InternalDowncastFailure,
                    "Cannot downcast from PartInfo to ParquetPartInfo.",
                ),
            ),
        }
    }
}

impl PartInfo {
    /// The identity hash of a partition as a value.
    pub open spec fn spec_hash(info: PartView) -> u64 {
        match info {
            PartView::Parquet(p) => location_hash(p.location),
            PartView::Opaque { kind, identity } => identity,
        }
    }

    /// This partition as a file partition, where it is one.
    pub fn as_parquet(&self) -> (r: Option<&ParquetPartInfo>)
        ensures
            match r {
                Some(part) => *self == PartInfo::Parquet(*part),
                None => ParquetPartInfo::narrow(self@).is_none(),
            },
    {
        match self {
            PartInfo::Parquet(part) => Some(part),
            PartInfo::Opaque(_) => None,
        }
    }

    /// Whether the two partitions are of the same kind and hold the same values.
    pub fn equals(&self, other: &PartInfo) -> (r: bool)
        ensures
            r == (self@ == other@),
    {
        match self {
            PartInfo::Parquet(part) => part.equals(other),
            PartInfo::Opaque(o) => match other {
                PartInfo::Opaque(p) => o.kind == p.kind && o.identity == p.identity,
                PartInfo::Parquet(_) => false,
            },
        }
    }

    /// The identity hash, by which planning finds a partition again.
    pub fn hash(&self) -> (h: u64)
        ensures
            h == Self::spec_hash(self@),
    {
        match self {
            PartInfo::Parquet(part) => part.hash(),
            PartInfo::Opaque(o) => o.identity,
        }
    }
}

/// The tag under which a file partition travels.
pub open spec fn parquet_tag() -> Seq<char> {
    "parquet"@
}

/// A partition on its way to another process: the tag that names its kind,
/// then the fields of that kind.
#[derive(Debug)]
pub struct PartEnvelope {
    pub tag: String,
    pub location: String,
    pub format_version: u64,
    pub nums_rows: u64,
    pub columns_meta: HashMap<usize, ParquetColumnMeta>,
}

/// An envelope as a value.
pub ghost struct EnvelopeView {
    pub tag: Seq<char>,
    pub location: Seq<char>,
    pub format_version: u64,
    pub nums_rows: u64,
    pub columns_meta: Map<usize, ParquetColumnMeta>,
}

impl View for PartEnvelope {
    type V = EnvelopeView;

    open spec fn view(&self) -> EnvelopeView {
        EnvelopeView {
            tag: self.tag@,
            location: self.location@,
            format_version: self.format_version,
            nums_rows: self.nums_rows,
            columns_meta: self.columns_meta@,
        }
    }
}

/// The envelope that carries the file partition `part`.
pub open spec fn sealed(part: ParquetPartView) -> EnvelopeView {
    EnvelopeView {
        tag: parquet_tag(),
        location: part.location,
        format_version: part.format_version,
        nums_rows: part.nums_rows as u64,
        columns_meta: part.columns_meta,
    }
}

/// The partition that an envelope carries, where its tag names a kind that
/// can be rebuilt here.
pub open spec fn opened(env: EnvelopeView) -> Option<PartView> {
    if env.tag == parquet_tag() {
        Some(
            PartView::Parquet(
                ParquetPartView {
                    location: env.location,
                    format_version: env.format_version,
                    nums_rows: env.nums_rows as usize,
                    columns_meta: env.columns_meta,
                },
            ),
        )
    } else {
        None
    }
}

/// The error for an envelope whose tag names no kind that can be rebuilt here.
pub open spec fn unknown_tag(tag: Seq<char>) -> ErrorView {
    framed_error(
        ErrorKind::WrongPartitionKind,
        "No partition kind is registered under the tag '"@,
        tag,
        "'"@,
    )
}

impl ParquetPartInfo {
    /// The envelope that carries this partition.
    pub fn to_envelope(&self) -> (env: PartEnvelope)
        ensures
            env@ == sealed(self@),
    {
        PartEnvelope {
            tag: "parquet".to_owned(),
            location: self.location.clone(),
            format_version: self.format_version,
            nums_rows: self.nums_rows as u64,
            columns_meta: self.columns_meta.clone(),
        }
    }
}

impl PartInfo {
    /// Rebuilds the partition that `env` carries. An envelope under any tag
    /// but that of a file partition is refused.
    pub fn from_envelope(env: PartEnvelope) -> (r: Result<PartInfoPtr, ErrorCode>)
        ensures
            match r {
                Ok(part) => opened(env@) == Some(part@),
                Err(e) => opened(env@).is_none() && e@ == unknown_tag(env@.tag),
            },
    {
        let tag = "parquet".to_owned();
        if env.tag == tag {
            Ok(
                ParquetPartInfo::create(
                    env.location,
                    env.format_version,
                    env.nums_rows,
                    env.columns_meta,
                ),
            )
        } else {
            Err(
                ErrorCode::framed(
                    ErrorKind::WrongPartitionKind,
                    "No partition kind is registered under the tag '",
                    env.tag.as_str(),
                    "'",
                ),
            )
        }
    }
}

/// Two file partitions are equal exactly when their locations, format
/// versions, row counts and column chunks are.
pub proof fn lemma_equal_iff_all_fields_equal(a: ParquetPartInfo, b: ParquetPartInfo)
    ensures
        ParquetPartInfo::spec_equals(a@, PartInfo::Parquet(b)@) <==> (a.location@ == b.location@
            && a.format_version == b.format_version && a.nums_rows == b.nums_rows
            && a.columns_meta@ == b.columns_meta@),
{
}

/// A file partition is equal to no partition of another kind.
pub proof fn lemma_kinds_never_equal(a: ParquetPartInfo, b: OpaquePartInfo)
    ensures
        !ParquetPartInfo::spec_equals(a@, PartInfo::Opaque(b)@),
        PartInfo::Parquet(a)@ != PartInfo::Opaque(b)@,
{
}

/// Partitions of one location have one identity hash, whatever else they
/// hold; where their row counts or column chunks differ they are not equal.
pub proof fn lemma_hash_follows_location_alone(a: ParquetPartInfo, b: ParquetPartInfo)
    requires
        a.location@ == b.location@,
    ensures
        PartInfo::spec_hash(PartInfo::Parquet(a)@) == PartInfo::spec_hash(PartInfo::Parquet(b)@),
        a.nums_rows != b.nums_rows || a.columns_meta@ != b.columns_meta@
            ==> !ParquetPartInfo::spec_equals(a@, PartInfo::Parquet(b)@),
{
}

/// Narrowing a partition that was made as a file partition gives back the
/// values it was made of.
pub proof fn lemma_narrow_gives_back(part: ParquetPartInfo)
    ensures
        ParquetPartInfo::narrow(PartInfo::Parquet(part)@) == Some(part@),
{
}

/// Opening the envelope of a file partition gives a partition equal to it.
pub proof fn lemma_envelope_round_trip(part: ParquetPartInfo)
    ensures
        opened(sealed(part@)) matches Some(back) && ParquetPartInfo::spec_equals(part@, back),
{
}

} // verus!
