//! Region-by-region signature scanning.
//!
//! The walk over the target's address space and the remote reads are I/O and
//! live outside this crate. The caller queries region metadata, asks
//! [`should_scan`] whether a region may be read at all, snapshots the bytes of
//! the regions it read, and hands the list of [`RegionSnapshot`]s to
//! [`find_pattern`]. A region that the skip rule refuses, or whose
//! read failed, carries no bytes (`data` is `None`), and the scan result never
//! depends on such a region's contents ([`lemma_scan_ignores_skipped`]).

use vstd::prelude::*;

use crate::pattern::PatternByte;
use crate::pattern::first_match;
use crate::pattern::find_in_buffer;

verus! {

/// Where a scan starts: at the main module's base address (code) or at the
/// bottom of the address space (heap).
#[derive(Clone, Copy, PartialEq, Eq, Structural, Debug)]
pub enum Section {
    Code,
    Heap,
}

/// The metadata of one virtual-memory region, as plain values: base address,
/// size, and the commit and protection bits the skip rule reads.
#[derive(Clone, Copy, PartialEq, Eq, Structural, Debug)]
pub struct RegionInfo {
    pub address: usize,
    pub size: usize,
    pub committed: bool,
    pub no_access: bool,
    pub guard: bool,
}

/// One region as the scanner sees it: its metadata and, if the region was
/// read, a copy of its bytes. `data` is `None` for a region that was skipped
/// or whose read failed.
pub struct RegionSnapshot {
    pub info: RegionInfo,
    pub data: Option<Vec<u8>>,
}

/// A snapshot the machine could actually have produced: the region lies
/// inside the address space, and bytes that were read are exactly as many
/// as the region holds.
pub open spec fn region_wf(r: RegionSnapshot) -> bool {
    &&& r.info.address + r.info.size <= usize::MAX
    &&& r.data is Some ==> r.data.unwrap()@.len() == r.info.size
}

/// A committed, accessible region: the only kind a scan may read.
pub open spec fn scannable(info: RegionInfo) -> bool {
    info.committed && !info.no_access && !info.guard
}

/// The skip rule: a region may be read only if it is committed and neither
/// marked no-access nor guarded.
pub fn should_scan(info: &RegionInfo) -> (r: bool)
    ensures
        r == scannable(*info),
{
    info.committed && !info.no_access && !info.guard
}

/// The address at which a scan over `section` starts, given the main
/// module's base address.
pub fn scan_origin(section: Section, base_address: usize) -> (r: usize)
    ensures
        r == (match section {
            Section::Code => base_address,
            Section::Heap => 0usize,
        }),
{
    match section {
        Section::Code => base_address,
        Section::Heap => 0,
    }
}

/// The address of the region after `info` in the walk over the address
/// space, or `None` where it would pass the end of the address space.
pub fn next_region_address(info: &RegionInfo) -> (r: Option<usize>)
    ensures
        match r {
            Some(a) => a == info.address + info.size,
            None => info.address + info.size > usize::MAX,
        },
{
    if info.size <= usize::MAX - info.address {
        Some(info.address + info.size)
    } else {
        None
    }
}

/// Whether a snapshot takes part in the search: the skip rule allows it and
/// its bytes are in hand.
pub open spec fn searchable(r: RegionSnapshot) -> bool {
    scannable(r.info) && r.data is Some
}

/// The leftmost match of `pattern` inside one snapshot, if the snapshot
/// takes part in the search at all.
pub open spec fn region_match(r: RegionSnapshot, pattern: Seq<PatternByte>) -> Option<int> {
    if searchable(r) {
        first_match(r.data.unwrap()@, pattern)
    } else {
        None
    }
}

/// The result of a scan over a list of snapshots: the index of the first
/// region with a match, paired with the leftmost match offset inside it.
pub open spec fn scan_result(regions: Seq<RegionSnapshot>, pattern: Seq<PatternByte>) -> Option<
    (int, int),
>
    decreases regions.len(),
{
    if regions.len() == 0 {
        None
    } else {
        match region_match(regions[0], pattern) {
            Some(offset) => Some((0, offset)),
            None => match scan_result(regions.skip(1), pattern) {
                Some(m) => Some((m.0 + 1, m.1)),
                None => None,
            },
        }
    }
}

/// What a scan result means: a hit names the first region with a match and
/// the leftmost offset inside it, and that region took part in the search;
/// a miss means no region has a match.
pub proof fn lemma_scan_result_spec(regions: Seq<RegionSnapshot>, pattern: Seq<PatternByte>)
    ensures
        match scan_result(regions, pattern) {
            Some(m) => {
                &&& 0 <= m.0 < regions.len()
                &&& region_match(regions[m.0], pattern) == Some(m.1)
                &&& searchable(regions[m.0])
                &&& forall|j: int|
                    0 <= j < m.0 ==> region_match(regions[j], pattern) is None
            },
            None => forall|j: int|
                0 <= j < regions.len() ==> region_match(regions[j], pattern) is None,
        },
    decreases regions.len(),
{
    if regions.len() > 0 {
        lemma_scan_result_spec(regions.skip(1), pattern);
        assert forall|j: int| 1 <= j < regions.len() implies regions.skip(1)[j - 1] == regions[j]
        by {}
    }
}

/// If no region before `i` has a match and region `i` has one at `offset`,
/// the scan result is exactly `(i, offset)`.
pub proof fn lemma_scan_result_found(
    regions: Seq<RegionSnapshot>,
    pattern: Seq<PatternByte>,
    i: int,
    offset: int,
)
    requires
        0 <= i < regions.len(),
        region_match(regions[i], pattern) == Some(offset),
        forall|j: int| 0 <= j < i ==> region_match(regions[j], pattern) is None,
    ensures
        scan_result(regions, pattern) == Some((i, offset)),
    decreases i,
{
    if i == 0 {
    } else {
        lemma_scan_result_found(regions.skip(1), pattern, i - 1, offset);
    }
}

/// If no region has a match, the scan result is a miss.
pub proof fn lemma_scan_result_none(regions: Seq<RegionSnapshot>, pattern: Seq<PatternByte>)
    requires
        forall|j: int| 0 <= j < regions.len() ==> region_match(regions[j], pattern) is None,
    ensures
        scan_result(regions, pattern) is None,
    decreases regions.len(),
{
    if regions.len() > 0 {
        lemma_scan_result_none(regions.skip(1), pattern);
    }
}

/// A region that held a match, returned with the full raw bytes of the
/// snapshot so the caller can inspect bytes next to the match (the cave
/// search does) without a second remote read.
#[derive(Debug)]
pub struct Region {
    pub address: usize,
    pub data: Vec<u8>,
}

/// Why a scan failed.
#[derive(Clone, Copy, PartialEq, Eq, Structural, Debug)]
pub enum ScanError {
    /// Every region was walked and none held a match.
    PatternNotFound,
}

/// An exact copy of a buffer.
fn copy_bytes(data: &Vec<u8>) -> (r: Vec<u8>)
    ensures
        r@ == data@,
{
    let n = data.len();
    let mut r: Vec<u8> = Vec::new();
    let mut i: usize = 0;
    while i < n
        invariant
            n == data@.len(),
            0 <= i <= n,
            r@ == data@.subrange(0, i as int),
        decreases n - i,
    {
        r.push(data[i]);
        i += 1;
    }
    proof {
        assert(r@ =~= data@);
    }
    r
}

/// Scans the snapshots in walk order and returns the first region with a
/// match, its full bytes, and the leftmost match offset inside it; fails
/// with `PatternNotFound` only after every region was tried. Regions that
/// did not take part in the search (skipped by the rule, or read failure)
/// are never consulted.
pub fn find_pattern(regions: &Vec<RegionSnapshot>, pattern: &Vec<PatternByte>) -> (r: Result<
    (Region, usize),
    ScanError,
>)
    ensures
        match r {
            Ok(m) => {
                &&& scan_result(regions@, pattern@) is Some
                &&& {
                    let hit = scan_result(regions@, pattern@).unwrap();
                    &&& searchable(regions@[hit.0])
                    &&& m.0.address == regions@[hit.0].info.address
                    &&& m.0.data@ == regions@[hit.0].data.unwrap()@
                    &&& m.1 == hit.1
                }
            },
            Err(e) => {
                &&& e == ScanError::PatternNotFound
                &&& scan_result(regions@, pattern@) is None
            },
        },
{
    let n = regions.len();
    let mut idx: usize = 0;
    while idx < n
        invariant
            n == regions@.len(),
            0 <= idx <= n,
            forall|j: int| 0 <= j < idx ==> region_match(regions@[j], pattern@) is None,
        decreases n - idx,
    {
        let region = &regions[idx];
        if should_scan(&region.info) {
            match &region.data {
                Some(data) => {
                    match find_in_buffer(data, pattern) {
                        Some(offset) => {
                            proof {
                                lemma_scan_result_found(
                                    regions@,
                                    pattern@,
                                    idx as int,
                                    offset as int,
                                );
                            }
                            let copied = copy_bytes(data);
                            return Ok((Region { address: region.info.address, data: copied }, offset));
                        },
                        None => {
                            assert(region_match(regions@[idx as int], pattern@) is None);
                        },
                    }
                },
                None => {
                    assert(region_match(regions@[idx as int], pattern@) is None);
                },
            }
        } else {
            assert(region_match(regions@[idx as int], pattern@) is None);
        }
        idx += 1;
    }
    proof {
        lemma_scan_result_none(regions@, pattern@);
    }
    Err(ScanError::PatternNotFound)
}

/// The scan result reads nothing from a region the skip rule refuses: two
/// snapshot lists with the same metadata, whose readable regions hold the
/// same bytes, scan to the same result, whatever bytes (if any) their
/// skipped or unreadable regions carry.
pub proof fn lemma_scan_ignores_skipped(
    a: Seq<RegionSnapshot>,
    b: Seq<RegionSnapshot>,
    pattern: Seq<PatternByte>,
)
    requires
        a.len() == b.len(),
        forall|i: int| 0 <= i < a.len() ==> a[i].info == b[i].info,
        forall|i: int|
            0 <= i < a.len() && scannable(a[i].info) ==> {
                &&& (a[i].data is Some <==> b[i].data is Some)
                &&& (a[i].data is Some ==> a[i].data.unwrap()@ == b[i].data.unwrap()@)
            },
    ensures
        scan_result(a, pattern) == scan_result(b, pattern),
    decreases a.len(),
{
    if a.len() > 0 {
        assert(region_match(a[0], pattern) == region_match(b[0], pattern));
        lemma_scan_ignores_skipped(a.skip(1), b.skip(1), pattern);
    }
}

} // verus!
