//! Reversible patches.
//!
//! A patch captures the original bytes at an address before anything is
//! changed, and its release hands back the write that restores exactly
//! those bytes. The remote writes themselves are I/O and live outside this
//! crate: every operation here returns a [`WriteOp`] for the caller to
//! perform, so the caller can also decide what a failed remote write means.
//! [`lemma_patch_round_trip`] states the guarantee the shape of these
//! operations gives: after the first write and any number of updates, all
//! at the patch's address and width, the release write restores the memory
//! image observed before the patch was applied.

use vstd::prelude::*;

verus! {

/// One remote write for the caller to perform: `bytes` go to `address`.
#[derive(Debug)]
pub struct WriteOp {
    pub address: usize,
    pub bytes: Vec<u8>,
}

/// The mathematical image of one write: where it goes and what it writes.
pub struct WriteView {
    pub address: int,
    pub bytes: Seq<u8>,
}

impl View for WriteOp {
    type V = WriteView;

    open spec fn view(&self) -> WriteView {
        WriteView { address: self.address as int, bytes: self.bytes@ }
    }
}

/// The images of a list of writes, in order.
pub open spec fn ops_view(ops: Seq<WriteOp>) -> Seq<WriteView> {
    ops.map_values(|op: WriteOp| op@)
}

/// A memory image with `bytes` written at `address`: the bytes inside the
/// window are replaced and all others kept. A write whose window does not
/// lie inside the image leaves it unchanged.
pub open spec fn write_at(mem: Seq<u8>, address: int, bytes: Seq<u8>) -> Seq<u8> {
    if 0 <= address && address + bytes.len() <= mem.len() {
        Seq::new(
            mem.len(),
            |i: int|
                if address <= i < address + bytes.len() {
                    bytes[i - address]
                } else {
                    mem[i]
                },
        )
    } else {
        mem
    }
}

/// A memory image after a list of writes, applied first to last.
pub open spec fn apply_writes(mem: Seq<u8>, writes: Seq<WriteView>) -> Seq<u8>
    decreases writes.len(),
{
    if writes.len() == 0 {
        mem
    } else {
        apply_writes(write_at(mem, writes[0].address, writes[0].bytes), writes.skip(1))
    }
}

/// Writes confined to one window change nothing outside it: the image keeps
/// its length, and every byte outside the window keeps its value.
pub proof fn lemma_writes_change_only_window(
    mem: Seq<u8>,
    address: int,
    len: nat,
    writes: Seq<WriteView>,
)
    requires
        forall|k: int|
            0 <= k < writes.len() ==> (#[trigger] writes[k]).address == address
                && writes[k].bytes.len() == len,
    ensures
        apply_writes(mem, writes).len() == mem.len(),
        forall|i: int|
            0 <= i < mem.len() && !(address <= i < address + len)
                ==> #[trigger] apply_writes(mem, writes)[i] == mem[i],
    decreases writes.len(),
{
    if writes.len() > 0 {
        let mem1 = write_at(mem, writes[0].address, writes[0].bytes);
        assert forall|k: int|
            0 <= k < writes.skip(1).len() implies (#[trigger] writes.skip(1)[k]).address == address
            && writes.skip(1)[k].bytes.len() == len by {
            assert(writes.skip(1)[k] == writes[k + 1]);
        }
        lemma_writes_change_only_window(mem1, address, len, writes.skip(1));
    }
}

/// The round trip a reversible patch guarantees: take the image of memory
/// before the patch, apply the patch's first write and then any number of
/// update writes, each at the patch's address and width; the release write,
/// which carries the bytes captured before the first write, restores the
/// image exactly.
pub proof fn lemma_patch_round_trip(mem0: Seq<u8>, address: int, len: nat, writes: Seq<WriteView>)
    requires
        0 <= address,
        address + len <= mem0.len(),
        forall|k: int|
            0 <= k < writes.len() ==> (#[trigger] writes[k]).address == address
                && writes[k].bytes.len() == len,
    ensures
        write_at(apply_writes(mem0, writes), address, mem0.subrange(address, address + len))
            == mem0,
{
    let original = mem0.subrange(address, address + len);
    let patched = apply_writes(mem0, writes);
    lemma_writes_change_only_window(mem0, address, len, writes);
    let restored = write_at(patched, address, original);
    assert forall|i: int| 0 <= i < mem0.len() implies restored[i] == mem0[i] by {
        if address <= i < address + len {
            assert(restored[i] == original[i - address]);
        }
    }
    assert(restored =~= mem0);
}

/// The round trip of two patches over windows that do not overlap, as a
/// tweak holds them: apply the first patch's writes, then the second's,
/// and release in reverse order of application; each release carries the
/// bytes its window held before anything was written, and the whole image
/// comes back exactly.
pub proof fn lemma_two_patch_round_trip(
    mem0: Seq<u8>,
    addr1: int,
    len1: nat,
    writes1: Seq<WriteView>,
    addr2: int,
    len2: nat,
    writes2: Seq<WriteView>,
)
    requires
        0 <= addr1,
        addr1 + len1 <= mem0.len(),
        0 <= addr2,
        addr2 + len2 <= mem0.len(),
        addr1 + len1 <= addr2 || addr2 + len2 <= addr1,
        forall|k: int|
            0 <= k < writes1.len() ==> (#[trigger] writes1[k]).address == addr1
                && writes1[k].bytes.len() == len1,
        forall|k: int|
            0 <= k < writes2.len() ==> (#[trigger] writes2[k]).address == addr2
                && writes2[k].bytes.len() == len2,
    ensures
        write_at(
            write_at(
                apply_writes(apply_writes(mem0, writes1), writes2),
                addr2,
                mem0.subrange(addr2, addr2 + len2),
            ),
            addr1,
            mem0.subrange(addr1, addr1 + len1),
        ) == mem0,
{
    let original1 = mem0.subrange(addr1, addr1 + len1);
    let original2 = mem0.subrange(addr2, addr2 + len2);
    let m1 = apply_writes(mem0, writes1);
    let m2 = apply_writes(m1, writes2);
    lemma_writes_change_only_window(mem0, addr1, len1, writes1);
    lemma_writes_change_only_window(m1, addr2, len2, writes2);
    let restored2 = write_at(m2, addr2, original2);
    let restored1 = write_at(restored2, addr1, original1);
    assert forall|i: int| 0 <= i < mem0.len() implies restored1[i] == mem0[i] by {
        if addr1 <= i < addr1 + len1 {
            assert(restored1[i] == original1[i - addr1]);
        } else if addr2 <= i < addr2 + len2 {
            assert(restored2[i] == original2[i - addr2]);
        }
    }
    assert(restored1 =~= mem0);
}

/// An exact copy of `data[start..end]`.
pub fn copy_range(data: &Vec<u8>, start: usize, end: usize) -> (r: Vec<u8>)
    requires
        start <= end <= data@.len(),
    ensures
        r@ == data@.subrange(start as int, end as int),
{
    let mut r: Vec<u8> = Vec::new();
    let mut i: usize = start;
    while i < end
        invariant
            start <= i <= end <= data@.len(),
            r@ == data@.subrange(start as int, i as int),
        decreases end - i,
    {
        r.push(data[i]);
        proof {
            assert(r@ =~= data@.subrange(start as int, i + 1));
        }
        i += 1;
    }
    r
}

/// A live reversible patch: the address it targets and the exact byte image
/// captured there before the first write. The captured bytes never change
/// after capture; release hands back the write that restores them.
#[derive(Debug)]
pub struct Patch {
    address: usize,
    original: Vec<u8>,
}

impl Patch {
    /// The patched address.
    pub closed spec fn spec_address(&self) -> int {
        self.address as int
    }

    /// The byte image captured before the first write.
    pub closed spec fn spec_original(&self) -> Seq<u8> {
        self.original@
    }

    /// The write that would restore the captured bytes: what release
    /// performs, and the whole of what the patch remembers.
    pub open spec fn restore_view(&self) -> WriteView {
        WriteView { address: self.spec_address(), bytes: self.spec_original() }
    }

    /// Builds a live patch over `original`, the byte image read at
    /// `address` just before this call, and hands back the first write,
    /// which puts `value` there. If that write fails, the caller may simply
    /// drop the patch: nothing was changed, and the restore write would
    /// put back the very bytes still in place.
    pub fn apply(address: usize, value: Vec<u8>, original: Vec<u8>) -> (r: (Patch, WriteOp))
        requires
            value@.len() == original@.len(),
        ensures
            r.0.spec_address() == address,
            r.0.spec_original() == original@,
            r.1@ == (WriteView { address: address as int, bytes: value@ }),
    {
        let patch = Patch { address, original };
        let op = WriteOp { address, bytes: value };
        (patch, op)
    }

    /// The patched address.
    pub fn address(&self) -> (r: usize)
        ensures
            r == self.spec_address(),
    {
        self.address
    }

    /// The write that overwrites the live value without touching the
    /// captured original: live tuning of an applied patch.
    pub fn update(&self, value: Vec<u8>) -> (op: WriteOp)
        requires
            value@.len() == self.spec_original().len(),
        ensures
            op@ == (WriteView { address: self.spec_address(), bytes: value@ }),
    {
        WriteOp { address: self.address, bytes: value }
    }

    /// Releases the patch: the returned write restores the captured
    /// original bytes. Consuming the patch makes the release deterministic
    /// and single.
    pub fn release(self) -> (op: WriteOp)
        ensures
            op@ == self.restore_view(),
    {
        WriteOp { address: self.address, bytes: self.original }
    }
}

} // verus!
