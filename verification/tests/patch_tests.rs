//! Reversible patches, exercised against a simulated memory: whatever the
//! first write and any number of updates did, the release write restores
//! the byte image observed before the patch.

use mirage_tweaks::patch::Patch;
use mirage_tweaks::patch::WriteOp;

/// Performs one write against a simulated memory based at `base`.
fn perform(mem: &mut Vec<u8>, base: usize, op: &WriteOp) {
    let start = op.address - base;
    mem[start..start + op.bytes.len()].copy_from_slice(&op.bytes);
}

fn snapshot(mem: &[u8], base: usize, address: usize, len: usize) -> Vec<u8> {
    mem[address - base..address - base + len].to_vec()
}

#[test]
fn apply_writes_value_and_keeps_original() {
    let base = 0x1000;
    let mut mem = vec![0x11, 0x22, 0x33, 0x44, 0x55];
    let original = snapshot(&mem, base, 0x1001, 2);
    let (patch, op) = Patch::apply(0x1001, vec![0xAA, 0xBB], original);
    assert_eq!(op.address, 0x1001);
    assert_eq!(op.bytes, vec![0xAA, 0xBB]);
    perform(&mut mem, base, &op);
    assert_eq!(mem, vec![0x11, 0xAA, 0xBB, 0x44, 0x55]);
    assert_eq!(patch.address(), 0x1001);
}

#[test]
fn round_trip_restores_pre_apply_image() {
    let base = 0x2000;
    let initial = vec![0x10, 0x20, 0x30, 0x40, 0x50, 0x60];
    let mut mem = initial.clone();

    let original = snapshot(&mem, base, 0x2002, 2);
    let (patch, op) = Patch::apply(0x2002, vec![0x01, 0x02], original);
    perform(&mut mem, base, &op);
    assert_ne!(mem, initial);

    // Any number of intermediate updates at the same slot.
    for value in [[0x03, 0x04], [0x05, 0x06], [0x07, 0x08]] {
        let op = patch.update(value.to_vec());
        assert_eq!(op.address, 0x2002);
        perform(&mut mem, base, &op);
    }
    assert_eq!(mem, vec![0x10, 0x20, 0x07, 0x08, 0x50, 0x60]);

    // Release restores exactly the pre-apply image.
    let op = patch.release();
    perform(&mut mem, base, &op);
    assert_eq!(mem, initial);
}

#[test]
fn update_targets_the_patched_address() {
    let (patch, _op) = Patch::apply(0x3000, vec![9, 9, 9, 9], vec![1, 2, 3, 4]);
    let op = patch.update(vec![7, 7, 7, 7]);
    assert_eq!(op.address, 0x3000);
    assert_eq!(op.bytes, vec![7, 7, 7, 7]);
}

#[test]
fn release_carries_the_captured_bytes() {
    let (patch, _op) = Patch::apply(0x4000, vec![0xFF], vec![0x5A]);
    let op = patch.release();
    assert_eq!(op.address, 0x4000);
    assert_eq!(op.bytes, vec![0x5A]);
}

#[test]
fn release_after_failed_first_write_is_harmless() {
    // The caller read the original, but the first write never landed.
    // Performing the release write anyway leaves memory as it was.
    let base = 0x5000;
    let initial = vec![0xDE, 0xAD, 0xBE, 0xEF];
    let mut mem = initial.clone();
    let original = snapshot(&mem, base, 0x5000, 4);
    let (patch, _unperformed) = Patch::apply(0x5000, vec![0, 0, 0, 0], original);
    let op = patch.release();
    perform(&mut mem, base, &op);
    assert_eq!(mem, initial);
}
