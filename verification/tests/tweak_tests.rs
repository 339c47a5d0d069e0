//! The tweak state machines, end to end against simulated region
//! snapshots and a simulated target memory.

use mirage_tweaks::config::TweakConfig;
use mirage_tweaks::config::TweakKey;
use mirage_tweaks::patch::WriteOp;
use mirage_tweaks::scan::RegionInfo;
use mirage_tweaks::scan::RegionSnapshot;
use mirage_tweaks::tweaks::Tweak;
use mirage_tweaks::tweaks::TweakError;
use mirage_tweaks::tweaks::TweakIntent;
use mirage_tweaks::tweaks::eject_height::EJECT_HEIGHT_DEFAULT;
use mirage_tweaks::tweaks::eject_height::EjectHeightTweak;
use mirage_tweaks::tweaks::sprint_speed::SPRINT_SPEED_DEFAULT;
use mirage_tweaks::tweaks::sprint_speed::SPRINT_SPEED_MAX;
use mirage_tweaks::tweaks::sprint_speed::SprintSpeedTweak;

const SPRINT_PATTERN: [u8; 16] = [
    0x00, 0x00, 0x00, 0x00, 0x33, 0xFF, 0x33, 0x3E, 0x9A, 0x99, 0xD9, 0x40, 0x00, 0x00, 0x00,
    0x00,
];

fn readable(address: usize, data: Vec<u8>) -> RegionSnapshot {
    let size = data.len();
    RegionSnapshot {
        info: RegionInfo { address, size, committed: true, no_access: false, guard: false },
        data: Some(data),
    }
}

/// A simulated target region: performs the writes the tweaks hand out.
struct TargetMemory {
    base: usize,
    bytes: Vec<u8>,
}

impl TargetMemory {
    fn read(&self, address: usize, len: usize) -> Vec<u8> {
        let start = address - self.base;
        self.bytes[start..start + len].to_vec()
    }

    fn perform(&mut self, op: &WriteOp) {
        let start = op.address - self.base;
        self.bytes[start..start + op.bytes.len()].copy_from_slice(&op.bytes);
    }
}

fn sprint_region() -> (Vec<RegionSnapshot>, usize) {
    // The pattern sits at offset 6 of a heap region based at 0x20_0000;
    // the patched slot is 8 bytes into the match.
    let base = 0x20_0000;
    let mut data = vec![0x01u8; 6];
    data.extend_from_slice(&SPRINT_PATTERN);
    data.extend_from_slice(&[0x01, 0x01]);
    let slot = base + 6 + 8;
    (vec![readable(base, data)], slot)
}

#[test]
fn float_images_are_the_expected_constants() {
    assert_eq!(SPRINT_SPEED_DEFAULT, 6.8f32.to_bits());
    assert_eq!(SPRINT_SPEED_MAX, 12.0f32.to_bits());
    assert_eq!(EJECT_HEIGHT_DEFAULT, 1.3f32.to_bits());
    assert_eq!(mirage_tweaks::tweaks::eject_height::EJECT_HEIGHT_MAX, 6.0f32.to_bits());
    assert_eq!(mirage_tweaks::tweaks::sprint_speed::SPRINT_SPEED_MIN, 0.0f32.to_bits());
}

#[test]
fn sprint_construction_finds_the_slot() {
    let (regions, slot) = sprint_region();
    let t = SprintSpeedTweak::new(&regions).unwrap();
    assert!(!t.enabled());
    assert_eq!(t.value(), SPRINT_SPEED_DEFAULT);
    assert_eq!(t.enable_read(), Some((slot, 4)));
    assert_eq!(t.name(), "Sprint Speed");
    assert!(matches!(t.intent(), TweakIntent::Increase));
    assert!(matches!(t.config_key(), TweakKey::SprintSpeed));
    assert_eq!(t.default_value(), SPRINT_SPEED_DEFAULT);
}

#[test]
fn sprint_construction_fails_without_signature() {
    let regions = vec![readable(0x1000, vec![0u8; 64])];
    assert!(matches!(SprintSpeedTweak::new(&regions), Err(TweakError::PatternNotFound)));
}

#[test]
fn sprint_enable_disable_round_trip() {
    let (regions, slot) = sprint_region();
    let mut target = TargetMemory {
        base: 0x20_0000,
        bytes: regions[0].data.clone().unwrap(),
    };
    let initial = target.bytes.clone();

    let mut t = SprintSpeedTweak::new(&regions).unwrap();
    let (address, len) = t.enable_read().unwrap();
    assert_eq!((address, len), (slot, 4));

    let ops = t.enable(target.read(address, len));
    assert!(t.enabled());
    assert_eq!(ops.len(), 1);
    assert_eq!(ops[0].address, slot);
    assert_eq!(ops[0].bytes, SPRINT_SPEED_DEFAULT.to_le_bytes().to_vec());
    for op in &ops {
        target.perform(op);
    }
    assert_eq!(target.read(slot, 4), SPRINT_SPEED_DEFAULT.to_le_bytes().to_vec());

    // Enabling an enabled tweak is a no-op: no writes, same state.
    assert_eq!(t.enable_read(), None);
    let ops = t.enable(Vec::new());
    assert!(ops.is_empty());
    assert!(t.enabled());

    // Disable restores the snapshot taken at enable.
    let ops = t.disable();
    assert!(!t.enabled());
    assert_eq!(ops.len(), 1);
    for op in &ops {
        target.perform(op);
    }
    assert_eq!(target.bytes, initial);

    // Disabling a disabled tweak is a no-op.
    let ops = t.disable();
    assert!(ops.is_empty());
    assert!(!t.enabled());
}

#[test]
fn sprint_set_value_live_and_disabled() {
    let (regions, slot) = sprint_region();
    let mut t = SprintSpeedTweak::new(&regions).unwrap();

    // Disabled: the value is recorded, no write is owed.
    let op = t.set_value(9.5f32.to_bits());
    assert!(op.is_none());
    assert_eq!(t.value(), 9.5f32.to_bits());

    let (address, len) = t.enable_read().unwrap();
    let _ = t.enable(vec![0, 0, 0, 0]);
    assert_eq!((address, len), (slot, 4));

    // Enabled: the update write targets the slot.
    let op = t.set_value(11.0f32.to_bits()).unwrap();
    assert_eq!(op.address, slot);
    assert_eq!(op.bytes, 11.0f32.to_bits().to_le_bytes().to_vec());
    assert_eq!(t.value(), 11.0f32.to_bits());

    // Reset goes back to the default.
    let op = t.reset_value().unwrap();
    assert_eq!(op.bytes, SPRINT_SPEED_DEFAULT.to_le_bytes().to_vec());
    assert_eq!(t.value(), SPRINT_SPEED_DEFAULT);
}

#[test]
fn set_value_records_intent_even_if_the_live_write_fails() {
    // The live write of 5.0 fails (the returned op is never performed):
    // the logical value and the persisted record still show 5.0, and no
    // failure escapes to the caller.
    let (regions, _slot) = sprint_region();
    let mut t = SprintSpeedTweak::new(&regions).unwrap();
    let _ = t.enable(vec![0, 0, 0, 0]);

    let op = t.set_value(5.0f32.to_bits());
    assert!(op.is_some());
    drop(op);  // the caller could not perform it: handle invalid

    assert_eq!(t.value(), 5.0f32.to_bits());
    assert!(t.enabled());
    let record = t.config_record();
    assert!(record.enabled);
    assert_eq!(record.value, Some(5.0f32.to_bits()));
}

#[test]
fn load_config_applies_record_and_requests_enable() {
    let (regions, _slot) = sprint_region();

    let mut t = SprintSpeedTweak::new(&regions).unwrap();
    assert!(!t.load_config(None));
    assert_eq!(t.value(), SPRINT_SPEED_DEFAULT);

    let mut t = SprintSpeedTweak::new(&regions).unwrap();
    let enable = t.load_config(Some(TweakConfig {
        enabled: true,
        value: Some(10.25f32.to_bits()),
    }));
    assert!(enable);
    assert_eq!(t.value(), 10.25f32.to_bits());

    // A record whose value could not be parsed keeps the default.
    let mut t = SprintSpeedTweak::new(&regions).unwrap();
    let enable = t.load_config(Some(TweakConfig { enabled: false, value: None }));
    assert!(!enable);
    assert_eq!(t.value(), SPRINT_SPEED_DEFAULT);
}

fn eject_region() -> (Vec<RegionSnapshot>, usize, usize) {
    // The anchor pattern sits at offset 0x40 of a code region based at
    // 0x1000, so the instruction is at 0x1040. The first aligned window
    // after it (0x1048) holds the next instruction's bytes; filler
    // starts at 0x1050, 8 bytes past the anchor's end.
    let base = 0x1000;
    let mut data = vec![0x90u8; 0x40];
    data.extend_from_slice(&[
        0xF3, 0x0F, 0x10, 0x25, 0x12, 0x34, 0x56, 0x78,  // anchor, disp 0x78563412
        0xF3, 0x0F, 0x10, 0x6C, 0x24, 0x58,              // following instruction
        0x24, 0x58,                                      // more code
    ]);
    data.extend_from_slice(&[0xCC; 0x10]);
    (vec![readable(base, data)], 0x1040, 0x1050)
}

#[test]
fn eject_construction_finds_anchor_and_cave() {
    let (regions, instruction_address, cave_address) = eject_region();
    let t = EjectHeightTweak::new(&regions).unwrap();
    assert!(!t.enabled());
    assert_eq!(t.value(), EJECT_HEIGHT_DEFAULT);
    // To enable, the caller reads from the anchor through the cave slot.
    let expected_len = cave_address - instruction_address + 4;
    assert_eq!(t.enable_read(), Some((instruction_address, expected_len)));
    assert_eq!(t.name(), "Eject Height");
    assert!(matches!(t.config_key(), TweakKey::EjectHeight));
}

#[test]
fn eject_construction_fails_without_cave() {
    // The anchor matches but nothing after it is filler.
    let base = 0x1000;
    let mut data = vec![0x90u8; 0x40];
    data.extend_from_slice(&[
        0xF3, 0x0F, 0x10, 0x25, 0x12, 0x34, 0x56, 0x78, 0xF3, 0x0F, 0x10, 0x6C, 0x24, 0x58,
    ]);
    data.extend_from_slice(&[0x90; 0x10]);
    let regions = vec![readable(base, data)];
    assert!(matches!(EjectHeightTweak::new(&regions), Err(TweakError::CaveNotFound)));
}

#[test]
fn eject_construction_fails_without_signature() {
    let regions = vec![readable(0x1000, vec![0x90u8; 0x80])];
    assert!(matches!(EjectHeightTweak::new(&regions), Err(TweakError::PatternNotFound)));
}

#[test]
fn eject_enable_rewrites_instruction_and_fills_cave() {
    let (regions, instruction_address, cave_address) = eject_region();
    let mut target = TargetMemory {
        base: 0x1000,
        bytes: regions[0].data.clone().unwrap(),
    };
    let initial = target.bytes.clone();

    let mut t = EjectHeightTweak::new(&regions).unwrap();
    let (address, len) = t.enable_read().unwrap();
    let ops = t.enable(target.read(address, len));
    assert!(t.enabled());
    assert_eq!(ops.len(), 2);

    // First the value goes into the cave, then the anchor is redirected.
    assert_eq!(ops[0].address, cave_address);
    assert_eq!(ops[0].bytes, EJECT_HEIGHT_DEFAULT.to_le_bytes().to_vec());
    assert_eq!(ops[1].address, instruction_address);
    let displacement = (cave_address - instruction_address - 8) as u32;
    let mut expected = vec![0xF3, 0x0F, 0x10, 0x25];
    expected.extend_from_slice(&displacement.to_le_bytes());
    assert_eq!(ops[1].bytes, expected);

    for op in &ops {
        target.perform(op);
    }
    assert_eq!(target.read(cave_address, 4), EJECT_HEIGHT_DEFAULT.to_le_bytes().to_vec());
    assert_eq!(target.read(instruction_address, 8), expected);

    // Live update writes the cave slot only.
    let op = t.set_value(4.5f32.to_bits()).unwrap();
    assert_eq!(op.address, cave_address);
    target.perform(&op);

    // Disable releases in reverse order of application and restores the
    // exact pre-enable image, whatever the updates did in between.
    let ops = t.disable();
    assert!(!t.enabled());
    assert_eq!(ops.len(), 2);
    assert_eq!(ops[0].address, instruction_address);
    assert_eq!(ops[1].address, cave_address);
    for op in &ops {
        target.perform(op);
    }
    assert_eq!(target.bytes, initial);
}
