//! The sprint-speed tweak: a direct 4-byte value patch.
//!
//! Its slot lives in heap memory and is found once, at construction, by a
//! heap-wide signature scan; the matched pattern brackets the default
//! value, and the slot sits 8 bytes into the match. Enabling snapshots the
//! 4 bytes at the slot and overwrites them with the logical value;
//! disabling restores the snapshot.

use vstd::prelude::*;

use crate::config::TweakConfig;
use crate::config::TweakKey;
use crate::patch::Patch;
use crate::patch::WriteOp;
use crate::patch::WriteView;
use crate::patch::ops_view;
use crate::pattern::PatternByte;
use crate::scan::RegionSnapshot;
use crate::scan::find_pattern;
use crate::scan::region_wf;
use crate::scan::scan_result;
use crate::tweaks::Tweak;
use crate::tweaks::TweakError;
use crate::tweaks::TweakIntent;
use crate::tweaks::TweakModel;
use vstd::bytes::spec_u32_to_le_bytes;
use vstd::bytes::u32_to_le_bytes;

verus! {

/// Bit image of the 32-bit float 6.8, the game's own sprint speed.
pub const SPRINT_SPEED_DEFAULT: u32 = 0x40D9_999A;

/// Bit image of the 32-bit float 0.0.
pub const SPRINT_SPEED_MIN: u32 = 0x0000_0000;

/// Bit image of the 32-bit float 12.0.
pub const SPRINT_SPEED_MAX: u32 = 0x4140_0000;

/// The heap signature: the default sprint speed (6.8 as a little-endian
/// 32-bit float, `9A 99 D9 40`) bracketed by the markers around it.
pub open spec fn sprint_speed_pattern() -> Seq<PatternByte> {
    seq![
        PatternByte::Literal(0x00),
        PatternByte::Literal(0x00),
        PatternByte::Literal(0x00),
        PatternByte::Literal(0x00),
        PatternByte::Literal(0x33),
        PatternByte::Literal(0xFF),
        PatternByte::Literal(0x33),
        PatternByte::Literal(0x3E),
        PatternByte::Literal(0x9A),
        PatternByte::Literal(0x99),
        PatternByte::Literal(0xD9),
        PatternByte::Literal(0x40),
        PatternByte::Literal(0x00),
        PatternByte::Literal(0x00),
        PatternByte::Literal(0x00),
        PatternByte::Literal(0x00),
    ]
}

/// The executable form of [`sprint_speed_pattern`].
fn sprint_speed_pattern_vec() -> (r: Vec<PatternByte>)
    ensures
        r@ == sprint_speed_pattern(),
{
    let r = vec![
        PatternByte::Literal(0x00),
        PatternByte::Literal(0x00),
        PatternByte::Literal(0x00),
        PatternByte::Literal(0x00),
        PatternByte::Literal(0x33),
        PatternByte::Literal(0xFF),
        PatternByte::Literal(0x33),
        PatternByte::Literal(0x3E),
        PatternByte::Literal(0x9A),
        PatternByte::Literal(0x99),
        PatternByte::Literal(0xD9),
        PatternByte::Literal(0x40),
        PatternByte::Literal(0x00),
        PatternByte::Literal(0x00),
        PatternByte::Literal(0x00),
        PatternByte::Literal(0x00),
    ];
    proof {
        assert(r@ =~= sprint_speed_pattern());
    }
    r
}

enum State {
    Disabled,
    Enabled { patch: Patch },
}

/// A tweak over the live sprint-speed value: one reversible 4-byte patch
/// at a heap slot found by signature scan.
pub struct SprintSpeedTweak {
    address: usize,
    value: u32,
    state: State,
}

impl SprintSpeedTweak {
    /// The address of the patched slot.
    pub closed spec fn spec_address(&self) -> int {
        self.address as int
    }

    /// Finds the slot by the heap-wide signature scan: the slot lies 8
    /// bytes into the leftmost match of the first matching region. The
    /// tweak starts disabled, at the default value.
    pub fn new(regions: &Vec<RegionSnapshot>) -> (r: Result<SprintSpeedTweak, TweakError>)
        requires
            forall|i: int| 0 <= i < regions@.len() ==> region_wf(#[trigger] regions@[i]),
        ensures
            match r {
                Ok(t) => {
                    &&& t.inv()
                    &&& scan_result(regions@, sprint_speed_pattern()) is Some
                    &&& {
                        let hit = scan_result(regions@, sprint_speed_pattern()).unwrap();
                        t.model() == (TweakModel {
                            enabled: false,
                            value: SPRINT_SPEED_DEFAULT,
                            slot: regions@[hit.0].info.address + hit.1 + 8,
                            patches: Seq::<WriteView>::empty(),
                        })
                    }
                },
                Err(e) => {
                    &&& e == TweakError::PatternNotFound
                    &&& scan_result(regions@, sprint_speed_pattern()) is None
                },
            },
    {
        let pattern = sprint_speed_pattern_vec();
        match find_pattern(regions, &pattern) {
            Ok((region, offset)) => {
                proof {
                    crate::scan::lemma_scan_result_spec(regions@, pattern@);
                    let hit = scan_result(regions@, pattern@).unwrap();
                    crate::pattern::lemma_first_match_from_spec(
                        regions@[hit.0].data.unwrap()@,
                        pattern@,
                        0,
                    );
                }
                let address = region.address + offset + 8;
                Ok(SprintSpeedTweak {
                    address,
                    value: SPRINT_SPEED_DEFAULT,
                    state: State::Disabled,
                })
            },
            Err(_) => Err(TweakError::PatternNotFound),
        }
    }
}

impl Tweak for SprintSpeedTweak {
    closed spec fn model(&self) -> TweakModel {
        TweakModel {
            enabled: self.state is Enabled,
            value: self.value,
            slot: self.address as int,
            patches: match self.state {
                State::Disabled => Seq::<WriteView>::empty(),
                State::Enabled { patch } => seq![patch.restore_view()],
            },
        }
    }

    closed spec fn inv(&self) -> bool {
        &&& self.address + 4 <= usize::MAX
        &&& match self.state {
            State::Disabled => true,
            State::Enabled { patch } => {
                &&& patch.spec_address() == self.address
                &&& patch.spec_original().len() == 4
            },
        }
    }

    open spec fn spec_default(&self) -> u32 {
        SPRINT_SPEED_DEFAULT
    }

    open spec fn spec_min(&self) -> u32 {
        SPRINT_SPEED_MIN
    }

    open spec fn spec_max(&self) -> u32 {
        SPRINT_SPEED_MAX
    }

    open spec fn spec_key(&self) -> TweakKey {
        TweakKey::SprintSpeed
    }

    open spec fn read_request(&self) -> (int, int) {
        (self.spec_address(), 4)
    }

    open spec fn enable_model(&self, mem: Seq<u8>) -> TweakModel {
        TweakModel {
            enabled: true,
            value: self.model().value,
            slot: self.model().slot,
            patches: seq![WriteView { address: self.model().slot, bytes: mem }],
        }
    }

    open spec fn enable_ops(&self, mem: Seq<u8>) -> Seq<WriteView> {
        seq![
            WriteView {
                address: self.model().slot,
                bytes: spec_u32_to_le_bytes(self.model().value),
            },
        ]
    }

    fn name(&self) -> (r: &'static str) {
        "Sprint Speed"
    }

    fn intent(&self) -> (r: TweakIntent) {
        TweakIntent::Increase
    }

    fn config_key(&self) -> (r: TweakKey) {
        TweakKey::SprintSpeed
    }

    fn default_value(&self) -> (r: u32) {
        SPRINT_SPEED_DEFAULT
    }

    fn min_value(&self) -> (r: u32) {
        SPRINT_SPEED_MIN
    }

    fn max_value(&self) -> (r: u32) {
        SPRINT_SPEED_MAX
    }

    fn enabled(&self) -> (r: bool) {
        matches!(self.state, State::Enabled { .. })
    }

    fn value(&self) -> (r: u32) {
        self.value
    }

    fn enable_read(&self) -> (r: Option<(usize, usize)>) {
        match self.state {
            State::Disabled => Some((self.address, 4)),
            State::Enabled { .. } => None,
        }
    }

    fn enable(&mut self, memory: Vec<u8>) -> (ops: Vec<WriteOp>) {
        if matches!(self.state, State::Enabled { .. }) {
            return Vec::new();
        }
        let value_bytes = u32_to_le_bytes(self.value);
        let (patch, op) = Patch::apply(self.address, value_bytes, memory);
        self.state = State::Enabled { patch };
        let mut ops: Vec<WriteOp> = Vec::new();
        ops.push(op);
        proof {
            assert(ops_view(ops@) =~= old(self).enable_ops(memory@));
        }
        ops
    }

    fn disable(&mut self) -> (ops: Vec<WriteOp>) {
        let mut taken = State::Disabled;
        core::mem::swap(&mut self.state, &mut taken);
        match taken {
            State::Disabled => Vec::new(),
            State::Enabled { patch } => {
                let mut ops: Vec<WriteOp> = Vec::new();
                ops.push(patch.release());
                proof {
                    assert(ops_view(ops@) =~= old(self).model().patches.reverse());
                }
                ops
            },
        }
    }

    fn set_value(&mut self, value: u32) -> (op: Option<WriteOp>) {
        let op = match &self.state {
            State::Disabled => None,
            State::Enabled { patch } => Some(patch.update(u32_to_le_bytes(value))),
        };
        self.value = value;
        op
    }

    fn reset_value(&mut self) -> (op: Option<WriteOp>) {
        self.set_value(SPRINT_SPEED_DEFAULT)
    }

    fn load_config(&mut self, record: Option<TweakConfig>) -> (enable_requested: bool) {
        match record {
            Some(c) => {
                match c.value {
                    Some(v) => {
                        self.value = v;
                    },
                    None => {},
                }
                c.enabled
            },
            None => false,
        }
    }

    fn config_record(&self) -> (r: TweakConfig) {
        TweakConfig {
            enabled: matches!(self.state, State::Enabled { .. }),
            value: Some(self.value),
        }
    }
}

} // verus!
