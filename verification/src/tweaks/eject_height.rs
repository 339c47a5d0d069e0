//! The eject-height tweak: an instruction redirect plus a cave-held value.
//!
//! The anchor instruction (`movss xmm4, [rip + disp]`) is found once, at
//! construction, by a code-section signature scan, and a code cave — four
//! filler bytes at a 4-byte-aligned address — is located right after it in
//! the same scanned buffer. Enabling writes the logical value into the
//! cave and rewrites the instruction's displacement to point there; both
//! writes are reversible patches, released in reverse order on disable.

use vstd::prelude::*;

use crate::cave::CaveError;
use crate::cave::cave_result;
use crate::cave::find_cave;
use crate::config::TweakConfig;
use crate::config::TweakKey;
use crate::patch::Patch;
use crate::patch::WriteOp;
use crate::patch::WriteView;
use crate::patch::copy_range;
use crate::patch::ops_view;
use crate::pattern::PatternByte;
use crate::scan::RegionSnapshot;
use crate::scan::find_pattern;
use crate::scan::region_wf;
use crate::scan::scan_result;
use crate::tweaks::Tweak;
use crate::tweaks::TweakError;
use crate::tweaks::TweakIntent;
use crate::tweaks::TweakModel;
use vstd::bytes::spec_u32_to_le_bytes;
use vstd::bytes::u32_to_le_bytes;

verus! {

/// Bit image of the 32-bit float 1.3, the game's own eject height.
pub const EJECT_HEIGHT_DEFAULT: u32 = 0x3FA6_6666;

/// Bit image of the 32-bit float 0.0.
pub const EJECT_HEIGHT_MIN: u32 = 0x0000_0000;

/// Bit image of the 32-bit float 6.0.
pub const EJECT_HEIGHT_MAX: u32 = 0x40C0_0000;

/// The length in bytes of the anchor instruction that is rewritten.
pub const EJECT_INSTRUCTION_LEN: usize = 8;

/// The pad byte the compiler leaves between functions: what a code cave
/// is made of.
pub const CAVE_FILLER: u8 = 0xCC;

/// The code-section signature: the anchor `movss xmm4, [rip + disp]` with
/// its four displacement bytes wildcarded, followed by the
/// `movss xmm5, [rsp + 0x58]` that identifies the site.
pub open spec fn eject_height_pattern() -> Seq<PatternByte> {
    seq![
        PatternByte::Literal(0xF3),
        PatternByte::Literal(0x0F),
        PatternByte::Literal(0x10),
        PatternByte::Literal(0x25),
        PatternByte::Wildcard,
        PatternByte::Wildcard,
        PatternByte::Wildcard,
        PatternByte::Wildcard,
        PatternByte::Literal(0xF3),
        PatternByte::Literal(0x0F),
        PatternByte::Literal(0x10),
        PatternByte::Literal(0x6C),
        PatternByte::Literal(0x24),
        PatternByte::Literal(0x58),
    ]
}

/// The executable form of [`eject_height_pattern`].
fn eject_height_pattern_vec() -> (r: Vec<PatternByte>)
    ensures
        r@ == eject_height_pattern(),
{
    let r = vec![
        PatternByte::Literal(0xF3),
        PatternByte::Literal(0x0F),
        PatternByte::Literal(0x10),
        PatternByte::Literal(0x25),
        PatternByte::Wildcard,
        PatternByte::Wildcard,
        PatternByte::Wildcard,
        PatternByte::Wildcard,
        PatternByte::Literal(0xF3),
        PatternByte::Literal(0x0F),
        PatternByte::Literal(0x10),
        PatternByte::Literal(0x6C),
        PatternByte::Literal(0x24),
        PatternByte::Literal(0x58),
    ];
    proof {
        assert(r@ =~= eject_height_pattern());
    }
    r
}

/// The rewritten anchor: `movss xmm4, [rip + displacement]` — the opcode
/// bytes F3 0F 10 25 followed by the little-endian 32-bit displacement.
pub open spec fn movss_bytes(displacement: u32) -> Seq<u8> {
    seq![0xF3u8, 0x0Fu8, 0x10u8, 0x25u8] + spec_u32_to_le_bytes(displacement)
}

/// Builds the rewritten anchor instruction for a given displacement.
pub fn movss_instruction(displacement: u32) -> (r: Vec<u8>)
    ensures
        r@ == movss_bytes(displacement),
        r@.len() == 8,
{
    let mut r: Vec<u8> = Vec::new();
    r.push(0xF3);
    r.push(0x0F);
    r.push(0x10);
    r.push(0x25);
    let mut tail = u32_to_le_bytes(displacement);
    r.append(&mut tail);
    proof {
        assert(r@ =~= movss_bytes(displacement));
    }
    r
}

enum State {
    Disabled,
    Enabled { value_patch: Patch, instruction_patch: Patch },
}

/// A tweak over the eject height: the anchor instruction redirected to a
/// nearby code cave that holds the logical value.
pub struct EjectHeightTweak {
    instruction_address: usize,
    cave_offset: usize,
    value: u32,
    state: State,
}

impl EjectHeightTweak {
    /// The absolute address of the matched anchor instruction.
    pub closed spec fn spec_instruction_address(&self) -> int {
        self.instruction_address as int
    }

    /// The cave's distance past the end of the anchor instruction; the
    /// displacement the rewritten instruction encodes.
    pub closed spec fn spec_cave_offset(&self) -> int {
        self.cave_offset as int
    }

    /// Finds the anchor by the code-section signature scan and the cave
    /// right after it in the same buffer. The tweak starts disabled, at
    /// the default value. `CaveNotFound` also covers a cave so far out
    /// that a 32-bit displacement could not reach it.
    pub fn new(regions: &Vec<RegionSnapshot>) -> (r: Result<EjectHeightTweak, TweakError>)
        requires
            forall|i: int| 0 <= i < regions@.len() ==> region_wf(#[trigger] regions@[i]),
        ensures
            match r {
                Ok(t) => {
                    &&& t.inv()
                    &&& scan_result(regions@, eject_height_pattern()) is Some
                    &&& {
                        let hit = scan_result(regions@, eject_height_pattern()).unwrap();
                        &&& t.spec_instruction_address() == regions@[hit.0].info.address + hit.1
                        &&& Some(t.spec_cave_offset()) == cave_result(
                            regions@[hit.0].data.unwrap()@,
                            regions@[hit.0].info.address as int,
                            hit.1,
                            EJECT_INSTRUCTION_LEN as int,
                            CAVE_FILLER,
                        )
                        &&& t.spec_cave_offset() <= i32::MAX
                        &&& t.model() == (TweakModel {
                            enabled: false,
                            value: EJECT_HEIGHT_DEFAULT,
                            slot: t.spec_instruction_address() + EJECT_INSTRUCTION_LEN
                                + t.spec_cave_offset(),
                            patches: Seq::<WriteView>::empty(),
                        })
                    }
                },
                Err(TweakError::PatternNotFound) => scan_result(
                    regions@,
                    eject_height_pattern(),
                ) is None,
                Err(TweakError::CaveNotFound) => {
                    &&& scan_result(regions@, eject_height_pattern()) is Some
                    &&& {
                        let hit = scan_result(regions@, eject_height_pattern()).unwrap();
                        let cave = cave_result(
                            regions@[hit.0].data.unwrap()@,
                            regions@[hit.0].info.address as int,
                            hit.1,
                            EJECT_INSTRUCTION_LEN as int,
                            CAVE_FILLER,
                        );
                        cave is None || cave.unwrap() > i32::MAX
                    }
                },
            },
    {
        let pattern = eject_height_pattern_vec();
        match find_pattern(regions, &pattern) {
            Ok((region, offset)) => {
                proof {
                    crate::scan::lemma_scan_result_spec(regions@, pattern@);
                    let hit = scan_result(regions@, pattern@).unwrap();
                    crate::pattern::lemma_first_match_from_spec(
                        regions@[hit.0].data.unwrap()@,
                        pattern@,
                        0,
                    );
                }
                let instruction_address = region.address + offset;
                match find_cave(
                    &region.data,
                    region.address,
                    offset,
                    EJECT_INSTRUCTION_LEN,
                    CAVE_FILLER,
                ) {
                    Ok(cave_offset) => {
                        if cave_offset > 0x7FFF_FFFF {
                            return Err(TweakError::CaveNotFound);
                        }
                        proof {
                            crate::cave::lemma_cave_result_from_spec(
                                region.data@,
                                offset as int,
                                EJECT_INSTRUCTION_LEN as int,
                                crate::cave::first_candidate(
                                    region.address + offset,
                                    EJECT_INSTRUCTION_LEN as int,
                                ),
                                CAVE_FILLER,
                            );
                        }
                        Ok(EjectHeightTweak {
                            instruction_address,
                            cave_offset,
                            value: EJECT_HEIGHT_DEFAULT,
                            state: State::Disabled,
                        })
                    },
                    Err(CaveError::CaveNotFound) => Err(TweakError::CaveNotFound),
                }
            },
            Err(_) => Err(TweakError::PatternNotFound),
        }
    }
}

impl Tweak for EjectHeightTweak {
    closed spec fn model(&self) -> TweakModel {
        TweakModel {
            enabled: self.state is Enabled,
            value: self.value,
            slot: self.instruction_address + EJECT_INSTRUCTION_LEN + self.cave_offset,
            patches: match self.state {
                State::Disabled => Seq::<WriteView>::empty(),
                State::Enabled { value_patch, instruction_patch } => seq![
                    value_patch.restore_view(),
                    instruction_patch.restore_view(),
                ],
            },
        }
    }

    closed spec fn inv(&self) -> bool {
        &&& self.instruction_address + EJECT_INSTRUCTION_LEN + self.cave_offset + 4 <= usize::MAX
        &&& self.cave_offset <= i32::MAX
        &&& match self.state {
            State::Disabled => true,
            State::Enabled { value_patch, instruction_patch } => {
                &&& value_patch.spec_address() == self.instruction_address
                    + EJECT_INSTRUCTION_LEN + self.cave_offset
                &&& value_patch.spec_original().len() == 4
                &&& instruction_patch.spec_address() == self.instruction_address
                &&& instruction_patch.spec_original().len() == EJECT_INSTRUCTION_LEN
            },
        }
    }

    open spec fn spec_default(&self) -> u32 {
        EJECT_HEIGHT_DEFAULT
    }

    open spec fn spec_min(&self) -> u32 {
        EJECT_HEIGHT_MIN
    }

    open spec fn spec_max(&self) -> u32 {
        EJECT_HEIGHT_MAX
    }

    open spec fn spec_key(&self) -> TweakKey {
        TweakKey::EjectHeight
    }

    open spec fn read_request(&self) -> (int, int) {
        (
            self.spec_instruction_address(),
            EJECT_INSTRUCTION_LEN + self.spec_cave_offset() + 4,
        )
    }

    open spec fn enable_model(&self, mem: Seq<u8>) -> TweakModel {
        TweakModel {
            enabled: true,
            value: self.model().value,
            slot: self.model().slot,
            patches: seq![
                WriteView {
                    address: self.model().slot,
                    bytes: mem.subrange(
                        EJECT_INSTRUCTION_LEN + self.spec_cave_offset(),
                        EJECT_INSTRUCTION_LEN + self.spec_cave_offset() + 4,
                    ),
                },
                WriteView {
                    address: self.spec_instruction_address(),
                    bytes: mem.subrange(0, EJECT_INSTRUCTION_LEN as int),
                },
            ],
        }
    }

    open spec fn enable_ops(&self, mem: Seq<u8>) -> Seq<WriteView> {
        seq![
            WriteView {
                address: self.model().slot,
                bytes: spec_u32_to_le_bytes(self.model().value),
            },
            WriteView {
                address: self.spec_instruction_address(),
                bytes: movss_bytes(self.spec_cave_offset() as u32),
            },
        ]
    }

    fn name(&self) -> (r: &'static str) {
        "Eject Height"
    }

    fn intent(&self) -> (r: TweakIntent) {
        TweakIntent::Increase
    }

    fn config_key(&self) -> (r: TweakKey) {
        TweakKey::EjectHeight
    }

    fn default_value(&self) -> (r: u32) {
        EJECT_HEIGHT_DEFAULT
    }

    fn min_value(&self) -> (r: u32) {
        EJECT_HEIGHT_MIN
    }

    fn max_value(&self) -> (r: u32) {
        EJECT_HEIGHT_MAX
    }

    fn enabled(&self) -> (r: bool) {
        matches!(self.state, State::Enabled { .. })
    }

    fn value(&self) -> (r: u32) {
        self.value
    }

    fn enable_read(&self) -> (r: Option<(usize, usize)>) {
        match self.state {
            State::Disabled => Some(
                (self.instruction_address, EJECT_INSTRUCTION_LEN + self.cave_offset + 4),
            ),
            State::Enabled { .. } => None,
        }
    }

    fn enable(&mut self, memory: Vec<u8>) -> (ops: Vec<WriteOp>) {
        if matches!(self.state, State::Enabled { .. }) {
            return Vec::new();
        }
        let full_cave_offset = EJECT_INSTRUCTION_LEN + self.cave_offset;
        let cave_address = self.instruction_address + full_cave_offset;

        let original_value = copy_range(&memory, full_cave_offset, full_cave_offset + 4);
        let value_bytes = u32_to_le_bytes(self.value);
        let (value_patch, value_op) = Patch::apply(cave_address, value_bytes, original_value);

        let original_instruction = copy_range(&memory, 0, EJECT_INSTRUCTION_LEN);
        let instruction = movss_instruction(self.cave_offset as u32);
        let (instruction_patch, instruction_op) = Patch::apply(
            self.instruction_address,
            instruction,
            original_instruction,
        );

        self.state = State::Enabled { value_patch, instruction_patch };
        let mut ops: Vec<WriteOp> = Vec::new();
        ops.push(value_op);
        ops.push(instruction_op);
        proof {
            assert(final(self).model().patches =~= old(self).enable_model(memory@).patches);
            assert(final(self).model() == old(self).enable_model(memory@));
            assert(ops_view(ops@) =~= old(self).enable_ops(memory@));
        }
        ops
    }

    fn disable(&mut self) -> (ops: Vec<WriteOp>) {
        let mut taken = State::Disabled;
        core::mem::swap(&mut self.state, &mut taken);
        match taken {
            State::Disabled => Vec::new(),
            State::Enabled { value_patch, instruction_patch } => {
                let mut ops: Vec<WriteOp> = Vec::new();
                ops.push(instruction_patch.release());
                ops.push(value_patch.release());
                proof {
                    assert(ops_view(ops@) =~= old(self).model().patches.reverse());
                }
                ops
            },
        }
    }

    fn set_value(&mut self, value: u32) -> (op: Option<WriteOp>) {
        let op = match &self.state {
            State::Disabled => None,
            State::Enabled { value_patch, .. } => Some(value_patch.update(u32_to_le_bytes(value))),
        };
        self.value = value;
        op
    }

    fn reset_value(&mut self) -> (op: Option<WriteOp>) {
        self.set_value(EJECT_HEIGHT_DEFAULT)
    }

    fn load_config(&mut self, record: Option<TweakConfig>) -> (enable_requested: bool) {
        match record {
            Some(c) => {
                match c.value {
                    Some(v) => {
                        self.value = v;
                    },
                    None => {},
                }
                c.enabled
            },
            None => false,
        }
    }

    fn config_record(&self) -> (r: TweakConfig) {
        TweakConfig {
            enabled: matches!(self.state, State::Enabled { .. }),
            value: Some(self.value),
        }
    }
}

} // verus!
