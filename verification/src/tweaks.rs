//! Tweaks: per-feature state machines over reversible patches.
//!
//! A tweak is either `Disabled` (no live patches, the logical value
//! remembered) or `Enabled` (holding the live patches as state data). The
//! remote reads and writes are I/O and live outside this crate: `enable`
//! takes the bytes the caller read at [`Tweak::read_request`] and every
//! transition hands back the writes the caller must perform, so a failed
//! remote write is the caller's to handle while the recorded state is
//! already exact.

use vstd::prelude::*;

pub mod eject_height;
pub mod sprint_speed;

use crate::config::TweakConfig;
use crate::config::TweakKey;
use crate::patch::WriteOp;
use crate::patch::WriteView;
use crate::patch::ops_view;
use vstd::bytes::spec_u32_to_le_bytes;

verus! {

/// What a tweak means to do to the value it patches; the control surface
/// uses it to snap out-of-intent edits back to the default.
#[derive(Clone, Copy, PartialEq, Eq, Structural, Debug)]
pub enum TweakIntent {
    Increase,
}

/// The readiness the loader publishes to the control surface while the
/// tweaks' one-time scans run.
#[derive(Clone, Copy, PartialEq, Eq, Structural, Debug)]
pub enum Status {
    Loading,
    Done,
}

/// Why constructing a tweak failed. Either way the failure is fatal to
/// this tweak's initialization only.
#[derive(Clone, Copy, PartialEq, Eq, Structural, Debug)]
pub enum TweakError {
    /// The tweak's signature was found in no region.
    PatternNotFound,
    /// No usable code cave lies near the matched instruction.
    CaveNotFound,
}

/// The abstract state of one tweak.
pub struct TweakModel {
    /// Whether the tweak is live in the target.
    pub enabled: bool,
    /// The logical value, as the bit image of the 32-bit float the target
    /// reads.
    pub value: u32,
    /// The address of the 4-byte slot that carries the live value while
    /// the tweak is enabled.
    pub slot: int,
    /// The live patches in application order, each as the restore write
    /// its release performs; empty while disabled.
    pub patches: Seq<WriteView>,
}

/// The enable/disable/set-value/reset lifecycle every tweak obeys.
pub trait Tweak: Sized {
    /// The abstract state.
    spec fn model(&self) -> TweakModel;

    /// The internal well-formedness that construction establishes and
    /// every operation preserves.
    spec fn inv(&self) -> bool;

    /// The default value (bit image of the 32-bit float).
    spec fn spec_default(&self) -> u32;

    /// The lower bound the control surface offers (bit image).
    spec fn spec_min(&self) -> u32;

    /// The upper bound the control surface offers (bit image).
    spec fn spec_max(&self) -> u32;

    /// The key under which the tweak persists its record.
    spec fn spec_key(&self) -> TweakKey;

    /// The read that enabling needs: address and length of the memory
    /// image `enable` takes.
    spec fn read_request(&self) -> (int, int);

    /// The state after enabling from `Disabled` with memory image `mem`.
    spec fn enable_model(&self, mem: Seq<u8>) -> TweakModel;

    /// The writes enabling from `Disabled` performs, in order.
    spec fn enable_ops(&self, mem: Seq<u8>) -> Seq<WriteView>;

    /// The tweak's display name.
    fn name(&self) -> (r: &'static str);

    /// What the tweak means to do to its value.
    fn intent(&self) -> (r: TweakIntent);

    /// The key under which the tweak persists its record.
    fn config_key(&self) -> (r: TweakKey)
        ensures
            r == self.spec_key(),
    ;

    /// The default value.
    fn default_value(&self) -> (r: u32)
        ensures
            r == self.spec_default(),
    ;

    /// The lower bound the control surface offers.
    fn min_value(&self) -> (r: u32)
        ensures
            r == self.spec_min(),
    ;

    /// The upper bound the control surface offers.
    fn max_value(&self) -> (r: u32)
        ensures
            r == self.spec_max(),
    ;

    /// Whether the tweak is live.
    fn enabled(&self) -> (r: bool)
        requires
            self.inv(),
        ensures
            r == self.model().enabled,
    ;

    /// The logical value.
    fn value(&self) -> (r: u32)
        requires
            self.inv(),
        ensures
            r == self.model().value,
    ;

    /// The read the caller must perform before `enable`: `None` when the
    /// tweak is already enabled and nothing need be read.
    fn enable_read(&self) -> (r: Option<(usize, usize)>)
        requires
            self.inv(),
        ensures
            (r is Some) == !self.model().enabled,
            r is Some ==> r.unwrap().0 == self.read_request().0 && r.unwrap().1
                == self.read_request().1,
    ;

    /// Enables the tweak. `memory` is the image the caller read at
    /// `read_request`; the returned writes are the caller's to perform, in
    /// order, and to release again (via `disable`) if one of them fails.
    /// Enabling an enabled tweak changes nothing and owes no write:
    /// enabling twice is enabling once.
    fn enable(&mut self, memory: Vec<u8>) -> (ops: Vec<WriteOp>)
        requires
            old(self).inv(),
            !old(self).model().enabled ==> memory@.len() == old(self).read_request().1,
        ensures
            final(self).inv(),
            old(self).model().enabled ==> *final(self) == *old(self) && ops@.len() == 0,
            !old(self).model().enabled ==> {
                &&& final(self).model() == old(self).enable_model(memory@)
                &&& ops_view(ops@) == old(self).enable_ops(memory@)
            },
    ;

    /// Disables the tweak: the returned writes release the live patches in
    /// reverse order of application, each restoring its captured bytes.
    /// Disabling a disabled tweak changes nothing and owes no write:
    /// disabling twice is disabling once.
    fn disable(&mut self) -> (ops: Vec<WriteOp>)
        requires
            old(self).inv(),
        ensures
            final(self).inv(),
            !old(self).model().enabled ==> *final(self) == *old(self) && ops@.len() == 0,
            old(self).model().enabled ==> {
                &&& final(self).model() == (TweakModel {
                    enabled: false,
                    patches: Seq::<WriteView>::empty(),
                    ..old(self).model()
                })
                &&& ops_view(ops@) == old(self).model().patches.reverse()
            },
    ;

    /// Records `value` as the logical value, enabled or not, and if the
    /// tweak is enabled hands back the live update write for the caller to
    /// attempt. The value is recorded either way: even when that write
    /// then fails, the state and the persisted record reflect the caller's
    /// intent.
    fn set_value(&mut self, value: u32) -> (op: Option<WriteOp>)
        requires
            old(self).inv(),
        ensures
            final(self).inv(),
            final(self).model() == (TweakModel { value, ..old(self).model() }),
            (op is Some) == old(self).model().enabled,
            op is Some ==> op.unwrap()@ == (WriteView {
                address: old(self).model().slot,
                bytes: spec_u32_to_le_bytes(value),
            }),
    ;

    /// `set_value` with the default value.
    fn reset_value(&mut self) -> (op: Option<WriteOp>)
        requires
            old(self).inv(),
        ensures
            final(self).inv(),
            final(self).model() == (TweakModel {
                value: old(self).spec_default(),
                ..old(self).model()
            }),
            (op is Some) == old(self).model().enabled,
            op is Some ==> op.unwrap()@ == (WriteView {
                address: old(self).model().slot,
                bytes: spec_u32_to_le_bytes(old(self).spec_default()),
            }),
    ;

    /// Applies the persisted record: takes the stored value where the
    /// record holds a usable one, and reports whether the record asks for
    /// the tweak to be enabled (the caller then performs the read and
    /// calls `enable`).
    fn load_config(&mut self, record: Option<TweakConfig>) -> (enable_requested: bool)
        requires
            old(self).inv(),
        ensures
            final(self).inv(),
            ({
                let v = match record {
                    Some(c) => match c.value {
                        Some(v) => v,
                        None => old(self).model().value,
                    },
                    None => old(self).model().value,
                };
                final(self).model() == (TweakModel { value: v, ..old(self).model() })
            }),
            enable_requested == (record is Some && record.unwrap().enabled),
    ;

    /// The record this tweak persists: stored into the configuration
    /// document on every state or value change.
    fn config_record(&self) -> (r: TweakConfig)
        requires
            self.inv(),
        ensures
            r.enabled == self.model().enabled,
            r.value == Some(self.model().value),
    ;
}

} // verus!
