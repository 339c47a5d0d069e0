//! The in-memory image of the persisted configuration.
//!
//! The document on disk, its parsing and its rewriting are I/O and live
//! outside this crate; a missing or malformed document degrades to
//! [`Config::empty`] there. This module holds the read-modify-write rule:
//! each tweak reads its own record at construction and stores its own
//! record on every state or value change, leaving the other records as
//! they were.

use vstd::prelude::*;

verus! {

/// The key under which one tweak persists its record.
#[derive(Clone, Copy, PartialEq, Eq, Structural, Debug)]
pub enum TweakKey {
    EjectHeight,
    SprintSpeed,
}

/// The persisted record of one tweak: whether it is enabled, and the bit
/// image of the 32-bit float value, `None` where the document held no
/// usable number.
#[derive(Clone, Copy, PartialEq, Eq, Debug)]
pub struct TweakConfig {
    pub enabled: bool,
    pub value: Option<u32>,
}

/// The configuration document as plain values: the candidate image names
/// of the target process, and one optional record per tweak key.
pub struct Config {
    /// Candidate process image names, where the document named any.
    pub module_names: Option<Vec<Vec<u8>>>,
    eject_height: Option<TweakConfig>,
    sprint_speed: Option<TweakConfig>,
}

impl Config {
    /// Whether the document named candidate process image names.
    pub closed spec fn spec_has_module_names(&self) -> bool {
        self.module_names is Some
    }

    /// The record stored under `key`.
    pub closed spec fn spec_get(&self, key: TweakKey) -> Option<TweakConfig> {
        match key {
            TweakKey::EjectHeight => self.eject_height,
            TweakKey::SprintSpeed => self.sprint_speed,
        }
    }

    /// The empty document: no names, no records. What a missing or
    /// malformed document degrades to.
    pub fn empty() -> (r: Config)
        ensures
            !r.spec_has_module_names(),
            forall|k: TweakKey| r.spec_get(k) is None,
    {
        Config { module_names: None, eject_height: None, sprint_speed: None }
    }

    /// The record stored under `key`, if any.
    pub fn get(&self, key: TweakKey) -> (r: Option<TweakConfig>)
        ensures
            r == self.spec_get(key),
    {
        match key {
            TweakKey::EjectHeight => self.eject_height,
            TweakKey::SprintSpeed => self.sprint_speed,
        }
    }

    /// Stores `record` under `key` and leaves every other record and the
    /// module names as they were: the read-modify-write a tweak performs
    /// on every state or value change.
    pub fn set(&mut self, key: TweakKey, record: TweakConfig)
        ensures
            final(self).spec_get(key) == Some(record),
            forall|k: TweakKey| k != key ==> final(self).spec_get(k) == old(self).spec_get(k),
            final(self).spec_has_module_names() == old(self).spec_has_module_names(),
    {
        match key {
            TweakKey::EjectHeight => {
                self.eject_height = Some(record);
            },
            TweakKey::SprintSpeed => {
                self.sprint_speed = Some(record);
            },
        }
    }
}

} // verus!
