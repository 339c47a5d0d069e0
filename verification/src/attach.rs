//! Choosing the target among the running processes.
//!
//! Enumerating processes, opening a handle and resolving the main module's
//! base address are operating-system calls and live outside this crate; the
//! choice of which process to open is made here: the first process, in
//! enumeration order, whose image name is exactly one of the candidate
//! names.

use vstd::prelude::*;

verus! {

/// Why attaching to the target failed.
#[derive(Clone, Copy, PartialEq, Eq, Structural, Debug)]
pub enum AttachError {
    /// No running process has one of the candidate image names.
    NotFound,
    /// The matched process could not be opened with the needed rights.
    AccessDenied,
    /// Another operating-system call failed while attaching.
    OsError,
}

impl AttachError {
    /// A human-readable account of the failure, for the caller's dialog.
    pub fn describe(&self) -> &'static str {
        match self {
            AttachError::NotFound => "Couldn't find the game, is it running?",
            AttachError::AccessDenied => "Couldn't open the game process",
            AttachError::OsError => "Couldn't attach to the game process",
        }
    }
}

/// Whether two byte strings are equal.
fn bytes_eq(a: &Vec<u8>, b: &Vec<u8>) -> (r: bool)
    ensures
        r == (a@ == b@),
{
    if a.len() != b.len() {
        return false;
    }
    let n = a.len();
    let mut i: usize = 0;
    while i < n
        invariant
            n == a@.len() == b@.len(),
            0 <= i <= n,
            forall|j: int| 0 <= j < i ==> a@[j] == b@[j],
        decreases n - i,
    {
        if a[i] != b[i] {
            return false;
        }
        i += 1;
    }
    proof {
        assert(a@ =~= b@);
    }
    true
}

/// Whether `name` is exactly one of the candidate names.
pub open spec fn name_matches(name: Seq<u8>, candidates: Seq<Vec<u8>>) -> bool {
    exists|k: int| 0 <= k < candidates.len() && candidates[k]@ == name
}

/// Whether `name` stands among `candidates` (case-sensitive, exact).
fn contains_name(candidates: &Vec<Vec<u8>>, name: &Vec<u8>) -> (r: bool)
    ensures
        r == name_matches(name@, candidates@),
{
    let n = candidates.len();
    let mut k: usize = 0;
    while k < n
        invariant
            n == candidates@.len(),
            0 <= k <= n,
            forall|j: int| 0 <= j < k ==> candidates@[j]@ != name@,
        decreases n - k,
    {
        if bytes_eq(&candidates[k], name) {
            return true;
        }
        k += 1;
    }
    false
}

/// The first process, in enumeration order, whose image name is exactly one
/// of the candidate names; `None` when no running process matches, and the
/// attach then fails with [`AttachError::NotFound`].
pub fn select_process(names: &Vec<Vec<u8>>, candidates: &Vec<Vec<u8>>) -> (r: Option<usize>)
    ensures
        match r {
            Some(i) => {
                &&& 0 <= i < names@.len()
                &&& name_matches(names@[i as int]@, candidates@)
                &&& forall|j: int| 0 <= j < i ==> !name_matches(names@[j]@, candidates@)
            },
            None => forall|j: int| 0 <= j < names@.len() ==> !name_matches(names@[j]@, candidates@),
        },
{
    let n = names.len();
    let mut i: usize = 0;
    while i < n
        invariant
            n == names@.len(),
            0 <= i <= n,
            forall|j: int| 0 <= j < i ==> !name_matches(names@[j]@, candidates@),
        decreases n - i,
    {
        if contains_name(candidates, &names[i]) {
            return Some(i);
        }
        i += 1;
    }
    None
}

} // verus!
