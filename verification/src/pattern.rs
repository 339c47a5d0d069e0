//! Byte signatures: a sequence of literal bytes and single-byte wildcards,
//! and the leftmost-match search of one buffer.

use vstd::prelude::*;

verus! {

/// One element of a byte signature: an exact byte, or a wildcard that
/// accepts any one byte.
#[derive(Clone, Copy, PartialEq, Eq, Structural, Debug)]
pub enum PatternByte {
    Literal(u8),
    Wildcard,
}

/// Whether one pattern element accepts the byte `b`.
pub open spec fn byte_matches(p: PatternByte, b: u8) -> bool {
    match p {
        PatternByte::Literal(x) => b == x,
        PatternByte::Wildcard => true,
    }
}

/// Whether the whole pattern matches `data` starting at offset `i`:
/// the window fits, every literal byte is equal, and wildcard positions
/// accept whatever byte is there.
pub open spec fn matches_at(data: Seq<u8>, pattern: Seq<PatternByte>, i: int) -> bool {
    &&& 0 <= i
    &&& i + pattern.len() <= data.len()
    &&& forall|j: int| 0 <= j < pattern.len() ==> byte_matches(pattern[j], data[i + j])
}

/// The offset of the leftmost match at or after `from`, if any.
pub open spec fn first_match_from(data: Seq<u8>, pattern: Seq<PatternByte>, from: int) -> Option<int>
    decreases data.len() - from + 1 when 0 <= from
{
    if from + pattern.len() > data.len() {
        None
    } else if matches_at(data, pattern, from) {
        Some(from)
    } else {
        first_match_from(data, pattern, from + 1)
    }
}

/// The offset of the leftmost match of `pattern` in `data`, if any.
pub open spec fn first_match(data: Seq<u8>, pattern: Seq<PatternByte>) -> Option<int> {
    first_match_from(data, pattern, 0)
}

/// A match found by the search is the leftmost one: if `i` matches and no
/// offset in `from..i` does, the search from `from` yields exactly `i`.
pub proof fn lemma_first_match_from_found(
    data: Seq<u8>,
    pattern: Seq<PatternByte>,
    from: int,
    i: int,
)
    requires
        0 <= from <= i,
        matches_at(data, pattern, i),
        forall|j: int| from <= j < i ==> !matches_at(data, pattern, j),
    ensures
        first_match_from(data, pattern, from) == Some(i),
    decreases i - from,
{
    if from < i {
        lemma_first_match_from_found(data, pattern, from + 1, i);
    }
}

/// If no offset at or after `from` matches, the search from `from` fails.
pub proof fn lemma_first_match_from_none(data: Seq<u8>, pattern: Seq<PatternByte>, from: int)
    requires
        0 <= from,
        forall|j: int| from <= j ==> !matches_at(data, pattern, j),
    ensures
        first_match_from(data, pattern, from) is None,
    decreases data.len() - from + 1,
{
    if from + pattern.len() <= data.len() {
        lemma_first_match_from_none(data, pattern, from + 1);
    }
}

/// Whether the search from `from` succeeds: it finds an offset `i` at which
/// the pattern matches, with no match anywhere in `from..i`; or it fails,
/// and then no offset at or after `from` matches.
pub proof fn lemma_first_match_from_spec(data: Seq<u8>, pattern: Seq<PatternByte>, from: int)
    requires
        0 <= from,
    ensures
        match first_match_from(data, pattern, from) {
            Some(i) => {
                &&& from <= i
                &&& matches_at(data, pattern, i)
                &&& forall|j: int| from <= j < i ==> !matches_at(data, pattern, j)
            },
            None => forall|j: int| from <= j ==> !matches_at(data, pattern, j),
        },
    decreases data.len() - from + 1,
{
    if from + pattern.len() > data.len() {
        assert forall|j: int| from <= j implies !matches_at(data, pattern, j) by {}
    } else if matches_at(data, pattern, from) {
    } else {
        lemma_first_match_from_spec(data, pattern, from + 1);
    }
}

/// Whether the pattern matches `data` at offset `i`; the window is known
/// to fit inside the buffer.
fn matches_here(data: &Vec<u8>, pattern: &Vec<PatternByte>, i: usize) -> (r: bool)
    requires
        i + pattern@.len() <= data@.len(),
    ensures
        r == matches_at(data@, pattern@, i as int),
{
    let n = pattern.len();
    let dlen = data.len();
    let mut j: usize = 0;
    while j < n
        invariant
            n == pattern@.len(),
            dlen == data@.len(),
            i + n <= dlen,
            0 <= j <= n,
            forall|k: int| 0 <= k < j ==> byte_matches(pattern@[k], data@[i + k]),
        decreases n - j,
    {
        let ok = match pattern[j] {
            PatternByte::Literal(x) => data[i + j] == x,
            PatternByte::Wildcard => true,
        };
        if !ok {
            return false;
        }
        j += 1;
    }
    true
}

/// The leftmost match of `pattern` in `data`: literal bytes must be equal,
/// wildcard positions accept any byte, and no smaller offset matches.
pub fn find_in_buffer(data: &Vec<u8>, pattern: &Vec<PatternByte>) -> (r: Option<usize>)
    ensures
        match r {
            Some(i) => first_match(data@, pattern@) == Some(i as int),
            None => first_match(data@, pattern@) is None,
        },
{
    if pattern.len() > data.len() {
        proof {
            lemma_first_match_from_none(data@, pattern@, 0);
        }
        return None;
    }
    let last = data.len() - pattern.len();
    let mut i: usize = 0;
    while i < last
        invariant
            pattern@.len() <= data@.len(),
            last == data@.len() - pattern@.len(),
            0 <= i <= last,
            forall|j: int| 0 <= j < i ==> !matches_at(data@, pattern@, j),
        decreases last - i,
    {
        if matches_here(data, pattern, i) {
            proof {
                lemma_first_match_from_found(data@, pattern@, 0, i as int);
            }
            return Some(i);
        }
        i += 1;
    }
    if matches_here(data, pattern, last) {
        proof {
            lemma_first_match_from_found(data@, pattern@, 0, last as int);
        }
        return Some(last);
    }
    proof {
        assert forall|j: int| 0 <= j implies !matches_at(data@, pattern@, j) by {
            if j <= last {
                assert(!matches_at(data@, pattern@, j));
            }
        }
        lemma_first_match_from_none(data@, pattern@, 0);
    }
    None
}

} // verus!
