//! Code-cave discovery.
//!
//! After an instruction was matched inside a region's buffer, the locator
//! searches forward, in steps that keep the absolute address 4-byte aligned,
//! for a window of four filler bytes long enough to host a relocated 4-byte
//! value. The search stays inside the already-scanned buffer: it never reads
//! more memory.

use vstd::prelude::*;

verus! {

/// Why a cave search failed.
#[derive(Clone, Copy, PartialEq, Eq, Structural, Debug)]
pub enum CaveError {
    /// No aligned window of four filler bytes lies inside the buffer.
    CaveNotFound,
}

/// Whether the four bytes of `data` starting at `offset` all hold `filler`
/// and lie inside the buffer.
pub open spec fn filler_window(data: Seq<u8>, offset: int, filler: u8) -> bool {
    &&& 0 <= offset
    &&& offset + 4 <= data.len()
    &&& forall|j: int| offset <= j < offset + 4 ==> data[j] == filler
}

/// Whether `c` is a candidate cave offset for an anchor instruction at
/// `instruction_address` of `instruction_len` bytes: the cave would start
/// `c` bytes past the end of the instruction, at an absolute address that
/// is a multiple of 4.
pub open spec fn cave_candidate(instruction_address: int, instruction_len: int, c: int) -> bool {
    c >= 0 && (instruction_address + instruction_len + c) % 4 == 0
}

/// The smallest candidate offset: the distance from the end of the
/// instruction to the next 4-byte-aligned absolute address.
pub open spec fn first_candidate(instruction_address: int, instruction_len: int) -> int {
    (4 - ((instruction_address + instruction_len) % 4)) % 4
}

/// The result of the cave search, walking candidates `c, c + 4, ...`: the
/// first whose window holds only filler bytes, or `None` once the window
/// would leave the buffer.
pub open spec fn cave_result_from(
    data: Seq<u8>,
    instruction_offset: int,
    instruction_len: int,
    c: int,
    filler: u8,
) -> Option<int>
    decreases data.len() + 4 - (instruction_offset + instruction_len + c)
        when c >= 0 && instruction_offset >= 0 && instruction_len >= 0
{
    let w = instruction_offset + instruction_len + c;
    if w + 4 > data.len() {
        None
    } else if filler_window(data, w, filler) {
        Some(c)
    } else {
        cave_result_from(data, instruction_offset, instruction_len, c + 4, filler)
    }
}

/// The result of the whole cave search for an anchor at buffer offset
/// `instruction_offset` in a region based at `region_address`.
pub open spec fn cave_result(
    data: Seq<u8>,
    region_address: int,
    instruction_offset: int,
    instruction_len: int,
    filler: u8,
) -> Option<int> {
    cave_result_from(
        data,
        instruction_offset,
        instruction_len,
        first_candidate(region_address + instruction_offset, instruction_len),
        filler,
    )
}

/// What the search result means, counting from candidate `c`: a hit is a
/// candidate-spaced offset whose window is all filler, with no earlier such
/// offset in the walk; a miss means every walked window left the buffer or
/// held another byte.
pub proof fn lemma_cave_result_from_spec(
    data: Seq<u8>,
    instruction_offset: int,
    instruction_len: int,
    c: int,
    filler: u8,
)
    requires
        c >= 0,
        instruction_offset >= 0,
        instruction_len >= 0,
    ensures
        match cave_result_from(data, instruction_offset, instruction_len, c, filler) {
            Some(found) => {
                &&& found >= c
                &&& (found - c) % 4 == 0
                &&& filler_window(data, instruction_offset + instruction_len + found, filler)
                &&& forall|w2: int|
                    instruction_offset + instruction_len + c <= w2 < instruction_offset
                        + instruction_len + found && (w2 - (instruction_offset + instruction_len
                        + c)) % 4 == 0 ==> !#[trigger] filler_window(data, w2, filler)
            },
            None => forall|w2: int|
                w2 >= instruction_offset + instruction_len + c && (w2 - (instruction_offset
                    + instruction_len + c)) % 4 == 0 ==> !#[trigger] filler_window(
                    data,
                    w2,
                    filler,
                ),
        },
    decreases data.len() + 4 - (instruction_offset + instruction_len + c),
{
    let w = instruction_offset + instruction_len + c;
    if w + 4 > data.len() {
        assert forall|w2: int| w2 >= w && (w2 - w) % 4 == 0 implies !filler_window(
            data,
            w2,
            filler,
        ) by {}
    } else if filler_window(data, w, filler) {
    } else {
        lemma_cave_result_from_spec(data, instruction_offset, instruction_len, c + 4, filler);
        match cave_result_from(data, instruction_offset, instruction_len, c + 4, filler) {
            Some(found) => {
                assert forall|w2: int|
                    w <= w2 < instruction_offset + instruction_len + found && (w2 - w) % 4
                        == 0 implies !filler_window(data, w2, filler) by {
                    if w2 != w {
                        assert((w2 - (w + 4)) % 4 == 0);
                    }
                }
            },
            None => {
                assert forall|w2: int| w2 >= w && (w2 - w) % 4 == 0 implies !filler_window(
                    data,
                    w2,
                    filler,
                ) by {
                    if w2 != w {
                        assert((w2 - (w + 4)) % 4 == 0);
                    }
                }
            },
        }
    }
}

/// Searches the scanned buffer for a code cave next to a matched anchor
/// instruction: the nearest 4-byte-aligned absolute address, at or after the
/// end of the instruction, whose four bytes all hold `filler`. Returns the
/// cave's distance past the end of the instruction; fails with
/// `CaveNotFound` once the window would leave the buffer, without reading
/// any further memory.
pub fn find_cave(
    data: &Vec<u8>,
    region_address: usize,
    instruction_offset: usize,
    instruction_len: usize,
    filler: u8,
) -> (r: Result<usize, CaveError>)
    requires
        instruction_offset + instruction_len <= data@.len(),
        region_address + data@.len() <= usize::MAX,
    ensures
        match r {
            Ok(c) => Some(c as int) == cave_result(
                data@,
                region_address as int,
                instruction_offset as int,
                instruction_len as int,
                filler,
            ),
            Err(e) => {
                &&& e == CaveError::CaveNotFound
                &&& cave_result(
                    data@,
                    region_address as int,
                    instruction_offset as int,
                    instruction_len as int,
                    filler,
                ) is None
            },
        },
{
    let end = instruction_offset + instruction_len;
    let start_address = region_address + end;
    let c0 = (4 - (start_address % 4)) % 4;
    assert(c0 == first_candidate(
        region_address + instruction_offset,
        instruction_len as int,
    ));

    let mut c = c0;
    loop
        invariant
            end == instruction_offset + instruction_len,
            end <= data@.len(),
            region_address + data@.len() <= usize::MAX,
            c0 == first_candidate(region_address + instruction_offset, instruction_len as int),
            c >= c0,
            (c - c0) % 4 == 0,
            cave_result_from(data@, instruction_offset as int, instruction_len as int, c0 as int, filler)
                == cave_result_from(data@, instruction_offset as int, instruction_len as int, c as int, filler),
            c <= data@.len() + 4,
        decreases data@.len() + 4 - c,
    {
        if c > data.len() - end || data.len() - end - c < 4 {
            proof {
                assert(instruction_offset + instruction_len + c + 4 > data@.len());
                assert(cave_result_from(
                    data@,
                    instruction_offset as int,
                    instruction_len as int,
                    c as int,
                    filler,
                ) is None);
            }
            return Err(CaveError::CaveNotFound);
        }
        let w = end + c;
        if data[w] == filler && data[w + 1] == filler && data[w + 2] == filler && data[w + 3]
            == filler {
            proof {
                assert forall|j: int| w <= j < w + 4 implies data@[j] == filler by {
                    if j == w {
                    } else if j == w + 1 {
                    } else if j == w + 2 {
                    } else {
                        assert(j == w + 3);
                    }
                }
                assert(filler_window(data@, w as int, filler));
                assert(cave_result_from(
                    data@,
                    instruction_offset as int,
                    instruction_len as int,
                    c as int,
                    filler,
                ) == Some(c as int));
            }
            return Ok(c);
        }
        proof {
            assert(!filler_window(data@, w as int, filler)) by {
                assert(exists|j: int|
                    w <= j < w + 4 && data@[j] != filler) by {
                    if data@[w as int] != filler {
                    } else if data@[w as int + 1] != filler {
                    } else if data@[w as int + 2] != filler {
                    } else {
                        assert(data@[w as int + 3] != filler);
                    }
                }
            }
            assert(cave_result_from(
                data@,
                instruction_offset as int,
                instruction_len as int,
                c as int,
                filler,
            ) == cave_result_from(
                data@,
                instruction_offset as int,
                instruction_len as int,
                c as int + 4,
                filler,
            ));
        }
        c += 4;
    }
}

/// The signed byte displacement that a near reference at the anchor
/// instruction must encode to address the cave: the cave's address minus
/// the instruction's address minus the instruction's length.
pub fn encode_displacement(
    instruction_address: usize,
    instruction_len: usize,
    cave_address: usize,
) -> (d: i32)
    requires
        instruction_address + instruction_len <= cave_address,
        cave_address - instruction_address - instruction_len <= i32::MAX,
    ensures
        d == cave_address - instruction_address - instruction_len,
{
    let diff = cave_address - instruction_address - instruction_len;
    diff as i32
}

} // verus!
