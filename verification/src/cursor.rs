//! Selection-cursor navigation over the target list: the cursor wraps at both
//! ends and stays put when the list is empty or a single entry.
use vstd::prelude::*;

verus! {

/// Index after moving the selection one step down a list of `len` entries,
/// wrapping past the last entry back to the start.
pub open spec fn advance_spec(index: int, len: int) -> int {
    if len <= 0 {
        0
    } else if index + 1 < len {
        index + 1
    } else {
        0
    }
}

/// Index after moving the selection one step up a list of `len` entries,
/// wrapping past the first entry to the end.
pub open spec fn retreat_spec(index: int, len: int) -> int {
    if len <= 0 {
        0
    } else if index > 0 {
        index - 1
    } else {
        len - 1
    }
}

/// Move the selection cursor one entry forward, wrapping to `0` past the end.
pub fn advance_selection(index: usize, len: usize) -> (r: usize)
    ensures
        r == advance_spec(index as int, len as int),
        len > 0 ==> r < len,
{
    if len == 0 {
        0
    } else if index < len - 1 {
        index + 1
    } else {
        0
    }
}

/// Move the selection cursor one entry back, wrapping to `len - 1` before the
/// start.
pub fn retreat_selection(index: usize, len: usize) -> (r: usize)
    ensures
        r == retreat_spec(index as int, len as int),
        index < len ==> r < len,
{
    if len == 0 {
        0
    } else if index > 0 {
        index - 1
    } else {
        len - 1
    }
}

/// Navigation wraps at both boundaries, and on a single-entry list both moves
/// keep the cursor at `0`.
pub proof fn lemma_cursor_wraps(len: int)
    requires
        len > 0,
    ensures
        advance_spec(len - 1, len) == 0,
        retreat_spec(0, len) == len - 1,
        len == 1 ==> advance_spec(0, len) == 0 && retreat_spec(0, len) == 0,
{
}

} // verus!
