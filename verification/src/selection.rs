//! A cursor over a list whose length changes: stepping with wraparound,
//! paging with saturation, and clamping after the list has changed.

use vstd::arithmetic::div_mod::{
    lemma_add_mod_noop, lemma_mod_add_multiples_vanish, lemma_mod_bound, lemma_mod_self_0,
    lemma_small_mod,
};
use vstd::prelude::*;

verus! {

/// How far a page key moves the cursor.
pub const PAGE: usize = 10;

/// Whether `cursor` is a valid selection in a list of `len` items: zero in an
/// empty list, and otherwise less than `len`.
pub open spec fn in_bounds(cursor: int, len: int) -> bool {
    if len == 0 {
        cursor == 0
    } else {
        0 <= cursor < len
    }
}

/// The cursor after one step forward, with wraparound.
pub open spec fn next_index(cursor: int, len: int) -> int {
    if len > 0 {
        (cursor + 1) % len
    } else {
        cursor
    }
}

/// The cursor after one step backward, with wraparound.
pub open spec fn previous_index(cursor: int, len: int) -> int {
    if len > 0 {
        (cursor + len - 1) % len
    } else {
        cursor
    }
}

/// The cursor after a page up: ten back, but not before the first item.
pub open spec fn page_up_index(cursor: int, len: int) -> int {
    if len > 0 {
        if cursor >= PAGE {
            cursor - PAGE
        } else {
            0
        }
    } else {
        cursor
    }
}

/// The cursor after a page down: ten forward, but not past the last item.
pub open spec fn page_down_index(cursor: int, len: int) -> int {
    if len > 0 {
        if cursor + PAGE <= len - 1 {
            cursor + PAGE
        } else {
            len - 1
        }
    } else {
        cursor
    }
}

/// The cursor brought back into a list of `len` items: zero in an empty
/// list, the last index where the cursor stands past the end, and otherwise
/// the cursor itself.
pub open spec fn clamp_index(cursor: int, len: int) -> int {
    if len <= 0 || cursor < 0 {
        0
    } else if cursor >= len {
        len - 1
    } else {
        cursor
    }
}

/// The cursor after `steps` steps forward.
pub open spec fn next_index_times(cursor: int, len: int, steps: nat) -> int
    decreases steps,
{
    if steps == 0 {
        cursor
    } else {
        next_index(next_index_times(cursor, len, (steps - 1) as nat), len)
    }
}

/// On a valid cursor a step forward is: the next item, or the first after the
/// last. The result is valid again.
pub proof fn lemma_next_index(cursor: int, len: int)
    requires
        len > 0,
        in_bounds(cursor, len),
    ensures
        next_index(cursor, len) == if cursor + 1 == len {
            0
        } else {
            cursor + 1
        },
        in_bounds(next_index(cursor, len), len),
{
    if cursor + 1 == len {
        lemma_mod_self_0(len);
    } else {
        lemma_small_mod((cursor + 1) as nat, len as nat);
    }
}

/// On a valid cursor a step backward is: the item before, or the last before
/// the first. The result is valid again.
pub proof fn lemma_previous_index(cursor: int, len: int)
    requires
        len > 0,
        in_bounds(cursor, len),
    ensures
        previous_index(cursor, len) == if cursor == 0 {
            len - 1
        } else {
            cursor - 1
        },
        in_bounds(previous_index(cursor, len), len),
{
    if cursor == 0 {
        lemma_small_mod((len - 1) as nat, len as nat);
    } else {
        lemma_mod_add_multiples_vanish(cursor - 1, len);
        lemma_small_mod((cursor - 1) as nat, len as nat);
    }
}

/// A step backward undoes a step forward, and a step forward undoes a step
/// backward.
pub proof fn lemma_previous_inverts_next(cursor: int, len: int)
    requires
        len > 0,
        in_bounds(cursor, len),
    ensures
        previous_index(next_index(cursor, len), len) == cursor,
        next_index(previous_index(cursor, len), len) == cursor,
{
    lemma_next_index(cursor, len);
    lemma_previous_index(cursor, len);
    lemma_previous_index(next_index(cursor, len), len);
    lemma_next_index(previous_index(cursor, len), len);
}

/// After `steps` steps forward from a valid cursor, the cursor stands at
/// `(cursor + steps) % len`.
pub proof fn lemma_next_index_times(cursor: int, len: int, steps: nat)
    requires
        len > 0,
        in_bounds(cursor, len),
    ensures
        next_index_times(cursor, len, steps) == (cursor + steps) % len,
        in_bounds(next_index_times(cursor, len, steps), len),
    decreases steps,
{
    if steps == 0 {
        lemma_small_mod(cursor as nat, len as nat);
    } else {
        let before = next_index_times(cursor, len, (steps - 1) as nat);
        lemma_next_index_times(cursor, len, (steps - 1) as nat);
        lemma_next_index(before, len);
        lemma_add_mod_noop(cursor + steps - 1, 1, len);
        lemma_mod_bound(cursor + steps, len);
        if len == 1 {
        } else {
            lemma_small_mod(1, len as nat);
            if before + 1 == len {
                lemma_mod_self_0(len);
            } else {
                lemma_small_mod((before + 1) as nat, len as nat);
            }
        }
    }
}

/// As many steps forward as the list has items bring a valid cursor back to
/// where it started.
pub proof fn lemma_next_cycles(cursor: int, len: int)
    requires
        len > 0,
        in_bounds(cursor, len),
    ensures
        next_index_times(cursor, len, len as nat) == cursor,
{
    lemma_next_index_times(cursor, len, len as nat);
    lemma_mod_add_multiples_vanish(cursor, len);
    lemma_small_mod(cursor as nat, len as nat);
}

/// Clamping after a list has shrunk: in an empty list the cursor is zero; a
/// cursor at or past the new length `len > 0` becomes `len - 1`; a cursor
/// that is still inside stays. The result is always valid.
pub proof fn lemma_clamp_after_shrink(cursor: int, before: int, len: int)
    requires
        in_bounds(cursor, before),
        0 <= len <= before,
    ensures
        len == 0 ==> clamp_index(cursor, len) == 0,
        len > 0 && cursor >= len ==> clamp_index(cursor, len) == len - 1,
        len > 0 && cursor < len ==> clamp_index(cursor, len) == cursor,
        in_bounds(clamp_index(cursor, len), len),
{
}

/// One step forward; nothing in an empty list.
pub fn next(cursor: usize, len: usize) -> (r: usize)
    ensures
        r == next_index(cursor as int, len as int),
        in_bounds(cursor as int, len as int) ==> in_bounds(r as int, len as int),
{
    if len == 0 {
        return cursor;
    }
    let at = cursor % len;
    proof {
        lemma_add_mod_noop(cursor as int, 1, len as int);
        lemma_mod_bound(cursor + 1, len as int);
        if len > 1 {
            lemma_small_mod(1, len as nat);
            if at + 1 == len {
                lemma_mod_self_0(len as int);
            } else {
                lemma_small_mod((at + 1) as nat, len as nat);
            }
        }
    }
    if at == len - 1 {
        0
    } else {
        at + 1
    }
}

/// One step backward; nothing in an empty list.
pub fn previous(cursor: usize, len: usize) -> (r: usize)
    ensures
        r == previous_index(cursor as int, len as int),
        in_bounds(cursor as int, len as int) ==> in_bounds(r as int, len as int),
{
    if len == 0 {
        return cursor;
    }
    let at = cursor % len;
    proof {
        lemma_add_mod_noop(cursor as int, len - 1, len as int);
        lemma_small_mod((len - 1) as nat, len as nat);
        if at == 0 {
        } else {
            lemma_mod_add_multiples_vanish(at - 1, len as int);
            lemma_small_mod((at - 1) as nat, len as nat);
        }
    }
    if at == 0 {
        len - 1
    } else {
        at - 1
    }
}

/// One page up; nothing in an empty list.
pub fn page_up(cursor: usize, len: usize) -> (r: usize)
    ensures
        r == page_up_index(cursor as int, len as int),
        in_bounds(cursor as int, len as int) ==> in_bounds(r as int, len as int),
{
    if len == 0 {
        cursor
    } else if cursor >= PAGE {
        cursor - PAGE
    } else {
        0
    }
}

/// One page down; nothing in an empty list.
pub fn page_down(cursor: usize, len: usize) -> (r: usize)
    ensures
        r == page_down_index(cursor as int, len as int),
        in_bounds(cursor as int, len as int) ==> in_bounds(r as int, len as int),
{
    if len == 0 {
        cursor
    } else if cursor <= len - 1 && len - 1 - cursor >= PAGE {
        cursor + PAGE
    } else {
        len - 1
    }
}

/// Brings the cursor back into a list of `len` items.
pub fn clamp(cursor: usize, len: usize) -> (r: usize)
    ensures
        r == clamp_index(cursor as int, len as int),
        in_bounds(r as int, len as int),
{
    if len == 0 {
        0
    } else if cursor >= len {
        len - 1
    } else {
        cursor
    }
}

} // verus!
