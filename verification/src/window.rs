//! Which events the panel shows: the display filter and the scrolled window.

use crate::event::ActivityLogEvent;
use vstd::prelude::*;

verus! {

/// Rows of a viewport that the border and padding take up.
pub const RESERVED_ROWS: u16 = 3;

/// The number of log lines that fit in a viewport of the given height.
pub open spec fn capacity_of(height: u16) -> nat {
    if height >= RESERVED_ROWS {
        (height - RESERVED_ROWS) as nat
    } else {
        0
    }
}

/// The events that pass the display filter, in the order they were appended.
pub open spec fn visible(logs: Seq<ActivityLogEvent>) -> Seq<ActivityLogEvent> {
    logs.filter(|e: ActivityLogEvent| e.display)
}

/// How many items a window shows of `total`, with `offset` of the newest scrolled past
/// and room for `capacity`.
pub open spec fn window_len(total: nat, offset: nat, capacity: nat) -> nat {
    if offset >= total {
        0
    } else if total - offset <= capacity {
        (total - offset) as nat
    } else {
        capacity
    }
}

/// The position in a sequence of `total` items of the item that a window with the given
/// `offset` shows in its row `row`.
pub open spec fn source_index(total: nat, offset: nat, row: int) -> int {
    total - 1 - offset - row
}

/// The window on `items`: the items from newest to oldest, without the first `offset` of
/// them, and of what is left the first `capacity` at most.
pub open spec fn window<T>(items: Seq<T>, offset: nat, capacity: nat) -> Seq<T> {
    let newest_first = items.reverse();
    let scrolled = if offset <= newest_first.len() {
        newest_first.skip(offset as int)
    } else {
        Seq::empty()
    };
    if capacity <= scrolled.len() {
        scrolled.take(capacity as int)
    } else {
        scrolled
    }
}

/// The rows of a window, one by one: there are `window_len` of them, and row `row` shows
/// the item at `source_index` of `row`.
pub proof fn window_rows<T>(items: Seq<T>, offset: nat, capacity: nat)
    ensures
        window(items, offset, capacity).len() == window_len(items.len(), offset, capacity),
        forall|row: int|
            0 <= row < window_len(items.len(), offset, capacity) ==> #[trigger] window(
                items,
                offset,
                capacity,
            )[row] == items[source_index(items.len(), offset, row)],
{
}

/// A window holds no more items than it has room for, no more than there are, and none
/// where there is no room or where everything is scrolled past.
pub proof fn window_is_bounded<T>(items: Seq<T>, offset: nat, capacity: nat)
    ensures
        window(items, offset, capacity).len() <= capacity,
        window(items, offset, capacity).len() <= items.len(),
        capacity == 0 || offset >= items.len() <==> window(items, offset, capacity).len() == 0,
{
    window_rows(items, offset, capacity);
}

/// A window runs from newer to older: of two rows, the upper one shows the item that
/// stands later in `items`, and both show items that are not scrolled past.
pub proof fn window_is_newest_first<T>(
    items: Seq<T>,
    offset: nat,
    capacity: nat,
    upper: int,
    lower: int,
)
    requires
        0 <= upper < lower < window(items, offset, capacity).len(),
    ensures
        window(items, offset, capacity)[upper] == items[source_index(items.len(), offset, upper)],
        window(items, offset, capacity)[lower] == items[source_index(items.len(), offset, lower)],
        0 <= source_index(items.len(), offset, lower) < source_index(items.len(), offset, upper)
            < items.len() - offset,
{
    window_rows(items, offset, capacity);
}

/// Computes the number of log lines that fit in a viewport of the given height.
pub fn capacity(height: u16) -> (lines: usize)
    ensures
        lines == capacity_of(height),
{
    if height >= RESERVED_ROWS {
        (height - RESERVED_ROWS) as usize
    } else {
        0
    }
}

/// Collects the events that pass the display filter, oldest first.
pub fn visible_events(logs: &Vec<ActivityLogEvent>) -> (shown: Vec<&ActivityLogEvent>)
    ensures
        shown@.map_values(|e: &ActivityLogEvent| *e) == visible(logs@),
{
    let mut shown: Vec<&ActivityLogEvent> = Vec::new();
    let mut i: usize = 0;
    assert(logs@.take(0) =~= Seq::empty());
    proof {
        reveal(Seq::filter);
    }
    while i < logs.len()
        invariant
            i <= logs.len(),
            shown@.map_values(|e: &ActivityLogEvent| *e) == visible(logs@.take(i as int)),
        decreases logs.len() - i,
    {
        proof {
            assert(logs@.take(i + 1) =~= logs@.take(i as int).push(logs@[i as int]));
            logs@.take(i as int).lemma_filter_push(
                logs@[i as int],
                |e: ActivityLogEvent| e.display,
            );
        }
        if logs[i].display {
            shown.push(&logs[i]);
        }
        i += 1;
    }
    assert(logs@.take(logs.len() as int) =~= logs@);
    shown
}

/// Selects the window on `items`: starting from the newest, it skips `offset` items and
/// takes up to `capacity` of those that follow, by index and without reversing `items`.
pub fn display_window<T: Copy>(items: &Vec<T>, offset: usize, capacity: usize) -> (shown: Vec<T>)
    ensures
        shown@ == window(items@, offset as nat, capacity as nat),
{
    let total = items.len();
    let mut shown: Vec<T> = Vec::new();
    proof {
        window_rows(items@, offset as nat, capacity as nat);
    }
    if offset < total {
        let available: usize = total - offset;
        let count: usize = if available <= capacity {
            available
        } else {
            capacity
        };
        let mut row: usize = 0;
        while row < count
            invariant
                row <= count <= available,
                available == total - offset,
                total == items.len(),
                shown.len() == row,
                forall|k: int|
                    0 <= k < row ==> shown@[k] == items@[source_index(
                        total as nat,
                        offset as nat,
                        k,
                    )],
            decreases count - row,
        {
            shown.push(items[available - 1 - row]);
            row += 1;
        }
    }
    assert(shown@ =~= window(items@, offset as nat, capacity as nat));
    shown
}

} // verus!
