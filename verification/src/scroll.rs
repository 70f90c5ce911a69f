use vstd::prelude::*;

verus! {

/// The per-axis scroll rule. `focus` is the windowed tile coordinate on one
/// axis, `off` the accumulated sub-tile pixel offset (possibly out of range
/// after a raw delta was added), `tile_size` the tile edge in pixels and
/// `limit` the largest legal focus. The result is the settled
/// `(focus, offset)` pair:
///
/// - a negative offset borrows whole tiles from `focus` until the offset is
///   back in `[0, tile_size)`, clamping to `(0, 0)` when the focus reaches
///   the origin first;
/// - an axis that is already at `focus == limit` when a non-negative offset
///   is applied is clamped to offset zero: the window cannot move further;
/// - an offset of `tile_size` or more carries a whole tile into `focus`. A
///   carry whose remainder is back inside `[0, tile_size)` is final — also
///   when it lands the focus exactly on `limit`, where the sub-tile
///   remainder is kept. Only when the remainder still holds a whole tile is
///   the step repeated, and a repeat that finds the focus already at
///   `limit` clamps the offset to zero, as above.
///
/// Deltas larger than one tile are thus resolved by repeating the wrap
/// step, and the settled offset always lands in `[0, tile_size)`.
pub open spec fn scroll_wrap(focus: int, off: int, tile_size: int, limit: int) -> (int, int)
    decreases
        (if off < 0 { 1int } else { 0int }),
        (if off < 0 { -off } else { off }),
{
    if tile_size < 1 {
        (focus, off)
    } else if off < 0 {
        if focus == 0 {
            (0, 0)
        } else {
            scroll_wrap(focus - 1, off + tile_size, tile_size, limit)
        }
    } else if focus == limit {
        (focus, 0)
    } else if off >= tile_size {
        if off - tile_size < tile_size {
            (focus + 1, off - tile_size)
        } else {
            scroll_wrap(focus + 1, off - tile_size, tile_size, limit)
        }
    } else {
        (focus, off)
    }
}

/// However far a single delta scrolls, the settled offset stays inside one
/// tile and the settled focus stays inside `[0, limit]`: applied to every
/// call in turn, this keeps the scroll state within bounds over any sequence
/// of scroll requests.
pub proof fn lemma_scroll_wrap_bounds(focus: int, off: int, tile_size: int, limit: int)
    requires
        tile_size >= 1,
        0 <= focus <= limit,
    ensures
        ({
            let r = scroll_wrap(focus, off, tile_size, limit);
            0 <= r.0 <= limit && 0 <= r.1 < tile_size
        }),
    decreases
        (if off < 0 { 1int } else { 0int }),
        (if off < 0 { -off } else { off }),
{
    if off < 0 {
        if focus != 0 {
            lemma_scroll_wrap_bounds(focus - 1, off + tile_size, tile_size, limit);
        }
    } else if focus == limit {
    } else if off >= tile_size {
        if off - tile_size >= tile_size {
            lemma_scroll_wrap_bounds(focus + 1, off - tile_size, tile_size, limit);
        }
    }
}

/// A zero delta settles back to exactly the state it started from, so
/// repeating it changes nothing. The one excluded start is a window parked
/// at the far edge with a non-zero offset, which the far-edge clamp zeroes.
pub proof fn lemma_scroll_zero_delta(focus: int, off: int, tile_size: int, limit: int)
    requires
        tile_size >= 1,
        0 <= focus <= limit,
        0 <= off < tile_size,
        focus < limit || off == 0,
    ensures
        scroll_wrap(focus, off + 0, tile_size, limit) == (focus, off),
{
}

/// Scrolling forward by exactly one tile and then back by one tile returns
/// the scroll state to where it began, provided the start is not at the far
/// edge, where the forward scroll would be clamped rather than crossing a
/// tile.
pub proof fn lemma_scroll_round_trip(focus: int, off: int, tile_size: int, limit: int)
    requires
        tile_size >= 1,
        0 <= off < tile_size,
        0 <= focus < limit,
    ensures
        ({
            let fwd = scroll_wrap(focus, off + tile_size, tile_size, limit);
            scroll_wrap(fwd.0, fwd.1 - tile_size, tile_size, limit) == (focus, off)
        }),
{
    let fwd = scroll_wrap(focus, off + tile_size, tile_size, limit);
    assert(fwd == (focus + 1, off));
    assert(scroll_wrap(fwd.0, fwd.1 - tile_size, tile_size, limit)
        == scroll_wrap(focus, off, tile_size, limit));
    assert(scroll_wrap(focus, off, tile_size, limit) == (focus, off));
}

/// At the origin, any delta that would carry the offset below zero clamps
/// the axis to focus `0` with offset `0`.
pub proof fn lemma_scroll_clamp_at_origin(off: int, k: int, tile_size: int, limit: int)
    requires
        tile_size >= 1,
        0 <= off < tile_size,
        k > off,
    ensures
        scroll_wrap(0, off - k, tile_size, limit) == (0int, 0int),
{
}

/// Settles one axis of the scroll state after a signed pixel delta,
/// following [`scroll_wrap`] exactly: whole-tile wraps are repeated until
/// the offset is back inside one tile or a boundary clamp applies.
pub(crate) fn wrap_offset(focus: usize, offset: u32, delta: i32, tile_size: u32, limit: usize) -> (r: (
    usize,
    u32,
))
    requires
        tile_size >= 1,
        focus <= limit,
        offset < tile_size,
    ensures
        (r.0 as int, r.1 as int) == scroll_wrap(
            focus as int,
            offset + delta,
            tile_size as int,
            limit as int,
        ),
{
    let mut f: usize = focus;
    let mut v: i64 = offset as i64 + delta as i64;
    loop
        invariant
            tile_size >= 1,
            f <= limit,
            -0x8000_0000 <= v <= 0x1_8000_0000,
            scroll_wrap(f as int, v as int, tile_size as int, limit as int) == scroll_wrap(
                focus as int,
                offset + delta,
                tile_size as int,
                limit as int,
            ),
        decreases
            (if v < 0 { 1int } else { 0int }),
            (if v < 0 { -(v as int) } else { v as int }),
    {
        if v < 0 {
            if f == 0 {
                return (0, 0);
            } else {
                f = f - 1;
                v = v + tile_size as i64;
            }
        } else if f == limit {
            return (f, 0);
        } else if v >= tile_size as i64 {
            f = f + 1;
            v = v - tile_size as i64;
            if v < tile_size as i64 {
                return (f, v as u32);
            }
        } else {
            return (f, v as u32);
        }
    }
}

} // verus!
