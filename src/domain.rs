use vstd::prelude::*;

verus! {

/// Where a candidate parameter lands once it is brought back to the domain
/// `[low, high]`: unchanged inside it; clamped to the nearer bound on an open
/// curve; on a closed curve, re-entering from the opposite bound by the same
/// overshoot (one wrap only).
pub open spec fn constrained(low: int, high: int, closed: bool, c: int) -> int {
    if c < low {
        if closed { high - (low - c) } else { low }
    } else if c > high {
        if closed { low + (c - high) } else { high }
    } else {
        c
    }
}

/// Applies the domain policy to `candidate`.
pub fn constrain_to_domain(low: i64, high: i64, closed: bool, candidate: i128) -> (r: i128)
    requires
        low <= high,
    ensures
        r == constrained(low as int, high as int, closed, candidate as int),
{
    let span: i128 = high as i128 - low as i128;
    if candidate < low as i128 {
        if closed {
            candidate + span
        } else {
            low as i128
        }
    } else if candidate > high as i128 {
        if closed {
            candidate - span
        } else {
            high as i128
        }
    } else {
        candidate
    }
}

/// A candidate inside the domain is left as it is, on open and closed curves
/// alike.
pub proof fn lemma_inside_unchanged(low: int, high: int, closed: bool, c: int)
    requires
        low <= c <= high,
    ensures
        constrained(low, high, closed, c) == c,
{
}

/// On an open curve a candidate below the domain is clamped to `low`, one
/// above it to `high`, and clamping a value twice gives what clamping it once
/// gave.
pub proof fn lemma_open_clamps(low: int, high: int, c: int)
    requires
        low <= high,
    ensures
        c < low ==> constrained(low, high, false, c) == low,
        c > high ==> constrained(low, high, false, c) == high,
        low <= constrained(low, high, false, c) <= high,
        constrained(low, high, false, constrained(low, high, false, c)) == constrained(
            low,
            high,
            false,
            c,
        ),
{
}

/// On a closed curve a candidate that undershoots `low` by at most one span
/// re-enters below `high` by the same amount and lands in `[low, high)`; one
/// that overshoots `high` by at most one span re-enters above `low` and lands
/// in `(low, high]`.
pub proof fn lemma_closed_wraps(low: int, high: int, c: int)
    requires
        low <= high,
    ensures
        low - (high - low) <= c < low ==> {
            let r = constrained(low, high, true, c);
            &&& r == high - (low - c)
            &&& low <= r < high
        },
        high < c <= high + (high - low) ==> {
            let r = constrained(low, high, true, c);
            &&& r == low + (c - high)
            &&& low < r <= high
        },
{
}

/// On a closed curve with span `high - low`, going `delta` below `low` leads to
/// `high - delta`, and going `delta` above `high` leads to `low + delta`, for
/// every `delta` strictly between zero and the span.
pub proof fn lemma_wrap_round_trip(low: int, high: int, delta: int)
    requires
        0 < delta < high - low,
    ensures
        constrained(low, high, true, low - delta) == high - delta,
        constrained(low, high, true, high + delta) == low + delta,
{
}

} // verus!
