use vstd::prelude::*;

verus! {

/// The daily active window is `[start, end)` in local hours. When
/// `start >= end` the window is empty: no wrap past midnight is assumed.
pub open spec fn window_contains(start: int, end: int, hour: int) -> bool {
    start <= hour && hour < end
}

/// Whether `hour` lies in the window `[start_hour, end_hour)`.
pub fn in_window(start_hour: u32, end_hour: u32, hour: u32) -> (r: bool)
    ensures
        r == window_contains(start_hour as int, end_hour as int, hour as int),
{
    start_hour <= hour && hour < end_hour
}

/// The window's bounds: its first hour is inside it, its end hour is not.
pub proof fn lemma_window_bounds(start: int, end: int)
    ensures
        window_contains(start, end, start) <==> start < end,
        !window_contains(start, end, end),
{
}

} // verus!
