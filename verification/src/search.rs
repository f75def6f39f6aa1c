//! The search-mode state machine: which time window, or live tail, a fetch
//! command asks for.
use vstd::prelude::*;

verus! {

/// The search modes. `All` is the initial mode and means an unbounded
/// window; `Tail` polls the most recent minute on every tick; the fixed
/// modes take a window of that width ending now; `Range` carries explicit
/// bounds in milliseconds.
#[derive(Clone, Copy, Debug, PartialEq, Eq, Structural)]
pub enum SearchMode {
    All,
    Tail,
    OneMinute,
    FifteenMinutes,
    OneHour,
    TwelveHours,
    Range(i64, i64),
}

/// The width, in milliseconds, of the window a mode asks for; zero for the
/// modes that carry no fixed width.
pub open spec fn window_width_millis(mode: SearchMode) -> int {
    match mode {
        SearchMode::Tail => 60_000,
        SearchMode::OneMinute => 60_000,
        SearchMode::FifteenMinutes => 900_000,
        SearchMode::OneHour => 3_600_000,
        SearchMode::TwelveHours => 43_200_000,
        SearchMode::All => 0,
        SearchMode::Range(_, _) => 0,
    }
}

/// The `[start, end)` window a mode resolves to at time `now_millis`:
/// `(0, 0)` (unbounded) for `All`, the explicit bounds for `Range`, and a
/// window of the mode's width ending now otherwise, its start held at 0.
pub open spec fn resolved_range(mode: SearchMode, now_millis: i64) -> (i64, i64)
    recommends
        now_millis >= 0,
{
    match mode {
        SearchMode::All => (0i64, 0i64),
        SearchMode::Range(s, e) => (s, e),
        _ => (
            (if now_millis >= window_width_millis(mode) {
                now_millis - window_width_millis(mode)
            } else {
                0
            }) as i64,
            now_millis,
        ),
    }
}

/// Resolves a mode to its window at time `now_millis`.
pub fn search_range(mode: SearchMode, now_millis: i64) -> (r: (i64, i64))
    requires
        now_millis >= 0,
    ensures
        r == resolved_range(mode, now_millis),
{
    match mode {
        SearchMode::Tail => (saturating_back(now_millis, 60_000), now_millis),
        SearchMode::OneMinute => (saturating_back(now_millis, 60_000), now_millis),
        SearchMode::FifteenMinutes => (saturating_back(now_millis, 900_000), now_millis),
        SearchMode::OneHour => (saturating_back(now_millis, 3_600_000), now_millis),
        SearchMode::TwelveHours => (saturating_back(now_millis, 43_200_000), now_millis),
        SearchMode::All => (0, 0),
        SearchMode::Range(start, end) => (start, end),
    }
}

/// `now - width`, held at 0 rather than running before the epoch.
fn saturating_back(now_millis: i64, width: i64) -> (r: i64)
    requires
        now_millis >= 0,
        width >= 0,
    ensures
        r == (if now_millis >= width {
            now_millis - width
        } else {
            0
        }),
{
    if now_millis >= width {
        now_millis - width
    } else {
        0
    }
}

} // verus!
