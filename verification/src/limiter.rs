//! The limiter that lets at most one alert through per window.
//!
//! Time is counted in nanoseconds on a clock that never runs backwards. The
//! limiter remembers when it last let an alert through; a caller is admitted if
//! the limiter never admitted anyone, or if at least one window has passed since
//! it last did.

use vstd::prelude::*;

verus! {

/// The length of the window: one second, in nanoseconds.
pub const MIN_ALERT_INTERVAL_NANOS: u128 = 1_000_000_000;

/// The length of the window, as a number.
pub open spec fn window() -> nat {
    1_000_000_000
}

/// Whether a limiter that last admitted a caller at `last` (or never, if
/// `None`) admits one at `now`.
pub open spec fn admits_at(last: Option<nat>, now: nat) -> bool {
    match last {
        None => true,
        Some(sent) => now >= sent + window(),
    }
}

/// The state of the limiter after a call at `now`: the time of the call if it
/// was admitted, the old state if not.
pub open spec fn after_call(last: Option<nat>, now: nat) -> Option<nat> {
    if admits_at(last, now) {
        Some(now)
    } else {
        last
    }
}

/// The state of a limiter that started in `start`, before the `k`-th of the
/// calls made at `times`, one after the other.
pub open spec fn state_before(start: Option<nat>, times: Seq<nat>, k: int) -> Option<nat>
    decreases k,
{
    if k <= 0 {
        start
    } else {
        after_call(state_before(start, times, k - 1), times[k - 1])
    }
}

/// Whether the `k`-th of the calls made at `times` is admitted.
pub open spec fn granted(start: Option<nat>, times: Seq<nat>, k: int) -> bool {
    admits_at(state_before(start, times, k), times[k])
}

/// A limiter that admits at most one caller per window.
///
/// A call needs the limiter for itself (`&mut self`), so two calls never
/// overlap: where several tasks share one limiter they share it behind a
/// lock, and the order in which the lock serves them is the order in which
/// the calls count. The time of the last admission is not handed out.
pub struct RateLimiter {
    last_sent: Option<u128>,
}

impl View for RateLimiter {
    type V = Option<nat>;

    /// When the limiter last admitted a caller, if it ever did.
    closed spec fn view(&self) -> Option<nat> {
        match self.last_sent {
            Some(sent) => Some(sent as nat),
            None => None,
        }
    }
}

impl RateLimiter {
    /// A limiter that has admitted no one yet, so that the first caller passes.
    pub fn new() -> (limiter: Self)
        ensures
            limiter@ is None,
    {
        RateLimiter { last_sent: None }
    }

    /// Asks for admission at the time `now`. The caller is admitted, and the
    /// limiter remembers `now`, exactly if the limiter admits at `now`; otherwise
    /// the limiter is left as it was.
    pub fn try_acquire_at(&mut self, now: u128) -> (admitted: bool)
        ensures
            admitted == admits_at(old(self)@, now as nat),
            final(self)@ == after_call(old(self)@, now as nat),
    {
        let admitted = match self.last_sent {
            None => true,
            Some(sent) => now >= sent && now - sent >= MIN_ALERT_INTERVAL_NANOS,
        };
        if admitted {
            self.last_sent = Some(now);
        }
        admitted
    }
}

/// Once a call was admitted, the limiter remembers a time at or after it.
proof fn lemma_state_tracks_grants(start: Option<nat>, times: Seq<nat>, k: int)
    requires
        0 <= k <= times.len(),
    ensures
        forall|m: int|
            0 <= m < k && granted(start, times, m) ==> {
                &&& state_before(start, times, k) is Some
                &&& #[trigger] times[m] <= state_before(start, times, k)->0
            },
    decreases k,
{
    if k > 0 {
        lemma_state_tracks_grants(start, times, k - 1);
    }
}

/// While no call is admitted by the starting state, the limiter stays in it.
proof fn lemma_state_unchanged_until_admitted(start: Option<nat>, times: Seq<nat>, k: int)
    requires
        0 <= k <= times.len(),
        forall|m: int| 0 <= m < k ==> !admits_at(start, #[trigger] times[m]),
    ensures
        state_before(start, times, k) == start,
    decreases k,
{
    if k > 0 {
        lemma_state_unchanged_until_admitted(start, times, k - 1);
    }
}

/// Any two admitted calls lie at least one window apart, whatever the
/// starting state and the times of the calls.
pub proof fn lemma_grants_are_spaced(start: Option<nat>, times: Seq<nat>, i: int, j: int)
    requires
        0 <= i < j < times.len(),
        granted(start, times, i),
        granted(start, times, j),
    ensures
        times[j] >= times[i] + window(),
{
    lemma_state_tracks_grants(start, times, j);
}

/// Of the calls of a burst, all made within less than one window of each
/// other and at least one of them at a time at which the starting state
/// admits, exactly one is admitted.
pub proof fn lemma_burst_has_one_winner(start: Option<nat>, times: Seq<nat>)
    requires
        exists|k: int| 0 <= k < times.len() && admits_at(start, #[trigger] times[k]),
        forall|i: int, j: int|
            0 <= i < times.len() && 0 <= j < times.len() ==> #[trigger] times[i] < #[trigger] times[j]
                + window(),
    ensures
        exists|k: int|
            0 <= k < times.len() && #[trigger] granted(start, times, k) && forall|j: int|
                0 <= j < times.len() && j != k ==> !#[trigger] granted(start, times, j),
{
    let first = choose_first_admitted(start, times, times.len() as int);
    lemma_state_unchanged_until_admitted(start, times, first);
    assert(granted(start, times, first));
    assert forall|j: int| 0 <= j < times.len() && j != first implies !#[trigger] granted(
        start,
        times,
        j,
    ) by {
        if granted(start, times, j) {
            if j < first {
                lemma_grants_are_spaced(start, times, j, first);
            } else {
                lemma_grants_are_spaced(start, times, first, j);
            }
        }
    }
}

/// The first of the first `n` calls at whose time the starting state admits.
proof fn choose_first_admitted(start: Option<nat>, times: Seq<nat>, n: int) -> (first: int)
    requires
        0 <= n <= times.len(),
        exists|k: int| 0 <= k < n && admits_at(start, #[trigger] times[k]),
    ensures
        0 <= first < n,
        admits_at(start, times[first]),
        forall|m: int| 0 <= m < first ==> !admits_at(start, #[trigger] times[m]),
    decreases n,
{
    if exists|k: int| 0 <= k < n - 1 && admits_at(start, #[trigger] times[k]) {
        choose_first_admitted(start, times, n - 1)
    } else {
        n - 1
    }
}

/// A burst of calls on a limiter that has admitted no one yet has exactly one
/// winner: the first call.
pub proof fn lemma_fresh_burst_first_wins(times: Seq<nat>)
    requires
        times.len() > 0,
        forall|i: int, j: int|
            0 <= i < times.len() && 0 <= j < times.len() ==> #[trigger] times[i] < #[trigger] times[j]
                + window(),
    ensures
        granted(None, times, 0),
        forall|j: int| 0 < j < times.len() ==> !#[trigger] granted(None, times, j),
{
    assert forall|j: int| 0 < j < times.len() implies !#[trigger] granted(None, times, j) by {
        if granted(None, times, j) {
            lemma_grants_are_spaced(None, times, 0, j);
        }
    }
}

/// Two calls at least one window apart are both admitted, provided that the
/// limiter admits at the time of the first.
pub proof fn lemma_spaced_calls_both_admitted(start: Option<nat>, first: nat, second: nat)
    requires
        admits_at(start, first),
        second >= first + window(),
    ensures
        admits_at(start, first),
        admits_at(after_call(start, first), second),
        granted(start, seq![first, second], 0),
        granted(start, seq![first, second], 1),
{
    let times = seq![first, second];
    assert(state_before(start, times, 0) == start);
    assert(state_before(start, times, 1) == after_call(state_before(start, times, 0), times[0]));
}

/// On a clock that does not run backwards, a call at least one window after
/// an earlier call is admitted, whether or not the earlier one was.
pub proof fn lemma_later_call_admitted(start: Option<nat>, first: nat, second: nat)
    requires
        start matches Some(sent) ==> sent <= first,
        second >= first + window(),
    ensures
        admits_at(after_call(start, first), second),
{
}

} // verus!
