//! Nonce generation for signed requests.
//!
//! The venue tracks nonces per signing address, keeps the 100 highest values seen, and
//! accepts a new one only if it exceeds the smallest of them, was never used, and lies in
//! `(T - 2 days, T + 1 day)` around the block time `T` in Unix milliseconds. Nonces are
//! therefore a counter that fast-forwards to the clock: two draws within one millisecond
//! still differ, and an idle generator jumps back into the window.
use vstd::prelude::*;

verus! {

/// Lower bound of the acceptance window, relative to server time.
pub const WINDOW_BEHIND_MS: u64 = 2 * 24 * 60 * 60 * 1000;

/// Upper bound of the acceptance window, relative to server time.
pub const WINDOW_AHEAD_MS: u64 = 24 * 60 * 60 * 1000;

/// Milliseconds since the Unix epoch on this machine's clock, 0 if the clock is set before
/// the epoch and `u64::MAX` past the representable range.
#[verifier::external_body]
pub(crate) fn now_ms() -> u64 {
    std::time::SystemTime::now().duration_since(std::time::UNIX_EPOCH).map_or(
        0,
        |d| u64::try_from(d.as_millis()).unwrap_or(u64::MAX),
    )
}

/// `a + b`, saturating at `u64::MAX`.
pub open spec fn sat_add(a: u64, b: u64) -> u64 {
    if a + b > u64::MAX {
        u64::MAX
    } else {
        (a + b) as u64
    }
}

/// `a - b`, saturating at 0.
pub open spec fn sat_sub(a: u64, b: u64) -> u64 {
    if a < b {
        0
    } else {
        (a - b) as u64
    }
}

pub open spec fn max_u64(a: u64, b: u64) -> u64 {
    if a >= b {
        a
    } else {
        b
    }
}

/// The nonce issued after `last` when the clock reads `now`: the current millisecond if the
/// clock has moved past the counter, otherwise one more than the previous value.
pub open spec fn next_nonce(last: u64, now: u64) -> u64 {
    max_u64(sat_add(last, 1), now)
}

/// Monotonic nonce source for one signing address.
#[derive(Debug)]
pub struct NonceGenerator {
    last: u64,
}

impl View for NonceGenerator {
    type V = u64;

    /// The most recently issued value.
    closed spec fn view(&self) -> u64 {
        self.last
    }
}

impl NonceGenerator {
    /// Creates a generator seeded from the current clock.
    pub fn new() -> (g: Self) {
        NonceGenerator { last: now_ms() }
    }

    /// Creates a generator seeded from an explicit value, such as an address's known
    /// high-water mark.
    pub fn starting_at(seed: u64) -> (g: Self)
        ensures
            g@ == seed,
    {
        NonceGenerator { last: seed }
    }

    /// Issues the next nonce for a clock reading of `now`.
    pub fn next_at(&mut self, now: u64) -> (n: u64)
        ensures
            n == next_nonce(old(self)@, now),
            final(self)@ == n,
    {
        let bumped = self.last.saturating_add(1);
        let n = if bumped >= now {
            bumped
        } else {
            now
        };
        self.last = n;
        n
    }

    /// Issues the next nonce: the current millisecond if the clock has moved on, otherwise
    /// one more than the previous value.
    pub fn next(&mut self) -> (n: u64)
        ensures
            exists|now: u64| n == next_nonce(old(self)@, now),
            final(self)@ == n,
            old(self)@ < u64::MAX ==> n > old(self)@,
    {
        let now = now_ms();
        self.next_at(now)
    }

    /// The most recently issued value, for diagnostics.
    pub fn last_issued(&self) -> (n: u64)
        ensures
            n == self@,
    {
        self.last
    }

    /// Every nonce exceeds the one before it, so none is ever issued twice, until the
    /// counter reaches `u64::MAX`; and none lags behind the clock it was drawn at.
    pub proof fn lemma_strictly_increasing(last: u64, now: u64)
        ensures
            last < u64::MAX ==> next_nonce(last, now) > last,
            next_nonce(last, now) >= now,
    {
    }
}

impl Default for NonceGenerator {
    fn default() -> (g: Self) {
        Self::new()
    }
}

/// Whether a nonce lies strictly inside `(server_time - 2 days, server_time + 1 day)`, with
/// both bounds saturating.
pub open spec fn spec_within_window(nonce: u64, server_time_ms: u64) -> bool {
    nonce > sat_sub(server_time_ms, WINDOW_BEHIND_MS) && nonce < sat_add(
        server_time_ms,
        WINDOW_AHEAD_MS,
    )
}

/// Whether `nonce` falls inside the venue's acceptance window around `server_time_ms`. The
/// bounds are exclusive, matching the documented `(T - 2 days, T + 1 day)`.
pub fn is_within_window(nonce: u64, server_time_ms: u64) -> (b: bool)
    ensures
        b == spec_within_window(nonce, server_time_ms),
{
    let lower = server_time_ms.saturating_sub(WINDOW_BEHIND_MS);
    let upper = server_time_ms.saturating_add(WINDOW_AHEAD_MS);
    nonce > lower && nonce < upper
}

/// A nonce drawn at the current server time lies in the window, so a generator that fell
/// behind is pulled back in by its next draw.
pub proof fn lemma_fresh_nonce_in_window(last: u64, now: u64)
    requires
        last < now,
        now < u64::MAX - WINDOW_AHEAD_MS,
        now > WINDOW_BEHIND_MS,
    ensures
        spec_within_window(next_nonce(last, now), now),
{
}

/// The nonces a generator whose last value is `last` issues, one draw per clock reading in
/// `nows`, in order: each draw is [`next_nonce`] of the one before.
pub open spec fn issued(last: u64, nows: Seq<u64>) -> Seq<u64>
    decreases nows.len(),
{
    if nows.len() == 0 {
        Seq::empty()
    } else {
        let before = issued(last, nows.drop_last());
        let previous = if before.len() == 0 {
            last
        } else {
            before.last()
        };
        before.push(next_nonce(previous, nows.last()))
    }
}

/// Over any run of draws, whatever the clock reads, the nonces never go down, and a nonce
/// below `u64::MAX` is exceeded by every later one: no value is issued twice before the
/// counter saturates.
pub proof fn lemma_draws_increase(last: u64, nows: Seq<u64>)
    ensures
        issued(last, nows).len() == nows.len(),
        forall|i: int| 0 <= i < nows.len() ==> #[trigger] issued(last, nows)[i] >= last,
        last < u64::MAX ==> forall|i: int|
            0 <= i < nows.len() ==> #[trigger] issued(last, nows)[i] > last,
        forall|i: int, j: int|
            0 <= i < j < nows.len() ==> #[trigger] issued(last, nows)[i] <= #[trigger] issued(
                last,
                nows,
            )[j],
        forall|i: int, j: int|
            0 <= i < j < nows.len() && issued(last, nows)[i] < u64::MAX ==> #[trigger] issued(
                last,
                nows,
            )[i] < #[trigger] issued(last, nows)[j],
    decreases nows.len(),
{
    if nows.len() > 0 {
        let init = nows.drop_last();
        lemma_draws_increase(last, init);
        let before = issued(last, init);
        let s = issued(last, nows);
        let n = nows.len() - 1;
        assert(s == before.push(s[n]));
        assert forall|i: int| 0 <= i < n implies s[i] == before[i] by {}
        if n > 0 {
            assert(s[n] >= before[n - 1]);
            assert(before[n - 1] < u64::MAX ==> s[n] > before[n - 1]);
        }
        assert forall|i: int, j: int| 0 <= i < j < nows.len() implies s[i] <= s[j] by {
            if j == n && i < n - 1 {
                assert(before[i] <= before[n - 1]);
            }
        }
        assert forall|i: int, j: int| 0 <= i < j < nows.len() && s[i] < u64::MAX implies s[i]
            < s[j] by {
            if j == n && i < n - 1 {
                assert(before[i] < before[n - 1]);
            }
        }
    }
}

/// While the clock stays at or behind the counter it started from, successive draws count
/// up by one from it.
pub proof fn lemma_draws_count_up(last: u64, nows: Seq<u64>)
    requires
        last + nows.len() <= u64::MAX,
        forall|k: int| 0 <= k < nows.len() ==> #[trigger] nows[k] <= last,
    ensures
        issued(last, nows).len() == nows.len(),
        forall|i: int| 0 <= i < nows.len() ==> #[trigger] issued(last, nows)[i] == last + 1 + i,
    decreases nows.len(),
{
    if nows.len() > 0 {
        let init = nows.drop_last();
        assert forall|k: int| 0 <= k < init.len() implies #[trigger] init[k] <= last by {
            assert(init[k] == nows[k]);
        }
        lemma_draws_count_up(last, init);
        let s = issued(last, nows);
        let n = nows.len() - 1;
        assert(nows.last() == nows[n]);
        assert forall|i: int| 0 <= i < nows.len() implies #[trigger] s[i] == last + 1 + i by {
            if i < n {
                assert(s[i] == issued(last, init)[i]);
            }
        }
    }
}

} // verus!
