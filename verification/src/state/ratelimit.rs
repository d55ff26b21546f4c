use vstd::prelude::*;

use crate::constants::{RATE_LIMIT_COUNT, RATE_LIMIT_PERIOD};
use crate::error::NFTError;

verus! {

/// Per-authority mint admission state. One record exists per authority;
/// the authority identity is the record's implicit key.
#[derive(Clone, Copy, Debug, PartialEq, Eq, Structural)]
pub struct RateLimit {
    /// Time of the last non-throttled mint attempt, in seconds.
    pub last_mint_time: i64,
    /// Mints recorded inside the current window.
    pub mint_count: u64,
    /// Derivation salt of the record's address.
    pub bump: u8,
}

/// The window that opened at `last` is still running at `now`.
pub open spec fn window_active(last: i64, now: i64) -> bool {
    now - last < RATE_LIMIT_PERIOD
}

/// What one admission decision does to a rate-limit record: the verdict
/// handed to the caller, and the record the decision leaves behind.
///
/// Inside a running window a record at the ceiling throttles the attempt
/// and is left untouched; below the ceiling the attempt is counted and the
/// window refreshed. Once the window has lapsed, the count starts over at
/// one. This is a fixed window with reset on expiry, not a true sliding
/// window: up to `2 * RATE_LIMIT_COUNT` mints can straddle one boundary.
pub open spec fn rate_limit_step(rl: RateLimit, now: i64) -> (Result<(), NFTError>, RateLimit) {
    if window_active(rl.last_mint_time, now) {
        if rl.mint_count >= RATE_LIMIT_COUNT {
            (Err(NFTError::RateLimitExceeded), rl)
        } else {
            (
                Ok(()),
                RateLimit {
                    last_mint_time: now,
                    mint_count: (rl.mint_count + 1) as u64,
                    bump: rl.bump,
                },
            )
        }
    } else {
        (Ok(()), RateLimit { last_mint_time: now, mint_count: 1u64, bump: rl.bump })
    }
}

impl RateLimit {
    /// The record never holds more mints than one window admits.
    pub open spec fn wf(self) -> bool {
        self.mint_count <= RATE_LIMIT_COUNT
    }

    /// A fresh record for an authority that has not minted yet.
    pub fn new(bump: u8) -> (rl: RateLimit)
        ensures
            rl == (RateLimit { last_mint_time: 0i64, mint_count: 0u64, bump }),
    {
        RateLimit { last_mint_time: 0, mint_count: 0, bump }
    }

    /// The admission check run before every mint: throttle the attempt or
    /// record it, exactly as [`rate_limit_step`] says. A throttled attempt
    /// changes nothing, so the external issuance that follows an `Ok` can
    /// never have been preceded by a rejected check.
    pub fn check_and_record(&mut self, now: i64) -> (r: Result<(), NFTError>)
        ensures
            r == rate_limit_step(*old(self), now).0,
            *final(self) == rate_limit_step(*old(self), now).1,
    {
        let in_window = (now as i128) - (self.last_mint_time as i128) < (RATE_LIMIT_PERIOD as i128);
        if in_window {
            if self.mint_count >= RATE_LIMIT_COUNT {
                return Err(NFTError::RateLimitExceeded);
            }
        } else {
            self.mint_count = 0;
        }
        self.last_mint_time = now;
        self.mint_count = self.mint_count + 1;
        Ok(())
    }

    /// Derivation salt of the record's address.
    pub fn get_bump(&self) -> (b: u8)
        ensures
            b == self.bump,
    {
        self.bump
    }

    /// Store the derivation salt of the record's address.
    pub fn set_bump(&mut self, bump: u8)
        ensures
            *final(self) == (RateLimit { bump, ..*old(self) }),
    {
        self.bump = bump;
    }
}

/// Every attempt admitted by a run of decisions keeps the record
/// well-formed: the count never passes the ceiling.
pub proof fn lemma_rate_limit_wf_preserved(rl: RateLimit, now: i64)
    requires
        rl.wf(),
    ensures
        rate_limit_step(rl, now).1.wf(),
{
}

/// Law: a run of attempts that all fall inside one running window is
/// admitted in full while it leaves room under the ceiling, and the counter
/// ends at exactly the starting count plus the number of attempts.
pub proof fn lemma_rate_limit_window_admits(rl: RateLimit, times: Seq<i64>)
    requires
        times.len() > 0,
        rl.mint_count + times.len() <= RATE_LIMIT_COUNT,
        window_active(rl.last_mint_time, times[0]),
        forall|i: int| 1 <= i < times.len() ==> window_active(times[i - 1], #[trigger] times[i]),
    ensures
        attempts_all_admitted(rl, times),
        attempts_final_state(rl, times).mint_count == rl.mint_count + times.len(),
        attempts_final_state(rl, times).last_mint_time == times[times.len() - 1],
        attempts_final_state(rl, times).bump == rl.bump,
    decreases times.len(),
{
    let first = rate_limit_step(rl, times[0]);
    assert(first.0 is Ok);
    let rest = times.drop_first();
    if times.len() == 1 {
        assert(rest.len() == 0);
        assert(attempts_all_admitted(first.1, rest));
        assert(attempts_final_state(first.1, rest) == first.1);
    } else {
        assert(rest[0] == times[1]);
        assert(window_active(first.1.last_mint_time, rest[0]));
        assert forall|i: int| 1 <= i < rest.len() implies window_active(
            rest[i - 1],
            #[trigger] rest[i],
        ) by {
            assert(rest[i - 1] == times[i]);
            assert(rest[i] == times[i + 1]);
            assert(window_active(times[i], times[i + 1]));
        }
        lemma_rate_limit_window_admits(first.1, rest);
        assert(rest[rest.len() - 1] == times[times.len() - 1]);
    }
    assert(attempts_all_admitted(rl, times));
    assert(attempts_final_state(rl, times) == attempts_final_state(first.1, rest));
}

/// Law: inside a running window, an attempt past the ceiling is refused
/// with `RateLimitExceeded` and the record does not change.
pub proof fn lemma_rate_limit_throttles(rl: RateLimit, now: i64)
    requires
        rl.mint_count >= RATE_LIMIT_COUNT,
        window_active(rl.last_mint_time, now),
    ensures
        rate_limit_step(rl, now).0 == Err::<(), NFTError>(NFTError::RateLimitExceeded),
        rate_limit_step(rl, now).1 == rl,
{
}

/// Law: once the window has lapsed, an attempt is admitted whatever the
/// stored count, and the count starts over at one.
pub proof fn lemma_rate_limit_window_reset(rl: RateLimit, now: i64)
    requires
        !window_active(rl.last_mint_time, now),
    ensures
        rate_limit_step(rl, now).0 is Ok,
        rate_limit_step(rl, now).1.mint_count == 1,
        rate_limit_step(rl, now).1.last_mint_time == now,
{
}

/// Every attempt in the run was admitted.
pub open spec fn attempts_all_admitted(rl: RateLimit, times: Seq<i64>) -> bool
    decreases times.len(),
{
    times.len() == 0 || {
        rate_limit_step(rl, times[0]).0 is Ok && attempts_all_admitted(
            rate_limit_step(rl, times[0]).1,
            times.drop_first(),
        )
    }
}

/// The record left behind by a run of attempts at the given times.
pub open spec fn attempts_final_state(rl: RateLimit, times: Seq<i64>) -> RateLimit
    decreases times.len(),
{
    if times.len() == 0 {
        rl
    } else {
        attempts_final_state(rate_limit_step(rl, times[0]).1, times.drop_first())
    }
}

} // verus!
