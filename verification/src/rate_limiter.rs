use vstd::prelude::*;

use crate::errors::QuickLendXError;

verus! {

/// A fixed-window rate limiter keyed on ledger sequence numbers.
///
/// A window opens at the sequence of the first operation recorded after the
/// previous window has expired and covers the sequences `window_start`
/// through `window_start + window_size`, that is `window_size + 1` of them; at
/// most `max_per_window` operations are admitted within it. A `window_start`
/// of zero means that no window has been opened yet.
pub struct RateLimiter {
    pub window_start: u32,
    pub count: u32,
    pub window_size: u32,
    pub max_per_window: u32,
}

impl RateLimiter {
    /// The end of the current window fits in a `u32`, so that it can be
    /// compared with a sequence number.
    pub open spec fn window_end_fits(self) -> bool {
        self.window_start == 0 || self.window_start + self.window_size <= u32::MAX
    }

    /// No window is open at `current_seq`: none was ever opened, or the
    /// current one ended before `current_seq`.
    pub open spec fn window_expired(self, current_seq: u32) -> bool {
        self.window_start == 0 || current_seq > self.window_start + self.window_size
    }

    /// An operation at `current_seq` is within budget.
    pub open spec fn admits(self, current_seq: u32) -> bool {
        self.window_expired(current_seq) || self.count < self.max_per_window
    }

    /// The answer of a budget check at `current_seq`.
    pub open spec fn check_result(self, current_seq: u32) -> Result<(), QuickLendXError> {
        if self.admits(current_seq) {
            Ok(())
        } else {
            Err(QuickLendXError::MutationLimitExceeded)
        }
    }

    /// The limiter after recording an operation at `current_seq`: a new window
    /// holding one operation if none is open, else one more operation in the
    /// open window (the count saturates at `u32::MAX`).
    pub open spec fn recorded(self, current_seq: u32) -> RateLimiter {
        if self.window_expired(current_seq) {
            RateLimiter {
                window_start: current_seq,
                count: 1,
                window_size: self.window_size,
                max_per_window: self.max_per_window,
            }
        } else {
            RateLimiter {
                window_start: self.window_start,
                count: if self.count == u32::MAX { u32::MAX } else { (self.count + 1) as u32 },
                window_size: self.window_size,
                max_per_window: self.max_per_window,
            }
        }
    }

    /// The limiter after an attempt at `current_seq`: recorded when admitted,
    /// unchanged when refused.
    pub open spec fn attempted(self, current_seq: u32) -> RateLimiter {
        if self.admits(current_seq) {
            self.recorded(current_seq)
        } else {
            self
        }
    }

    /// The limiter after `n` attempts, all at `current_seq`.
    pub open spec fn attempted_times(self, current_seq: u32, n: nat) -> RateLimiter
        decreases n,
    {
        if n == 0 {
            self
        } else {
            self.attempted_times(current_seq, (n - 1) as nat).attempted(current_seq)
        }
    }

    /// The limiter after one attempt at each sequence of `seqs`, in order.
    pub open spec fn attempted_all(self, seqs: Seq<u32>) -> RateLimiter
        decreases seqs.len(),
    {
        if seqs.len() == 0 {
            self
        } else {
            self.attempted(seqs[0]).attempted_all(seqs.drop_first())
        }
    }

    /// How many of the attempts at the sequences of `seqs`, made in order,
    /// are admitted.
    pub open spec fn admitted_in(self, seqs: Seq<u32>) -> nat
        decreases seqs.len(),
    {
        if seqs.len() == 0 {
            0
        } else {
            (if self.admits(seqs[0]) { 1nat } else { 0nat }) + self.attempted(seqs[0]).admitted_in(
                seqs.drop_first(),
            )
        }
    }

    /// A limiter with no open window and an empty count.
    pub fn new(window_size: u32, max_per_window: u32) -> (limiter: Self)
        ensures
            limiter == (RateLimiter { window_start: 0, count: 0, window_size, max_per_window }),
    {
        RateLimiter { window_start: 0, count: 0, window_size, max_per_window }
    }

    /// Whether no window is open at `current_seq`.
    pub fn is_expired(&self, current_seq: u32) -> (expired: bool)
        requires
            self.window_end_fits(),
        ensures
            expired == self.window_expired(current_seq),
            expired == (self.window_start == 0 || current_seq > self.window_start
                + self.window_size),
    {
        self.window_start == 0 || current_seq > self.window_start + self.window_size
    }

    /// Checks the budget at `current_seq` without consuming any of it.
    pub fn check(&self, current_seq: u32) -> (result: Result<(), QuickLendXError>)
        requires
            self.window_end_fits(),
        ensures
            result == self.check_result(current_seq),
            result is Ok == (self.window_start == 0 || current_seq > self.window_start
                + self.window_size || self.count < self.max_per_window),
            result is Err ==> result == Err::<(), QuickLendXError>(
                QuickLendXError::MutationLimitExceeded,
            ),
    {
        if self.is_expired(current_seq) {
            return Ok(());
        }
        if self.count >= self.max_per_window {
            return Err(QuickLendXError::MutationLimitExceeded);
        }
        Ok(())
    }

    /// Records one operation at `current_seq`, opening a new window if none is
    /// open.
    pub fn record(&mut self, current_seq: u32)
        requires
            old(self).window_end_fits(),
        ensures
            *final(self) == old(self).recorded(current_seq),
            final(self).window_size == old(self).window_size,
            final(self).max_per_window == old(self).max_per_window,
            old(self).window_start == 0 || current_seq > old(self).window_start
                + old(self).window_size ==> final(self).window_start == current_seq
                && final(self).count == 1,
            old(self).window_start != 0 && current_seq <= old(self).window_start
                + old(self).window_size ==> final(self).window_start == old(self).window_start
                && final(self).count == (if old(self).count == u32::MAX {
                u32::MAX as int
            } else {
                old(self).count + 1
            }),
    {
        if self.is_expired(current_seq) {
            self.window_start = current_seq;
            self.count = 1;
        } else {
            self.count = self.count.saturating_add(1);
        }
    }

    /// Checks the budget at `current_seq` and, when it admits the operation,
    /// records it; a refused operation leaves the limiter unchanged.
    pub fn check_and_record(&mut self, current_seq: u32) -> (result: Result<(), QuickLendXError>)
        requires
            old(self).window_end_fits(),
        ensures
            result == old(self).check_result(current_seq),
            *final(self) == old(self).attempted(current_seq),
            result is Ok == (old(self).window_start == 0 || current_seq > old(self).window_start
                + old(self).window_size || old(self).count < old(self).max_per_window),
            result is Err ==> result == Err::<(), QuickLendXError>(
                QuickLendXError::MutationLimitExceeded,
            ),
            result is Err ==> *final(self) == *old(self),
            final(self).window_size == old(self).window_size,
            final(self).max_per_window == old(self).max_per_window,
            result is Ok && (old(self).window_start == 0 || current_seq > old(self).window_start
                + old(self).window_size) ==> final(self).window_start == current_seq
                && final(self).count == 1,
            result is Ok && old(self).window_start != 0 && current_seq <= old(self).window_start
                + old(self).window_size ==> final(self).window_start == old(self).window_start
                && final(self).count == old(self).count + 1,
    {
        match self.check(current_seq) {
            Ok(()) => {},
            Err(e) => {
                return Err(e);
            },
        }
        self.record(current_seq);
        Ok(())
    }
}

/// Starting where no window is open at a nonzero sequence `seq`, repeated
/// attempts at `seq` are admitted exactly `max_per_window` times: the first
/// `max_per_window` succeed, each one counted in a window opened at `seq`, and
/// every later one is refused without changing the count.
pub proof fn lemma_window_budget(limiter: RateLimiter, seq: u32, n: nat)
    requires
        limiter.window_expired(seq),
        seq != 0,
        limiter.max_per_window >= 1,
    ensures
        n < limiter.max_per_window ==> limiter.attempted_times(seq, n).admits(seq),
        n >= limiter.max_per_window ==> !limiter.attempted_times(seq, n).admits(seq),
        n >= 1 ==> limiter.attempted_times(seq, n).window_start == seq,
        n >= 1 ==> limiter.attempted_times(seq, n).count == (if n <= limiter.max_per_window {
            n
        } else {
            limiter.max_per_window as nat
        }),
        limiter.attempted_times(seq, n).window_size == limiter.window_size,
        limiter.attempted_times(seq, n).max_per_window == limiter.max_per_window,
    decreases n,
{
    if n > 0 {
        lemma_window_budget(limiter, seq, (n - 1) as nat);
    }
}

/// Within an open window, attempts at any sequences up to the window's last
/// one, in any order, are admitted only while the count is below the budget:
/// the count after them is the count before plus the number admitted, that
/// sum never exceeds `max_per_window`, and the window stays where it is.
pub proof fn lemma_open_window_admits_at_most_budget(limiter: RateLimiter, seqs: Seq<u32>)
    requires
        limiter.window_start != 0,
        limiter.count <= limiter.max_per_window,
        forall|i: int| 0 <= i < seqs.len() ==> seqs[i] <= limiter.window_start + limiter.window_size,
    ensures
        limiter.count + limiter.admitted_in(seqs) <= limiter.max_per_window,
        limiter.attempted_all(seqs).count == limiter.count + limiter.admitted_in(seqs),
        limiter.attempted_all(seqs).window_start == limiter.window_start,
        limiter.attempted_all(seqs).window_size == limiter.window_size,
        limiter.attempted_all(seqs).max_per_window == limiter.max_per_window,
    decreases seqs.len(),
{
    if seqs.len() > 0 {
        let next = limiter.attempted(seqs[0]);
        let rest = seqs.drop_first();
        assert forall|i: int| 0 <= i < rest.len() implies rest[i] <= next.window_start
            + next.window_size by {
            assert(rest[i] == seqs[i + 1]);
        }
        lemma_open_window_admits_at_most_budget(next, rest);
    }
}

/// A window holds at most `max_per_window` operations in all: when an attempt
/// at a nonzero sequence `t` opens a window, it is admitted, and of any later
/// attempts at sequences up to `t + window_size` at most
/// `max_per_window - 1` are admitted.
pub proof fn lemma_window_admits_at_most_budget(limiter: RateLimiter, t: u32, seqs: Seq<u32>)
    requires
        limiter.window_expired(t),
        t != 0,
        limiter.max_per_window >= 1,
        forall|i: int| 0 <= i < seqs.len() ==> seqs[i] <= t + limiter.window_size,
    ensures
        limiter.admits(t),
        limiter.attempted(t).window_start == t,
        limiter.attempted(t).admitted_in(seqs) <= limiter.max_per_window - 1,
{
    lemma_open_window_admits_at_most_budget(limiter.attempted(t), seqs);
}

/// Whether a window is open depends on the sequence only through its position
/// after the window's last sequence: no window is open exactly when none was
/// ever opened or the sequence lies past `window_start + window_size`, so once
/// a window has expired it stays expired at every later sequence.
pub proof fn lemma_expiry_is_past_window_end(limiter: RateLimiter, s1: u32, s2: u32)
    ensures
        limiter.window_expired(s1) == (limiter.window_start == 0 || s1 > limiter.window_start
            + limiter.window_size),
        limiter.window_expired(s1) && s1 <= s2 ==> limiter.window_expired(s2),
        !limiter.window_expired(s2) && s1 <= s2 ==> !limiter.window_expired(s1),
{
}

/// The budget check refuses exactly when a window is open at the sequence
/// (one was opened and the sequence is at most its last one) and the count has
/// reached `max_per_window`; the refusal is `MutationLimitExceeded`.
pub proof fn lemma_check_refuses_only_a_spent_open_window(limiter: RateLimiter, s: u32)
    ensures
        limiter.check_result(s) is Err == (limiter.window_start != 0 && s
            <= limiter.window_start + limiter.window_size && limiter.count
            >= limiter.max_per_window),
        limiter.check_result(s) is Err ==> limiter.check_result(s) == Err::<(), QuickLendXError>(
            QuickLendXError::MutationLimitExceeded,
        ),
        limiter.window_start == 0 || s > limiter.window_start + limiter.window_size
            ==> limiter.check_result(s) == Ok::<(), QuickLendXError>(()),
{
}

/// Inside an open window, at any of its sequences, an attempt made while the
/// count is below `max_per_window` is admitted and adds one to the count,
/// leaving the window where it is.
pub proof fn lemma_open_window_admits_below_budget(limiter: RateLimiter, s: u32)
    requires
        limiter.window_start != 0,
        s <= limiter.window_start + limiter.window_size,
        limiter.count < limiter.max_per_window,
    ensures
        limiter.check_result(s) == Ok::<(), QuickLendXError>(()),
        limiter.attempted(s).count == limiter.count + 1,
        limiter.attempted(s).window_start == limiter.window_start,
        limiter.attempted(s).window_size == limiter.window_size,
        limiter.attempted(s).max_per_window == limiter.max_per_window,
{
}

/// Recording at a sequence inside the open window only adds one to the count
/// (stopping at `u32::MAX`), whatever the count and the budget: the window
/// keeps its start, size and budget. Recording where no window is open opens
/// one at that sequence holding one operation.
pub proof fn lemma_record_counts_in_place(limiter: RateLimiter, s: u32)
    ensures
        limiter.window_start != 0 && s <= limiter.window_start + limiter.window_size
            ==> limiter.recorded(s) == (RateLimiter {
            window_start: limiter.window_start,
            count: if limiter.count == u32::MAX {
                u32::MAX
            } else {
                (limiter.count + 1) as u32
            },
            window_size: limiter.window_size,
            max_per_window: limiter.max_per_window,
        }),
        limiter.window_start == 0 || s > limiter.window_start + limiter.window_size
            ==> limiter.recorded(s) == (RateLimiter {
            window_start: s,
            count: 1,
            window_size: limiter.window_size,
            max_per_window: limiter.max_per_window,
        }),
{
}

/// Once the window opened at `window_start` has ended, an attempt is admitted
/// whatever the count, and it opens a new window at its own sequence holding
/// that one operation.
pub proof fn lemma_expired_window_resets(limiter: RateLimiter, seq: u32)
    requires
        limiter.window_start != 0,
        seq > limiter.window_start + limiter.window_size,
    ensures
        limiter.admits(seq),
        limiter.attempted(seq) == (RateLimiter {
            window_start: seq,
            count: 1,
            window_size: limiter.window_size,
            max_per_window: limiter.max_per_window,
        }),
{
}

/// With a budget of at least one, attempts never raise the count above the
/// budget once it is within it.
pub proof fn lemma_count_stays_within_budget(limiter: RateLimiter, seq: u32)
    requires
        limiter.max_per_window >= 1,
        limiter.count <= limiter.max_per_window,
    ensures
        limiter.attempted(seq).count <= limiter.attempted(seq).max_per_window,
{
}

/// An attempt is refused exactly when the budget does not admit it, and a
/// refused attempt leaves the limiter as it was.
pub proof fn lemma_refusal_leaves_no_trace(limiter: RateLimiter, seq: u32)
    ensures
        !limiter.admits(seq) ==> limiter.attempted(seq) == limiter,
        limiter.check_result(seq) is Err <==> !limiter.admits(seq),
{
}

} // verus!
