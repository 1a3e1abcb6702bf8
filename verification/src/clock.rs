//! The clock state machine: the agreed time for the current block, the
//! minimum period between consecutive updates, and the once-per-block
//! update flag that finalization consumes.

use vstd::prelude::*;

verus! {

/// A violation of one of the state machine's invariants. Each one is fatal
/// for the block being executed: the surrounding engine is expected to
/// discard the whole block.
#[derive(Clone, Copy, Debug, PartialEq, Eq, Structural)]
pub enum InvariantViolation {
    /// The update was attempted from something other than an inherent.
    NotInherentOrigin,
    /// The time was already set once in this block.
    AlreadyUpdated,
    /// The submitted time does not exceed the previous one by the minimum
    /// period.
    PeriodNotElapsed,
    /// Finalization ran without the time having been set in this block.
    NotUpdated,
}

impl InvariantViolation {
    /// A fixed description of the violation, suitable for an operator.
    pub fn message(&self) -> (r: &'static str)
        ensures
            self is NotInherentOrigin ==> r@ == "bad origin: expected to be an inherent origin"@,
            self is AlreadyUpdated ==> r@ == "Timestamp must be updated only once in the block"@,
            self is PeriodNotElapsed ==> r@
                == "Timestamp must increment by at least <BlockPeriod> between sequential blocks"@,
            self is NotUpdated ==> r@ == "Timestamp must be updated once in the block"@,
    {
        match self {
            InvariantViolation::NotInherentOrigin => "bad origin: expected to be an inherent origin",
            InvariantViolation::AlreadyUpdated => "Timestamp must be updated only once in the block",
            InvariantViolation::PeriodNotElapsed => "Timestamp must increment by at least <BlockPeriod> between sequential blocks",
            InvariantViolation::NotUpdated => "Timestamp must be updated once in the block",
        }
    }
}

/// Something which is notified when the timestamp is set.
pub trait OnTimestampSet {
    /// Receives the newly agreed time. Listeners observe the value; they
    /// cannot block or fail the state transition.
    fn on_timestamp_set(&mut self, moment: u64);
}

impl OnTimestampSet for () {
    fn on_timestamp_set(&mut self, _moment: u64) {
    }
}

impl<A: OnTimestampSet, B: OnTimestampSet> OnTimestampSet for (A, B) {
    fn on_timestamp_set(&mut self, moment: u64) {
        self.0.on_timestamp_set(moment);
        self.1.on_timestamp_set(moment);
    }
}

/// The persisted clock state: a typed store plus the transition and
/// finalization rules that guard it.
#[derive(Clone, Copy, Debug, PartialEq, Eq, Structural)]
pub struct Module {
    /// Current time for the current block; zero until first set.
    pub now: u64,
    /// The minimum (and advised) period between blocks.
    pub block_period: u64,
    /// Did the timestamp get updated in this block?
    pub did_update: bool,
}

/// The outcome `set` owes for a given prior state, origin and submitted time:
/// the origin is checked first, then the once-per-block flag, then the
/// minimum period (from which only a state at time zero is exempt).
pub open spec fn set_outcome(m: Module, origin_is_inherent: bool, now: u64) -> Result<
    (),
    InvariantViolation,
> {
    if !origin_is_inherent {
        Err(InvariantViolation::NotInherentOrigin)
    } else if m.did_update {
        Err(InvariantViolation::AlreadyUpdated)
    } else if !(m.now == 0 || now >= m.now + m.block_period) {
        Err(InvariantViolation::PeriodNotElapsed)
    } else {
        Ok(())
    }
}

/// Whether `set` succeeds from state `m` with the given origin and value.
pub open spec fn set_allowed(m: Module, origin_is_inherent: bool, now: u64) -> bool {
    set_outcome(m, origin_is_inherent, now) is Ok
}

/// The outcome finalization owes: it fails exactly when the time was not
/// set in the block being closed.
pub open spec fn finalize_outcome(m: Module) -> Result<(), InvariantViolation> {
    if m.did_update {
        Ok(())
    } else {
        Err(InvariantViolation::NotUpdated)
    }
}

/// The state after a successful `set`: the submitted value is stored and the
/// per-block flag raised; the configured period never changes.
pub open spec fn set_applied(m: Module, now: u64) -> Module {
    Module { now, block_period: m.block_period, did_update: true }
}

impl Module {
    /// Genesis state with the configured minimum period: time zero, flag down.
    pub fn new(period: u64) -> (r: Module)
        ensures
            r == (Module { now: 0, block_period: period, did_update: false }),
    {
        Module { now: 0, block_period: period, did_update: false }
    }

    /// Get the current time for the current block.
    ///
    /// If this is called before the timestamp has been set in this block, it
    /// returns the timestamp of the previous block.
    pub fn get(&self) -> (r: u64)
        ensures
            r == self.now,
    {
        self.now
    }

    /// The stored current time; same lookup as `get`.
    pub fn now(&self) -> (r: u64)
        ensures
            r == self.now,
    {
        self.now
    }

    /// The configured minimum period between blocks.
    pub fn block_period(&self) -> (r: u64)
        ensures
            r == self.block_period,
    {
        self.block_period
    }

    /// Set the stored time directly, bypassing every invariant. Only used
    /// for tests and for loading a prior state.
    pub fn set_timestamp(&mut self, now: u64)
        ensures
            *final(self) == (Module { now, ..*old(self) }),
    {
        self.now = now;
    }

    /// Set the current time.
    ///
    /// This is the state transition handler: it must be invoked exactly once
    /// per block, through an inherent, and the submitted time must exceed the
    /// previous one by at least the minimum period (a state still at time
    /// zero is exempt). On success every listener is notified of the new
    /// value, in order; on failure the state is unchanged and the violation
    /// is returned for the engine to reject the block.
    pub fn set<L: OnTimestampSet>(
        &mut self,
        origin_is_inherent: bool,
        now: u64,
        listeners: &mut L,
    ) -> (r: Result<(), InvariantViolation>)
        ensures
            r == set_outcome(*old(self), origin_is_inherent, now),
            r is Ok ==> *final(self) == set_applied(*old(self), now),
            r is Err ==> *final(self) == *old(self),
    {
        if !origin_is_inherent {
            return Err(InvariantViolation::NotInherentOrigin);
        }
        if self.did_update {
            return Err(InvariantViolation::AlreadyUpdated);
        }
        // `now >= self.now + self.block_period`, computed without overflow:
        // if the sum exceeds `u64::MAX` no representable value satisfies it.
        let period_elapsed = self.now == 0 || (now >= self.now && now - self.now
            >= self.block_period);
        if !period_elapsed {
            return Err(InvariantViolation::PeriodNotElapsed);
        }
        self.now = now;
        self.did_update = true;
        listeners.on_timestamp_set(now);
        Ok(())
    }

    /// Finalization check: reads and resets the per-block flag. If the flag
    /// was down the block omitted its mandatory time update, which is fatal.
    pub fn on_finalise(&mut self) -> (r: Result<(), InvariantViolation>)
        ensures
            r == finalize_outcome(*old(self)),
            *final(self) == (Module { did_update: false, ..*old(self) }),
    {
        let was_updated = self.did_update;
        self.did_update = false;
        if was_updated {
            Ok(())
        } else {
            Err(InvariantViolation::NotUpdated)
        }
    }
}

/// Once `set` has succeeded in a block, any further `set` in the same block
/// (that is, without an intervening finalization) fails, whatever origin and
/// value it brings.
pub proof fn lemma_single_update_per_block(m: Module, t1: u64, origin2: bool, t2: u64)
    ensures
        !set_allowed(set_applied(m, t1), origin2, t2),
{
}

/// Finalization without a prior update in the same block fails: from any
/// state whose per-block flag is still down, finalizing is a violation.
pub proof fn lemma_finalize_requires_update(m: Module)
    requires
        !m.did_update,
    ensures
        finalize_outcome(m) == Err::<(), InvariantViolation>(InvariantViolation::NotUpdated),
{
}

/// The agreed time never decreases: whenever `set` is allowed, the new state
/// carries a time at least as large as the old one.
pub proof fn lemma_time_monotonic(m: Module, origin_is_inherent: bool, t: u64)
    requires
        set_allowed(m, origin_is_inherent, t),
    ensures
        set_applied(m, t).now >= m.now,
{
}

} // verus!
