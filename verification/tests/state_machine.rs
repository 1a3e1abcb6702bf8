use timestamp::clock::{InvariantViolation, Module, OnTimestampSet};

struct Recorder {
    seen: Vec<u64>,
}

impl OnTimestampSet for Recorder {
    fn on_timestamp_set(&mut self, moment: u64) {
        self.seen.push(moment);
    }
}

#[test]
fn timestamp_works() {
    let mut t = Module::new(5);
    t.set_timestamp(42);
    let mut listeners = ();
    assert!(t.set(true, 69, &mut listeners).is_ok());
    assert_eq!(t.now(), 69);
}

#[test]
fn double_timestamp_should_fail() {
    let mut t = Module::new(5);
    t.set_timestamp(42);
    let mut listeners = ();
    assert!(t.set(true, 69, &mut listeners).is_ok());
    let second = t.set(true, 70, &mut listeners);
    assert_eq!(second, Err(InvariantViolation::AlreadyUpdated));
    assert_eq!(
        InvariantViolation::AlreadyUpdated.message(),
        "Timestamp must be updated only once in the block"
    );
    // The failed second call left the state as the first call wrote it.
    assert_eq!(t.now(), 69);
}

#[test]
fn block_period_is_enforced() {
    let mut t = Module::new(5);
    t.set_timestamp(42);
    let mut listeners = ();
    let r = t.set(true, 46, &mut listeners);
    assert_eq!(r, Err(InvariantViolation::PeriodNotElapsed));
    assert_eq!(
        InvariantViolation::PeriodNotElapsed.message(),
        "Timestamp must increment by at least <BlockPeriod> between sequential blocks"
    );
    assert_eq!(t.now(), 42);
}

#[test]
fn minimum_period_bound_is_inclusive() {
    let mut t = Module::new(5);
    t.set_timestamp(42);
    let mut listeners = ();
    assert!(t.set(true, 47, &mut listeners).is_ok());
    assert_eq!(t.get(), 47);
}

#[test]
fn genesis_state_is_exempt_from_minimum_period() {
    let mut t = Module::new(5);
    let mut listeners = ();
    assert_eq!(t.now(), 0);
    assert!(t.set(true, 1, &mut listeners).is_ok());
    assert_eq!(t.now(), 1);
    // The exemption applied only to the zero state: the next block is held
    // to the minimum period again.
    assert!(t.on_finalise().is_ok());
    assert_eq!(t.set(true, 2, &mut listeners), Err(InvariantViolation::PeriodNotElapsed));
    assert!(t.set(true, 6, &mut listeners).is_ok());
}

#[test]
fn zero_period_degrades_to_non_decreasing() {
    let mut t = Module::new(0);
    t.set_timestamp(42);
    let mut listeners = ();
    assert!(t.set(true, 42, &mut listeners).is_ok());
    assert!(t.on_finalise().is_ok());
    assert_eq!(t.set(true, 41, &mut listeners), Err(InvariantViolation::PeriodNotElapsed));
    assert!(t.set(true, 42, &mut listeners).is_ok());
}

#[test]
fn set_requires_inherent_origin() {
    let mut t = Module::new(5);
    t.set_timestamp(42);
    let mut listeners = ();
    let r = t.set(false, 69, &mut listeners);
    assert_eq!(r, Err(InvariantViolation::NotInherentOrigin));
    assert_eq!(t.now(), 42);
    assert_eq!(
        InvariantViolation::NotInherentOrigin.message(),
        "bad origin: expected to be an inherent origin"
    );
}

#[test]
fn finalize_without_update_fails() {
    let mut t = Module::new(5);
    let r = t.on_finalise();
    assert_eq!(r, Err(InvariantViolation::NotUpdated));
    assert_eq!(
        InvariantViolation::NotUpdated.message(),
        "Timestamp must be updated once in the block"
    );
}

#[test]
fn finalize_consumes_the_update_flag() {
    let mut t = Module::new(5);
    t.set_timestamp(42);
    let mut listeners = ();
    assert!(t.set(true, 69, &mut listeners).is_ok());
    assert!(t.on_finalise().is_ok());
    // The flag was reset: a second finalization in a row fails, and a new
    // update is accepted again.
    assert_eq!(t.on_finalise(), Err(InvariantViolation::NotUpdated));
    assert!(t.set(true, 74, &mut listeners).is_ok());
}

#[test]
fn listeners_receive_the_new_time_in_order() {
    let mut t = Module::new(5);
    t.set_timestamp(42);
    let mut listeners = (Recorder { seen: Vec::new() }, Recorder { seen: Vec::new() });
    assert!(t.set(true, 69, &mut listeners).is_ok());
    assert_eq!(listeners.0.seen, vec![69]);
    assert_eq!(listeners.1.seen, vec![69]);
}

#[test]
fn listeners_are_not_notified_on_a_failed_update() {
    let mut t = Module::new(5);
    t.set_timestamp(42);
    let mut listeners = Recorder { seen: Vec::new() };
    assert_eq!(t.set(true, 43, &mut listeners), Err(InvariantViolation::PeriodNotElapsed));
    assert!(listeners.seen.is_empty());
}

#[test]
fn block_period_getter_reports_the_configured_period() {
    let t = Module::new(7);
    assert_eq!(t.block_period(), 7);
    assert_eq!(t.get(), 0);
}
