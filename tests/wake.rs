use ini_proc::wake::{emmc_interruptible_sleep, SleepOutcome, WakeGate};
use std::sync::{Condvar, Mutex};
use std::time::{Duration, Instant};

#[test]
fn scenario_trigger_cuts_a_sleep_short() {
    let gate = Mutex::new(WakeGate::new());
    let cvar = Condvar::new();
    // The trigger lands while the sleeper is about to wait.
    gate.lock().unwrap().emmc_trigger_immediate_check();
    cvar.notify_all();
    let start = Instant::now();
    let guard = gate.lock().unwrap();
    let (guard, res) = cvar
        .wait_timeout_while(guard, Duration::from_secs(10), |g| !g.take())
        .unwrap();
    let outcome = emmc_interruptible_sleep(false, res.timed_out());
    drop(guard);
    assert_eq!(outcome, SleepOutcome::Triggered);
    assert!(start.elapsed() < Duration::from_secs(5));
    assert!(!gate.lock().unwrap().force_check);
}

#[test]
fn untriggered_sleep_times_out() {
    let gate = Mutex::new(WakeGate::new());
    let cvar = Condvar::new();
    let guard = gate.lock().unwrap();
    let (_guard, res) = cvar
        .wait_timeout_while(guard, Duration::from_millis(50), |g| !g.take())
        .unwrap();
    assert_eq!(emmc_interruptible_sleep(false, res.timed_out()), SleepOutcome::TimedOut);
}

#[test]
fn duplicate_triggers_collapse() {
    let mut g = WakeGate::new();
    g.emmc_trigger_immediate_check();
    g.emmc_trigger_immediate_check();
    assert!(g.take());
    assert!(!g.take());
}

#[test]
fn sleep_outcomes() {
    assert_eq!(emmc_interruptible_sleep(true, false), SleepOutcome::TimedOut);
    assert_eq!(emmc_interruptible_sleep(false, true), SleepOutcome::TimedOut);
    assert_eq!(emmc_interruptible_sleep(false, false), SleepOutcome::Triggered);
}
