use std::sync::Mutex;

use keepawake::KeepAwake;
use wakemate::guard::SleepGuard;
use wakemate::options::WakeOptions;
use wakemate::system::prevent_sleep;

#[test]
fn standard_options_keep_every_kind_of_sleep_off() {
    let options = WakeOptions::standard();
    assert!(options.display);
    assert!(options.idle);
    assert!(options.sleep);
    assert_eq!(options.reason, "User requested");
    assert_eq!(options.app_name, "wakeMate");
    assert_eq!(options.app_reverse_domain, "com.example.wakemate");
}

#[test]
fn prevent_sleep_is_active_exactly_when_it_succeeds() {
    let mut guard: SleepGuard<KeepAwake> = SleepGuard::new();
    let reply = guard.prevent_sleep();
    assert_eq!(reply.is_ok(), guard.is_active());
    assert_eq!(guard.is_active(), guard.hold().is_some());
    if let Err(reason) = reply {
        assert!(reason.starts_with("system: ") || reason.starts_with("builder: "));
    }
}

#[test]
fn prevent_sleep_twice_agrees_with_itself() {
    let mut guard: SleepGuard<KeepAwake> = SleepGuard::new();
    let first = guard.prevent_sleep();
    let after_first = guard.is_active();
    let second = guard.prevent_sleep();
    assert_eq!(first.is_ok(), after_first);
    if after_first {
        assert_eq!(second, Ok(()));
    }
    assert_eq!(second.is_ok(), guard.is_active());
}

#[test]
fn allow_sleep_after_prevent_sleep_leaves_the_guard_idle() {
    let mut guard: SleepGuard<KeepAwake> = SleepGuard::new();
    if guard.prevent_sleep().is_err() {
        assert!(!guard.is_active());
    }
    guard.allow_sleep();
    assert!(!guard.is_active());
    assert!(guard.hold().is_none());
    guard.allow_sleep();
    assert!(!guard.is_active());
}

#[test]
fn prevent_sleep_without_the_lock_fails_with_its_own_text() {
    assert_eq!(prevent_sleep(None), Err("Failed to acquire lock".to_string()));
}

#[test]
fn prevent_sleep_with_the_lock_is_the_guards_own() {
    let mut guard: SleepGuard<KeepAwake> = SleepGuard::new();
    let reply = prevent_sleep(Some(&mut guard));
    assert_eq!(reply.is_ok(), guard.is_active());
    if let Err(reason) = reply {
        assert_ne!(reason, "Failed to acquire lock");
    }
    if guard.is_active() {
        assert_eq!(prevent_sleep(Some(&mut guard)), Ok(()));
        assert!(guard.is_active());
    }
    guard.allow_sleep();
    assert!(!guard.is_active());
}

#[test]
fn guard_out_of_a_lock_goes_through_prevent_sleep() {
    let shared: Mutex<SleepGuard<KeepAwake>> = Mutex::new(SleepGuard::new());
    let mut locked = shared.lock().ok();
    let reply = prevent_sleep(locked.as_deref_mut());
    assert_eq!(reply.is_ok(), locked.as_deref().map(|guard| guard.is_active()).unwrap_or(false));
    let mut nothing: Option<std::sync::MutexGuard<SleepGuard<KeepAwake>>> = None;
    assert_eq!(prevent_sleep(nothing.as_deref_mut()), Err("Failed to acquire lock".to_string()));
}
