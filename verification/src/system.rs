//! The guard on the operating system's own holds.

use vstd::prelude::*;
use keepawake::KeepAwake;
use crate::guard::SleepGuard;
use crate::model::acquire;
use crate::model::acquired;
use crate::options::WakeOptions;

verus! {

/// `keepawake::KeepAwake`: a hold on the machine's power management, in force
/// from the moment it is created until it is dropped. Nothing inside it is
/// visible here.
///
/// Its `Drop` is where the hold ends: the thread's earlier execution state is
/// restored on Windows, the power assertions are released on macOS, and on
/// Linux the screen saver is un-inhibited and the inhibitor locks go with
/// their file descriptors. The Linux `Drop` unwraps the reply to the
/// un-inhibit call, so it panics when the session bus fails at that moment.
#[verifier::external_type_specification]
#[verifier::external_body]
pub struct ExKeepAwake(keepawake::KeepAwake);

/// `keepawake::Error`: why a hold could not be created. Nothing inside it is
/// visible here.
#[verifier::external_type_specification]
#[verifier::external_body]
pub struct ExKeepAwakeError(keepawake::Error);

/// Asks the operating system for a hold: fills a `keepawake::Builder` with the
/// six options through its setters, field by field, and calls
/// `keepawake::Builder::create` on it.
///
/// Whether the hold is granted is up to the machine the program runs on, so
/// nothing is claimed of the result.
#[verifier::external_body]
fn request_hold(options: &WakeOptions) -> (outcome: Result<KeepAwake, keepawake::Error>) {
    keepawake::Builder::default()
        .display(options.display)
        .idle(options.idle)
        .sleep(options.sleep)
        .reason(options.reason.as_str())
        .app_name(options.app_name.as_str())
        .app_reverse_domain(options.app_reverse_domain.as_str())
        .create()
}

/// The text of a `keepawake::Error`, as its `Display` impl writes it. Nothing
/// is claimed of what the text says.
#[verifier::external_body]
fn refusal_text(error: &keepawake::Error) -> (text: String) {
    error.to_string()
}

impl SleepGuard<KeepAwake> {
    /// Keeps the machine awake from now on.
    ///
    /// An active guard stays as it is and reports success without asking for
    /// anything. An idle guard asks the operating system for a hold with
    /// [`WakeOptions::standard`] and settles on the answer: with a hold it
    /// becomes active, with a refusal it stays idle and returns the refusal's
    /// text.
    pub fn prevent_sleep(&mut self) -> (reply: Result<(), String>)
        ensures
            acquired(old(self)@, final(self)@, reply),
            final(self).in_sync(),
    {
        if self.is_active() {
            let ghost unasked: Result<KeepAwake, String> = arbitrary();
            assert(self@ == acquire(self@, unasked));
            Ok(())
        } else {
            let options = WakeOptions::standard();
            let outcome = match request_hold(&options) {
                Ok(hold) => Ok(hold),
                Err(error) => Err(refusal_text(&error)),
            };
            self.settle(outcome)
        }
    }
}

/// Keeps the machine awake through a guard that callers share behind a lock.
///
/// `locked` is the guard as the caller got it out of the lock, or `None` where
/// the lock could not be taken. With the guard in hand this is
/// [`SleepGuard::prevent_sleep`]; without it the call fails with the text
/// `Failed to acquire lock` and nothing is asked of the operating system.
pub fn prevent_sleep(locked: Option<&mut SleepGuard<KeepAwake>>) -> (reply: Result<(), String>)
    ensures
        locked is None ==> (reply matches Err(text) && text@ == "Failed to acquire lock"@),
        locked matches Some(guard) ==> acquired(guard@, final(guard)@, reply),
        locked matches Some(guard) ==> final(guard).in_sync(),
{
    match locked {
        Some(guard) => guard.prevent_sleep(),
        None => Err("Failed to acquire lock".to_owned()),
    }
}

} // verus!
