//! What a request for a hold says to the operating system.

use vstd::prelude::*;

verus! {

/// The kinds of sleep that a hold keeps off, and the labels under which the
/// operating system lists it. The labels are for display and change nothing
/// about what the hold does.
pub struct WakeOptions {
    /// Keep the display from turning off.
    pub display: bool,
    /// Keep the machine from sleeping for want of activity.
    pub idle: bool,
    /// Keep the machine from sleeping at all, as far as the platform lets a
    /// program ask for that.
    pub sleep: bool,
    /// Why the machine is kept awake.
    pub reason: String,
    /// The name of the program that keeps it awake.
    pub app_name: String,
    /// That program's identifier in reverse domain notation.
    pub app_reverse_domain: String,
}

impl WakeOptions {
    /// The request that the guard makes: every kind of sleep is kept off, in
    /// the user's name and under this application's own labels.
    pub fn standard() -> (options: WakeOptions)
        ensures
            options.display,
            options.idle,
            options.sleep,
            options.reason@ == "User requested"@,
            options.app_name@ == "wakeMate"@,
            options.app_reverse_domain@ == "com.example.wakemate"@,
    {
        WakeOptions {
            display: true,
            idle: true,
            sleep: true,
            reason: "User requested".to_owned(),
            app_name: "wakeMate".to_owned(),
            app_reverse_domain: "com.example.wakemate".to_owned(),
        }
    }
}

} // verus!
