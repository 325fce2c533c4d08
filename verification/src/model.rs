//! The two-state machine behind the guard, as pure mathematics.
//!
//! The executable operations state their effect through the functions of this
//! module, and the laws at the end of it are proved of these functions alone.

use vstd::prelude::*;

verus! {

/// What a guard is doing: nothing, or keeping the machine awake through the
/// hold `H` that it owns.
pub enum WakeState<H> {
    /// No hold: the operating system manages power as usual.
    Idle,
    /// A hold is owned, and sleep is held off until it is given up.
    Active(H),
}

impl<H> WakeState<H> {
    /// The hold that is owned, if there is one.
    pub open spec fn hold(self) -> Option<H> {
        match self {
            WakeState::Idle => None,
            WakeState::Active(h) => Some(h),
        }
    }
}

/// The state after an acquire. `outcome` is what the operating system answered
/// to the request for a hold; an active guard keeps the hold it has and does
/// not look at it.
pub open spec fn acquire<H, E>(state: WakeState<H>, outcome: Result<H, E>) -> WakeState<H> {
    match (state, outcome) {
        (WakeState::Active(_), _) => state,
        (WakeState::Idle, Ok(h)) => WakeState::Active(h),
        (WakeState::Idle, Err(_)) => WakeState::Idle,
    }
}

/// What an acquire tells its caller: success, or the operating system's
/// refusal as it came.
pub open spec fn acquire_reply<H, E>(state: WakeState<H>, outcome: Result<H, E>) -> Result<(), E> {
    match (state, outcome) {
        (WakeState::Idle, Err(reason)) => Err(reason),
        _ => Ok(()),
    }
}

/// Whether `after` and `reply` are what an acquire leaves of `before` for some
/// answer of the operating system. This is all that can be said of an acquire
/// before the answer is known.
pub open spec fn acquired<H, E>(
    before: WakeState<H>,
    after: WakeState<H>,
    reply: Result<(), E>,
) -> bool {
    exists|outcome: Result<H, E>|
        after == #[trigger] acquire(before, outcome) && reply == acquire_reply(before, outcome)
}

/// The state after a release, whatever it was before.
pub open spec fn release<H>(state: WakeState<H>) -> WakeState<H> {
    WakeState::Idle
}

/// One operation on a guard. An acquire comes with the answer that the
/// operating system gives, or would give, to the request for a hold.
pub enum Call<H, E> {
    /// Keep the machine awake from now on.
    Acquire(Result<H, E>),
    /// Let the machine sleep again.
    Release,
}

/// The state after one operation.
pub open spec fn step<H, E>(state: WakeState<H>, call: Call<H, E>) -> WakeState<H> {
    match call {
        Call::Acquire(outcome) => acquire(state, outcome),
        Call::Release => release(state),
    }
}

/// The state after a run of operations, carried out one after the other from
/// the first to the last.
pub open spec fn run<H, E>(state: WakeState<H>, calls: Seq<Call<H, E>>) -> WakeState<H>
    decreases calls.len(),
{
    if calls.len() == 0 {
        state
    } else {
        step(run(state, calls.drop_last()), calls.last())
    }
}

/// Whether the operation makes a guard in this state take a hold of its own:
/// an acquire on an idle guard that the operating system grants.
pub open spec fn takes_hold<H, E>(state: WakeState<H>, call: Call<H, E>) -> bool {
    &&& state is Idle
    &&& call matches Call::Acquire(outcome)
    &&& outcome is Ok
}

/// Whether the operation makes a guard in this state give its hold up: a
/// release on an active guard.
pub open spec fn drops_hold<H, E>(state: WakeState<H>, call: Call<H, E>) -> bool {
    state is Active && call is Release
}

/// How many holds a guard takes in the course of a run.
pub open spec fn holds_taken<H, E>(state: WakeState<H>, calls: Seq<Call<H, E>>) -> nat
    decreases calls.len(),
{
    if calls.len() == 0 {
        0
    } else {
        let before = run(state, calls.drop_last());
        holds_taken(state, calls.drop_last()) + if takes_hold(before, calls.last()) {
            1nat
        } else {
            0nat
        }
    }
}

/// How many holds a guard gives up in the course of a run.
pub open spec fn holds_dropped<H, E>(state: WakeState<H>, calls: Seq<Call<H, E>>) -> nat
    decreases calls.len(),
{
    if calls.len() == 0 {
        0
    } else {
        let before = run(state, calls.drop_last());
        holds_dropped(state, calls.drop_last()) + if drops_hold(before, calls.last()) {
            1nat
        } else {
            0nat
        }
    }
}

/// The number of holds in a state: one if it is active, none if it is idle.
pub open spec fn holds_owned<H>(state: WakeState<H>) -> nat {
    if state is Active {
        1
    } else {
        0
    }
}

/// What an acquire can do, case by case. An active guard stays exactly as it
/// is and the call succeeds. An idle guard either becomes active and the call
/// succeeds, or stays idle and the call fails; nothing else can happen.
pub proof fn lemma_acquired_cases<H, E>(
    before: WakeState<H>,
    after: WakeState<H>,
    reply: Result<(), E>,
)
    ensures
        acquired(before, after, reply) <==> if before is Active {
            after == before && reply == Ok::<(), E>(())
        } else {
            (after is Active && reply == Ok::<(), E>(())) || (after is Idle && reply is Err)
        },
{
    match (before, after, reply) {
        (WakeState::Active(_), _, Ok(_)) => {
            if after == before && reply == Ok::<(), E>(()) {
                let unasked: Result<H, E> = arbitrary();
                assert(after == acquire(before, unasked) && reply == acquire_reply(
                    before,
                    unasked,
                ));
            }
        },
        (WakeState::Idle, WakeState::Active(hold), Ok(_)) => {
            if reply == Ok::<(), E>(()) {
                let granted: Result<H, E> = Ok(hold);
                assert(after == acquire(before, granted) && reply == acquire_reply(
                    before,
                    granted,
                ));
            }
        },
        (WakeState::Idle, WakeState::Idle, Err(reason)) => {
            let refused: Result<H, E> = Err(reason);
            assert(after == acquire(before, refused) && reply == acquire_reply(before, refused));
        },
        _ => {},
    }
}

/// Acquiring is idempotent. Once an acquire has succeeded, the guard is
/// active, and a second acquire right after it succeeds too and changes
/// nothing, whatever the operating system answers or would answer: the hold
/// that the guard had after the first acquire is still its only one.
pub proof fn lemma_acquire_twice<H, E>(
    before: WakeState<H>,
    between: WakeState<H>,
    after: WakeState<H>,
    first: Result<(), E>,
    second: Result<(), E>,
)
    requires
        acquired(before, between, first),
        first is Ok,
        acquired(between, after, second),
    ensures
        between is Active,
        after == between,
        second == Ok::<(), E>(()),
        holds_owned(after) == 1,
{
}

/// Releasing is idempotent. A release leaves the guard idle from any state,
/// and a second release right after it finds nothing to give up and changes
/// nothing.
pub proof fn lemma_release_twice<H>(state: WakeState<H>)
    ensures
        release(state) is Idle,
        release(release(state)) == release(state),
        holds_owned(release(state)) == 0,
{
}

/// A refused acquire changes nothing. An idle guard that is refused a hold
/// stays idle and passes the reason on unchanged, and the next acquire is
/// free to succeed: it makes the guard active with the hold it is granted.
pub proof fn lemma_refused_acquire_can_be_retried<H, E>(reason: E, hold: H)
    ensures
        acquire(WakeState::<H>::Idle, Err::<H, E>(reason)) == WakeState::<H>::Idle,
        acquire_reply(WakeState::<H>::Idle, Err::<H, E>(reason)) == Err::<(), E>(reason),
        acquire(acquire(WakeState::<H>::Idle, Err::<H, E>(reason)), Ok::<H, E>(hold))
            == WakeState::Active(hold),
        acquire_reply(acquire(WakeState::<H>::Idle, Err::<H, E>(reason)), Ok::<H, E>(hold))
            == Ok::<(), E>(()),
{
}

/// No hold is lost and none is owned twice. Over any run of operations from
/// any state, the holds owned at the start and those taken on the way are
/// exactly the holds given up on the way and those owned at the end; and at
/// every moment the guard owns one hold if it is active and none if it is not.
pub proof fn lemma_holds_balance<H, E>(state: WakeState<H>, calls: Seq<Call<H, E>>)
    ensures
        holds_owned(state) + holds_taken(state, calls) == holds_dropped(state, calls)
            + holds_owned(run(state, calls)),
        run(state, calls) is Active <==> run(state, calls).hold() is Some,
    decreases calls.len(),
{
    if calls.len() > 0 {
        lemma_holds_balance(state, calls.drop_last());
    }
}

/// Any number of acquires make one hold. When an idle guard is asked to
/// acquire again and again with nothing in between, in whatever order the
/// callers get their turn, and the operating system would grant every request,
/// the guard ends up active with the hold of the first request and has taken
/// no other.
pub proof fn lemma_acquires_share_one_hold<H, E>(calls: Seq<Call<H, E>>)
    requires
        calls.len() >= 1,
        forall|i: int|
            0 <= i < calls.len() ==> (#[trigger] calls[i] matches Call::Acquire(outcome)
                && outcome is Ok),
    ensures
        calls[0] matches Call::Acquire(Ok(hold)) && run(WakeState::<H>::Idle, calls)
            == WakeState::Active(hold),
        holds_taken(WakeState::<H>::Idle, calls) == 1,
        holds_dropped(WakeState::<H>::Idle, calls) == 0,
    decreases calls.len(),
{
    let idle = WakeState::<H>::Idle;
    let earlier = calls.drop_last();
    assert(calls.last() is Acquire);
    if calls.len() == 1 {
        assert(run(idle, earlier) == idle);
        assert(holds_taken(idle, earlier) == 0);
        assert(holds_dropped(idle, earlier) == 0);
    } else {
        assert(earlier[0] == calls[0]);
        assert forall|i: int| 0 <= i < earlier.len() implies (#[trigger] earlier[i] matches Call::Acquire(
            outcome,
        ) && outcome is Ok) by {
            assert(earlier[i] == calls[i]);
        }
        lemma_acquires_share_one_hold(earlier);
    }
}

} // verus!
