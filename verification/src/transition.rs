//! The splash-screen transition: close the splash-screen window, then show
//! and focus the main window, skipping windows that do not exist and
//! stopping at the first operation the runtime fails.
//!
//! The machine here only decides. A driver owns the real windows: it reads
//! off the next operation from the current [`Transition`] state, asks the
//! host runtime to perform it, wraps what the runtime said in a
//! [`WindowEvent`], and feeds that back through [`step`] until the state is
//! final.

use vstd::prelude::*;

verus! {

/// What the host runtime reported about one window operation.
#[derive(Debug, PartialEq, Eq)]
pub enum WindowEvent {
    /// The window the operation addresses does not exist.
    Absent,
    /// The operation completed.
    Completed,
    /// The runtime failed the operation and gave this message.
    Error(String),
}

/// The state of the splash-screen transition: the next window operation to
/// attempt, or the verdict once no operation remains.
#[derive(Debug, PartialEq, Eq)]
pub enum Transition {
    /// Close the splash-screen window, if it exists.
    CloseSplash,
    /// Show the main window, if it exists.
    ShowMain,
    /// Give the main window input focus.
    FocusMain,
    /// Every remaining operation was done or skipped.
    Succeeded,
    /// An operation failed with this message; nothing further is attempted.
    Failed(String),
}

/// A final state accepts no further operation.
pub open spec fn spec_is_final(t: Transition) -> bool {
    t is Succeeded || t is Failed
}

/// The next state after the runtime reported `ev` for the operation that
/// `t` was waiting on. A missing window skips the rest of its step, a
/// failure ends the transition with the runtime's message, and a final
/// state stays as it is.
pub open spec fn spec_step(t: Transition, ev: WindowEvent) -> Transition {
    match t {
        Transition::CloseSplash => match ev {
            WindowEvent::Absent => Transition::ShowMain,
            WindowEvent::Completed => Transition::ShowMain,
            WindowEvent::Error(m) => Transition::Failed(m),
        },
        Transition::ShowMain => match ev {
            WindowEvent::Absent => Transition::Succeeded,
            WindowEvent::Completed => Transition::FocusMain,
            WindowEvent::Error(m) => Transition::Failed(m),
        },
        Transition::FocusMain => match ev {
            WindowEvent::Absent => Transition::Succeeded,
            WindowEvent::Completed => Transition::Succeeded,
            WindowEvent::Error(m) => Transition::Failed(m),
        },
        Transition::Succeeded => Transition::Succeeded,
        Transition::Failed(m) => Transition::Failed(m),
    }
}

/// The state after running `t` through the reports in `events`, in order.
pub open spec fn spec_run(t: Transition, events: Seq<WindowEvent>) -> Transition
    decreases events.len(),
{
    if events.len() == 0 {
        t
    } else {
        spec_run(spec_step(t, events[0]), events.skip(1))
    }
}

/// Advances the transition by one runtime report.
pub fn step(t: Transition, ev: WindowEvent) -> (r: Transition)
    ensures
        r == spec_step(t, ev),
{
    match t {
        Transition::CloseSplash => match ev {
            WindowEvent::Absent => Transition::ShowMain,
            WindowEvent::Completed => Transition::ShowMain,
            WindowEvent::Error(m) => Transition::Failed(m),
        },
        Transition::ShowMain => match ev {
            WindowEvent::Absent => Transition::Succeeded,
            WindowEvent::Completed => Transition::FocusMain,
            WindowEvent::Error(m) => Transition::Failed(m),
        },
        Transition::FocusMain => match ev {
            WindowEvent::Absent => Transition::Succeeded,
            WindowEvent::Completed => Transition::Succeeded,
            WindowEvent::Error(m) => Transition::Failed(m),
        },
        Transition::Succeeded => Transition::Succeeded,
        Transition::Failed(m) => Transition::Failed(m),
    }
}

/// Whether the transition is over, so the driver must stop feeding events.
pub fn is_final(t: &Transition) -> (r: bool)
    ensures
        r == spec_is_final(*t),
{
    match t {
        Transition::Succeeded => true,
        Transition::Failed(_) => true,
        _ => false,
    }
}

/// Runs the transition from `start` through all the reports in `events`,
/// in order, and returns the state it ends in.
pub fn run_transition(start: Transition, events: Vec<WindowEvent>) -> (r: Transition)
    ensures
        r == spec_run(start, events@),
{
    let ghost start0: Transition = start;
    let ghost full: Seq<WindowEvent> = events@;
    let mut t = start;
    let mut rest = events;
    while rest.len() > 0
        invariant
            spec_run(t, rest@) == spec_run(start0, full),
        decreases rest.len(),
    {
        let ghost prev: Seq<WindowEvent> = rest@;
        let ev = rest.remove(0);
        proof {
            assert(rest@ =~= prev.skip(1));
        }
        t = step(t, ev);
    }
    t
}

/// The verdict the operation reports to its caller: success once the
/// transition has succeeded, the runtime's message once it has failed,
/// and nothing while operations remain.
pub fn outcome(t: Transition) -> (r: Option<Result<(), String>>)
    ensures
        t is Succeeded ==> r == Some(Result::<(), String>::Ok(())),
        t matches Transition::Failed(m) ==> r == Some(Result::<(), String>::Err(m)),
        !spec_is_final(t) ==> r is None,
{
    match t {
        Transition::Succeeded => Some(Ok(())),
        Transition::Failed(m) => Some(Err(m)),
        _ => None,
    }
}

/// A final state absorbs every later report: once the transition has
/// succeeded or failed, nothing that happens afterwards changes it.
pub proof fn lemma_final_is_absorbing(t: Transition, events: Seq<WindowEvent>)
    requires
        spec_is_final(t),
    ensures
        spec_run(t, events) == t,
    decreases events.len(),
{
    if events.len() > 0 {
        assert(spec_step(t, events[0]) == t);
        lemma_final_is_absorbing(t, events.skip(1));
    }
}

/// When neither the splash-screen window nor the main window exists, the
/// transition still succeeds: absence of a window is not a failure.
pub proof fn lemma_no_windows_still_succeeds()
    ensures
        spec_run(Transition::CloseSplash, seq![WindowEvent::Absent, WindowEvent::Absent])
            == Transition::Succeeded,
{
    reveal_with_fuel(spec_run, 3);
    let evs = seq![WindowEvent::Absent, WindowEvent::Absent];
    assert(evs.skip(1) =~= seq![WindowEvent::Absent]);
    assert(evs.skip(1).skip(1) =~= Seq::<WindowEvent>::empty());
}

/// When the splash-screen window closes and the main window does not
/// exist, the transition succeeds: showing and focusing are skipped.
pub proof fn lemma_main_absent_still_succeeds()
    ensures
        spec_run(Transition::CloseSplash, seq![WindowEvent::Completed, WindowEvent::Absent])
            == Transition::Succeeded,
{
    reveal_with_fuel(spec_run, 3);
    let evs = seq![WindowEvent::Completed, WindowEvent::Absent];
    assert(evs.skip(1) =~= seq![WindowEvent::Absent]);
    assert(evs.skip(1).skip(1) =~= Seq::<WindowEvent>::empty());
}

/// A runtime failure while showing or focusing the main window ends the
/// transition at once: the state becomes `Failed` carrying the runtime's
/// message exactly (so the message is non-empty whenever the runtime's
/// was), and no later report is consulted.
pub proof fn lemma_runtime_failure_aborts(t: Transition, m: String, later: Seq<WindowEvent>)
    requires
        t is ShowMain || t is FocusMain,
    ensures
        spec_step(t, WindowEvent::Error(m)) == Transition::Failed(m),
        spec_is_final(Transition::Failed(m)),
        spec_run(spec_step(t, WindowEvent::Error(m)), later) == Transition::Failed(m),
        m@.len() > 0 ==> (spec_step(t, WindowEvent::Error(m)) matches Transition::Failed(fm)
            && fm@.len() > 0),
{
    lemma_final_is_absorbing(Transition::Failed(m), later);
}

} // verus!
