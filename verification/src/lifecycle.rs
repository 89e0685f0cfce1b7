//! The whole-program state machine of a freestanding skeleton.
//!
//! The program has no data and no output; all that can be observed of it is
//! which of four states it is in. The environment starts it, the runtime may
//! fault it, and each of its two routines ends in a deliberate halt. The
//! lemmas here establish the two facts the design rests on: halting is
//! irreversible, and a fault is never followed by normal execution again.

use vstd::prelude::*;

verus! {

/// The states a freestanding program can be in, observed from outside.
#[derive(Clone, Copy, Debug, PartialEq, Eq, Structural)]
pub enum State {
    /// Loaded but not yet entered.
    Unstarted,
    /// The entry point has been invoked and control is inside the program.
    Running,
    /// The runtime detected an irrecoverable condition and invoked the
    /// fault handler.
    Faulted,
    /// A terminal idle loop was entered; no further work happens.
    Halted,
}

/// The events that move the program between states.
#[derive(Clone, Copy, Debug, PartialEq, Eq, Structural)]
pub enum Event {
    /// The execution environment invokes the entry point.
    Start,
    /// The runtime detects an irrecoverable condition and hands control to
    /// the fault handler.
    Fault,
    /// The routine in control applies its termination discipline: the entry
    /// point at its end of work, or the fault handler unconditionally.
    Halt,
}

/// The transition function of the program. An event that the current state
/// has no transition for leaves the state unchanged: a program that was
/// never started cannot fault, and nothing moves a halted program.
pub open spec fn next_state(s: State, e: Event) -> State {
    match (s, e) {
        (State::Unstarted, Event::Start) => State::Running,
        (State::Running, Event::Fault) => State::Faulted,
        (State::Running, Event::Halt) => State::Halted,
        (State::Faulted, Event::Halt) => State::Halted,
        _ => s,
    }
}

/// The state after a whole sequence of events, applied in order from `s`.
pub open spec fn run_spec(s: State, events: Seq<Event>) -> State
    decreases events.len(),
{
    if events.len() == 0 {
        s
    } else {
        run_spec(next_state(s, events[0]), events.skip(1))
    }
}

/// Apply one event to the program.
pub fn step(s: State, e: Event) -> (r: State)
    ensures
        r == next_state(s, e),
{
    match (s, e) {
        (State::Unstarted, Event::Start) => State::Running,
        (State::Running, Event::Fault) => State::Faulted,
        (State::Running, Event::Halt) => State::Halted,
        (State::Faulted, Event::Halt) => State::Halted,
        _ => s,
    }
}

/// Apply a sequence of events to the program, in order.
pub fn run(s: State, events: &Vec<Event>) -> (r: State)
    ensures
        r == run_spec(s, events@),
{
    let mut cur = s;
    let mut i: usize = 0;
    proof {
        assert(events@.skip(0) =~= events@);
    }
    while i < events.len()
        invariant
            0 <= i <= events@.len(),
            run_spec(s, events@) == run_spec(cur, events@.skip(i as int)),
        decreases events@.len() - i,
    {
        proof {
            assert(events@.skip(i as int).skip(1) =~= events@.skip(i + 1));
        }
        cur = step(cur, events[i]);
        i = i + 1;
    }
    cur
}

/// Halted is terminal: no single event moves the program out of it.
pub proof fn lemma_halted_terminal(e: Event)
    ensures
        next_state(State::Halted, e) == State::Halted,
{
}

/// Halted is forever: no sequence of events moves the program out of it.
pub proof fn lemma_halted_absorbing(events: Seq<Event>)
    ensures
        run_spec(State::Halted, events) == State::Halted,
    decreases events.len(),
{
    if events.len() > 0 {
        lemma_halted_absorbing(events.skip(1));
    }
}

/// Running a concatenation of two event sequences is running them one after
/// the other.
pub proof fn lemma_run_append(s: State, a: Seq<Event>, b: Seq<Event>)
    ensures
        run_spec(s, a + b) == run_spec(run_spec(s, a), b),
    decreases a.len(),
{
    if a.len() == 0 {
        assert(a + b =~= b);
    } else {
        assert((a + b).skip(1) =~= a.skip(1) + b);
        lemma_run_append(next_state(s, a[0]), a.skip(1), b);
    }
}

/// Neither routine ever yields control back. The entry point's termination
/// discipline is the halt it applies while running, and the fault handler's
/// is the halt it applies after a fault; after either, every further event
/// leaves the program halted.
pub proof fn lemma_no_return(events: Seq<Event>)
    ensures
        run_spec(next_state(State::Running, Event::Halt), events) == State::Halted,
        run_spec(next_state(State::Faulted, Event::Halt), events) == State::Halted,
{
    lemma_halted_absorbing(events);
}

/// Once any run reaches Halted, the rest of the run stays there: a halt,
/// from either routine, is the last observable thing the program does.
pub proof fn lemma_halt_is_forever(s: State, events: Seq<Event>, k: int)
    requires
        0 <= k <= events.len(),
        run_spec(s, events.take(k)) == State::Halted,
    ensures
        run_spec(s, events) == State::Halted,
{
    assert(events =~= events.take(k) + events.skip(k));
    lemma_run_append(s, events.take(k), events.skip(k));
    lemma_halted_absorbing(events.skip(k));
}

/// Faults are fatal: from Faulted, no sequence of events ever brings the
/// program back to normal execution; it can only stay faulted or halt.
pub proof fn lemma_no_recovery(events: Seq<Event>)
    ensures
        run_spec(State::Faulted, events) is Faulted || run_spec(
            State::Faulted,
            events,
        ) is Halted,
    decreases events.len(),
{
    if events.len() > 0 {
        if next_state(State::Faulted, events[0]) is Halted {
            lemma_halted_absorbing(events.skip(1));
        } else {
            lemma_no_recovery(events.skip(1));
        }
    }
}

} // verus!
