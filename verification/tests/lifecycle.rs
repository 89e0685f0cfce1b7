use freestanding::lifecycle::{run, step, Event, State};

#[test]
fn start_enters_running() {
    assert_eq!(step(State::Unstarted, Event::Start), State::Running);
}

#[test]
fn fault_while_running_enters_faulted() {
    assert_eq!(step(State::Running, Event::Fault), State::Faulted);
}

#[test]
fn halt_while_running_enters_halted() {
    assert_eq!(step(State::Running, Event::Halt), State::Halted);
}

#[test]
fn fault_handler_halts() {
    assert_eq!(step(State::Faulted, Event::Halt), State::Halted);
}

#[test]
fn unmatched_events_change_nothing() {
    assert_eq!(step(State::Unstarted, Event::Fault), State::Unstarted);
    assert_eq!(step(State::Unstarted, Event::Halt), State::Unstarted);
    assert_eq!(step(State::Running, Event::Start), State::Running);
    assert_eq!(step(State::Faulted, Event::Start), State::Faulted);
    assert_eq!(step(State::Faulted, Event::Fault), State::Faulted);
}

#[test]
fn halted_is_terminal() {
    assert_eq!(step(State::Halted, Event::Start), State::Halted);
    assert_eq!(step(State::Halted, Event::Fault), State::Halted);
    assert_eq!(step(State::Halted, Event::Halt), State::Halted);
}

#[test]
fn empty_run_stays_put() {
    assert_eq!(run(State::Unstarted, &vec![]), State::Unstarted);
    assert_eq!(run(State::Running, &vec![]), State::Running);
}

#[test]
fn idle_loop_scenario() {
    // Fault-free execution: the entry point runs to its end of work and
    // enters the idle loop; nothing that happens afterwards wakes it.
    assert_eq!(run(State::Unstarted, &vec![Event::Start, Event::Halt]), State::Halted);
    assert_eq!(
        run(
            State::Unstarted,
            &vec![Event::Start, Event::Halt, Event::Start, Event::Fault, Event::Halt],
        ),
        State::Halted,
    );
}

#[test]
fn halt_on_fault_scenario() {
    // A deliberately triggered fault hands control to the fault handler,
    // and the only outcome is the halted state: no resumption.
    assert_eq!(run(State::Unstarted, &vec![Event::Start, Event::Fault]), State::Faulted);
    assert_eq!(
        run(State::Unstarted, &vec![Event::Start, Event::Fault, Event::Start]),
        State::Faulted,
    );
    assert_eq!(
        run(State::Unstarted, &vec![Event::Start, Event::Fault, Event::Halt]),
        State::Halted,
    );
    assert_eq!(
        run(
            State::Unstarted,
            &vec![Event::Start, Event::Fault, Event::Halt, Event::Start, Event::Fault],
        ),
        State::Halted,
    );
}

#[test]
fn unstarted_program_cannot_fault() {
    assert_eq!(run(State::Unstarted, &vec![Event::Fault, Event::Halt]), State::Unstarted);
}
