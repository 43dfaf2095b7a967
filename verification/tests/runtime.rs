use ownership_demo::{
    borrow_scopes_ok, longest, refcell_ok, AccessError, Action, BorrowState, Event, Handoff,
    TextCell, Wrapper,
};

/// Plays the part of the task and of the channel without leaving this thread:
/// whatever is moved into the task comes back as its message.
fn run_handoff_in_place() -> String {
    let (mut state, mut action) = Handoff::start();
    let mut in_flight: Option<String> = None;
    loop {
        let event = match action {
            Action::Spawn { payload, .. } => {
                in_flight = Some(payload);
                Event::Spawned
            }
            Action::Receive => match in_flight.take() {
                Some(message) => Event::Received(message),
                None => Event::Disconnected,
            },
            Action::Join => Event::Joined,
            Action::Finish(out) => return out,
            Action::Fail(e) => panic!("{}", e.message()),
        };
        (state, action) = state.step(event);
    }
}

#[test]
fn passing_runtime_tests() {
    let a = String::from("short");
    let b = String::from("a little longer");
    assert_eq!(longest(&a, &b), "a little longer");

    let s = String::from("wrapped");
    let w = Wrapper { inner: &s };
    assert_eq!(w.inner, "wrapped");

    assert!(borrow_scopes_ok().contains("reads: hello & hello"));
    assert_eq!(refcell_ok(), "hi there");
    assert_eq!(run_handoff_in_place(), "moved into thread safely");
}

#[test]
fn failing_runtime_borrow_violation() {
    let mut cell = TextCell::new(String::from("boom"));
    let r = cell.try_borrow();
    assert_eq!(r, Ok(()));
    let w = cell.try_borrow_mut();
    assert_eq!(w, Err(AccessError::AlreadyBorrowed));
    assert!(AccessError::AlreadyBorrowed.message().contains("already borrowed"));
    assert_eq!(cell.borrow_state(), BorrowState::Shared(1));
}
