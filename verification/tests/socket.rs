use polling_utils::{Error, Event, Interest, PollMode, Request, Socket, Source, Steps};

fn asked(mut steps: Steps<Request>) -> Vec<Request> {
    let mut requests = vec![];
    while let Some(request) = steps.due().copied() {
        requests.push(request);
        steps.settle(Ok::<(), ()>(())).unwrap();
    }
    requests
}

fn sample_event() -> Event {
    Event { key: 9, readable: true, writable: true }
}

#[test]
fn socket_register_asks_to_add() {
    let mut socket = Socket::new(7u32);
    let requests = socket.register(Event::readable(0), PollMode::Oneshot);
    assert_eq!(
        asked(requests),
        vec![Request::Add { event: Event::readable(0), mode: PollMode::Oneshot }]
    );
    assert_eq!(*socket.socket(), 7);
}

#[test]
fn socket_reregister_asks_to_modify() {
    let mut socket = Socket::new(7u32);
    socket.register(Event::readable(0), PollMode::Oneshot);
    let requests = socket.reregister(sample_event(), PollMode::Level);
    assert_eq!(
        asked(requests),
        vec![Request::Modify { event: sample_event(), mode: PollMode::Level }]
    );
}

#[test]
fn socket_reregister_without_register_still_asks_to_modify() {
    let mut socket = Socket::new(7u32);
    let requests = socket.reregister(sample_event(), PollMode::Edge);
    assert_eq!(
        asked(requests),
        vec![Request::Modify { event: sample_event(), mode: PollMode::Edge }]
    );
    assert_eq!(asked(socket.deregister()), vec![Request::Delete]);
}

#[test]
fn socket_deregister_asks_to_delete_only_when_registered() {
    let mut socket = Socket::new(7u32);
    assert_eq!(asked(socket.deregister()), vec![]);
    socket.register(sample_event(), PollMode::Edge);
    assert_eq!(asked(socket.deregister()), vec![Request::Delete]);
}

#[test]
fn socket_deregister_twice_asks_once() {
    let mut socket = Socket::new(7u32);
    socket.register(sample_event(), PollMode::EdgeOneshot);
    assert_eq!(asked(socket.deregister()), vec![Request::Delete]);
    assert_eq!(asked(socket.deregister()), vec![]);
    assert_eq!(asked(socket.deregister()), vec![]);
}

#[test]
fn socket_register_again_after_deregister() {
    let mut socket = Socket::new(7u32);
    socket.register(sample_event(), PollMode::Oneshot);
    socket.deregister();
    assert_eq!(
        asked(socket.register(sample_event(), PollMode::Oneshot)),
        vec![Request::Add { event: sample_event(), mode: PollMode::Oneshot }]
    );
    assert_eq!(asked(socket.deregister()), vec![Request::Delete]);
}

#[test]
fn socket_handle_event_asks_nothing() {
    let mut socket = Socket::new(7u32);
    assert_eq!(asked(socket.handle_event(sample_event())), vec![]);
    socket.register(sample_event(), PollMode::Level);
    assert_eq!(asked(socket.handle_event(sample_event())), vec![]);
    // The registration is still on record.
    assert_eq!(asked(socket.deregister()), vec![Request::Delete]);
}

#[test]
fn socket_gives_its_handle() {
    let mut socket = Socket::new(String::from("left"));
    assert_eq!(socket.socket(), "left");
    socket.socket_mut().push_str("over");
    assert_eq!(socket.socket(), "leftover");
    socket.register(sample_event(), PollMode::Level);
    socket.socket_mut().push('s');
    assert_eq!(asked(socket.deregister()), vec![Request::Delete]);
    assert_eq!(socket.into_socket(), "leftovers");
}

#[test]
fn events_by_kind_of_readiness() {
    assert_eq!(Event::readable(4), Event { key: 4, readable: true, writable: false });
    assert_eq!(Event::writable(4), Event { key: 4, readable: false, writable: true });
    assert_eq!(Event::all(4), Event { key: 4, readable: true, writable: true });
    assert_eq!(Event::none(4), Event { key: 4, readable: false, writable: false });
}

#[test]
fn oneshot_modes() {
    assert!(PollMode::Oneshot.oneshot());
    assert!(PollMode::EdgeOneshot.oneshot());
    assert!(!PollMode::Level.oneshot());
    assert!(!PollMode::Edge.oneshot());
}

#[test]
fn error_messages() {
    assert_eq!(Error::UnsupportedMode.message(), Some("unsupported polling mode for IOCP"));
    assert_eq!(Error::SendFailed.message(), None);
}

#[test]
fn interest_is_event_and_mode() {
    let interest = Interest { event: sample_event(), mode: PollMode::Level };
    assert_eq!(interest.event.key, 9);
    assert_eq!(interest.mode, PollMode::Level);
}

#[test]
fn steps_are_due_in_their_order() {
    let mut steps = Steps::new(vec!["first", "second", "third"]);
    assert!(!steps.finished());
    assert_eq!(steps.due(), Some(&"first"));
    assert_eq!(steps.due(), Some(&"first"));
    assert_eq!(steps.settle(Ok::<(), u8>(())), Ok(()));
    assert_eq!(steps.due(), Some(&"second"));
    assert_eq!(steps.settle(Ok::<(), u8>(())), Ok(()));
    assert_eq!(steps.due(), Some(&"third"));
    assert!(!steps.finished());
    assert_eq!(steps.settle(Ok::<(), u8>(())), Ok(()));
    assert_eq!(steps.due(), None);
    assert!(steps.finished());
    assert_eq!(steps.settle(Err(3u8)), Err(3));
    assert!(steps.finished());
}

#[test]
fn a_step_that_fails_ends_the_steps() {
    let mut steps = Steps::new(vec!["first", "second", "third"]);
    assert_eq!(steps.settle(Ok::<(), u8>(())), Ok(()));
    assert_eq!(steps.settle(Err(7u8)), Err(7));
    assert_eq!(steps.due(), None);
    assert!(!steps.finished());
    assert_eq!(steps.settle(Ok::<(), u8>(())), Ok(()));
    assert_eq!(steps.due(), None);
    assert!(!steps.finished());
}

#[test]
fn no_steps_are_finished_at_once() {
    let mut steps: Steps<Request> = Steps::new(vec![]);
    assert_eq!(steps.due(), None);
    assert!(steps.finished());
    assert_eq!(steps.settle(Err(1u8)), Err(1));
    assert!(steps.finished());
}
