use polling_utils::ping::iocp::Inner;
use polling_utils::{Error, Event, PollMode};

fn posted() -> Option<Result<(), &'static str>> {
    Some(Ok(()))
}

fn registered(mode: PollMode) -> Inner<u32> {
    let mut inner = Inner::new();
    inner.register(1, Event::readable(0), mode).unwrap();
    inner
}

#[test]
fn new_ping_is_idle() {
    let inner: Inner<u32> = Inner::new();
    assert!(inner.interest.is_none());
    assert_eq!(inner.notified, 0);
    assert_eq!(inner.poller(), None);
}

#[test]
fn edge_modes_are_refused() {
    let mut inner: Inner<u32> = Inner::new();
    assert_eq!(inner.register(1, Event::readable(0), PollMode::Edge), Err(Error::UnsupportedMode));
    assert!(inner.interest.is_none());
    assert_eq!(
        inner.reregister(1, Event::readable(0), PollMode::EdgeOneshot),
        Err(Error::UnsupportedMode)
    );
    assert!(inner.interest.is_none());
    assert_eq!(Error::UnsupportedMode.message(), Some("unsupported polling mode for IOCP"));
}

#[test]
fn a_refused_mode_leaves_the_registration() {
    let mut inner = registered(PollMode::Level);
    assert_eq!(
        inner.reregister(2, Event::writable(5), PollMode::Edge),
        Err(Error::UnsupportedMode)
    );
    assert_eq!(inner.poller(), Some(&1));
    assert_eq!(inner.notify(), Some(Event::readable(0)));
}

#[test]
fn oneshot_and_level_are_taken() {
    let mut inner: Inner<u32> = Inner::new();
    assert_eq!(inner.register(1, Event::readable(0), PollMode::Oneshot), Ok(()));
    assert_eq!(inner.poller(), Some(&1));
    assert_eq!(inner.reregister(2, Event::writable(3), PollMode::Level), Ok(()));
    assert_eq!(inner.poller(), Some(&2));
    let interest = inner.interest.as_ref().unwrap();
    assert_eq!(interest.packet, Event::writable(3));
    assert_eq!(interest.mode, PollMode::Level);
}

#[test]
fn notify_counts_and_asks_for_the_packet() {
    let mut inner = registered(PollMode::Level);
    assert_eq!(inner.notify(), Some(Event::readable(0)));
    assert_eq!(inner.notified, 1);
    assert_eq!(inner.wake(posted()), Ok(()));
    assert_eq!(inner.notify(), Some(Event::readable(0)));
    assert_eq!(inner.notified, 2);
}

#[test]
fn notify_without_registration_counts_and_posts_nothing() {
    let mut inner: Inner<u32> = Inner::new();
    assert_eq!(inner.notify(), None);
    assert_eq!(inner.notified, 1);
}

#[test]
fn oneshot_posts_exactly_once() {
    let mut inner = registered(PollMode::Oneshot);
    assert_eq!(inner.notify(), Some(Event::readable(0)));
    assert_eq!(inner.wake(posted()), Ok(()));
    inner.handle_event(Event::readable(0));
    assert_eq!(inner.notified, 0);

    // Nothing more is posted.
    assert_eq!(inner.notify(), None);
    assert_eq!(inner.wake(posted()), Ok(()));
    assert_eq!(inner.notify(), None);

    // Registered again, it posts once more.
    inner.reregister(1, Event::readable(0), PollMode::Oneshot).unwrap();
    assert_eq!(inner.notify(), Some(Event::readable(0)));
    assert_eq!(inner.wake(posted()), Ok(()));
    assert_eq!(inner.notify(), None);
}

#[test]
fn level_posts_every_time() {
    let mut inner = registered(PollMode::Level);
    for _ in 0..5 {
        assert_eq!(inner.notify(), Some(Event::readable(0)));
        assert_eq!(inner.wake(posted()), Ok(()));
    }
    inner.handle_event(Event::readable(0));
    assert_eq!(inner.notify(), Some(Event::readable(0)));
}

#[test]
fn deregister_silences() {
    let mut inner = registered(PollMode::Level);
    inner.deregister();
    assert_eq!(inner.notify(), None);
    assert_eq!(inner.wake(posted()), Ok(()));
    assert_eq!(inner.notify(), None);
    assert_eq!(inner.poller(), None);
}

#[test]
fn deregister_twice_is_deregister_once() {
    let mut inner = registered(PollMode::Oneshot);
    inner.notify();
    inner.deregister();
    assert!(inner.interest.is_none());
    assert_eq!(inner.notified, 1);
    inner.deregister();
    assert!(inner.interest.is_none());
    assert_eq!(inner.notified, 1);
}

#[test]
fn a_gone_poller_leaves_the_registration() {
    let mut inner = registered(PollMode::Oneshot);
    assert_eq!(inner.notify(), Some(Event::readable(0)));
    assert_eq!(inner.wake(None::<Result<(), &str>>), Ok(()));
    assert_eq!(inner.notify(), Some(Event::readable(0)));
}

#[test]
fn a_refused_packet_leaves_the_registration() {
    let mut inner = registered(PollMode::Oneshot);
    assert_eq!(inner.notify(), Some(Event::readable(0)));
    assert_eq!(inner.wake(Some(Err("refused"))), Err("refused"));
    assert_eq!(inner.notify(), Some(Event::readable(0)));
    assert_eq!(inner.notified, 2);
}

#[test]
fn the_count_does_not_go_below_zero() {
    let mut inner: Inner<u32> = Inner::new();
    inner.handle_event(Event::readable(0));
    assert_eq!(inner.notified, 0);
    inner.notify();
    inner.notify();
    inner.handle_event(Event::readable(0));
    assert_eq!(inner.notified, 1);
    inner.handle_event(Event::readable(0));
    inner.handle_event(Event::readable(0));
    assert_eq!(inner.notified, 0);
}

#[test]
fn the_count_does_not_go_above_the_largest_number() {
    let mut inner: Inner<u32> = Inner { interest: None, notified: usize::MAX - 1 };
    inner.notify();
    assert_eq!(inner.notified, usize::MAX);
    inner.notify();
    assert_eq!(inner.notified, usize::MAX);
    inner.handle_event(Event::readable(0));
    assert_eq!(inner.notified, usize::MAX - 1);
}

#[test]
fn handle_event_keeps_the_registration() {
    let mut inner = registered(PollMode::Level);
    inner.notify();
    inner.handle_event(Event::readable(0));
    assert_eq!(inner.poller(), Some(&1));
    assert_eq!(inner.notify(), Some(Event::readable(0)));
}
