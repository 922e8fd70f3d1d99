use polling::Poller;
use polling_utils::ping::{eventfd, pipe, Notifier, Ping, Sys, SysNotify, Token};
use polling_utils::{Event, PollMode, Request, Source, Steps};
use rustix::fd::OwnedFd;
use rustix::io::{fcntl_getfd, fcntl_setfd, EventfdFlags, FdFlags};
use std::io;
use std::time::Duration;

fn asked(mut steps: Steps<Request>) -> Vec<Request> {
    let mut requests = vec![];
    while let Some(request) = steps.due().copied() {
        requests.push(request);
        steps.settle(Ok::<(), ()>(())).unwrap();
    }
    requests
}

fn outside_event(event: Event) -> polling::Event {
    polling::Event { key: event.key, readable: event.readable, writable: event.writable }
}

fn outside_mode(mode: PollMode) -> polling::PollMode {
    match mode {
        PollMode::Oneshot => polling::PollMode::Oneshot,
        PollMode::Level => polling::PollMode::Level,
        PollMode::Edge => polling::PollMode::Edge,
        PollMode::EdgeOneshot => polling::PollMode::EdgeOneshot,
    }
}

fn carry_out(
    poller: &Poller,
    ping: &Ping<OwnedFd>,
    mut requests: Steps<Request>,
) -> io::Result<()> {
    while let Some(request) = requests.due().copied() {
        let outcome = match request {
            Request::Add { event, mode } => {
                poller.add_with_mode(ping.readable(), outside_event(event), outside_mode(mode))
            }
            Request::Modify { event, mode } => poller.modify_with_mode(
                ping.readable(),
                outside_event(event),
                outside_mode(mode),
            ),
            Request::Delete => poller.delete(ping.readable()),
            Request::Drain { len } => {
                let mut buffer = vec![0u8; len];
                rustix::io::read(ping.readable(), &mut buffer).map(|_| ()).map_err(io::Error::from)
            }
            Request::Wake => unreachable!(),
            Request::Poll => unreachable!(),
        };
        requests.settle(outcome)?;
    }
    Ok(())
}

fn write_token(notifier: &Notifier<OwnedFd>) -> io::Result<()> {
    let handle = notifier.handle();
    match notifier.notify() {
        Token::Counter(count) => rustix::io::write(handle, &count.to_ne_bytes())?,
        Token::Byte(byte) => rustix::io::write(handle, &[byte])?,
    };
    Ok(())
}

fn open_ping() -> Ping<OwnedFd> {
    let creation = eventfd::Ping::<OwnedFd>::creation();
    let mut flags = EventfdFlags::empty();
    if creation.cloexec {
        flags |= EventfdFlags::CLOEXEC;
    }
    if creation.nonblock {
        flags |= EventfdFlags::NONBLOCK;
    }
    if creation.semaphore {
        flags |= EventfdFlags::SEMAPHORE;
    }
    let efd = rustix::io::eventfd(creation.initial, flags).unwrap();
    Ping::new(Sys::Eventfd(eventfd::Ping::new(efd)))
}

#[test]
fn ping_oneshot() {
    let poller = Poller::new().unwrap();
    let mut ping = open_ping();
    let notifier = ping.notifier();

    // Register the source in the poller.
    let requests = ping.register(Event::readable(0), PollMode::Oneshot);
    carry_out(&poller, &ping, requests).unwrap();

    // No events.
    let mut events = vec![];
    poller.wait(&mut events, Some(Duration::from_millis(100))).unwrap();
    assert!(events.is_empty());

    // Notify.
    write_token(&notifier).unwrap();

    // Wait for the event.
    poller.wait(&mut events, Some(Duration::from_millis(100))).unwrap();
    assert_eq!(events.len(), 1);
    assert_eq!(events[0], outside_event(Event::readable(0)));
    let requests = ping.handle_event(Event::readable(0));
    carry_out(&poller, &ping, requests).unwrap();

    // No more events.
    events.clear();
    poller.wait(&mut events, Some(Duration::from_millis(100))).unwrap();
    assert!(events.is_empty());

    // Re-register and go again.
    let requests = ping.reregister(Event::readable(0), PollMode::Oneshot);
    carry_out(&poller, &ping, requests).unwrap();
    write_token(&notifier).unwrap();
    poller.wait(&mut events, Some(Duration::from_millis(100))).unwrap();
    assert_eq!(events.len(), 1);
    assert_eq!(events[0], outside_event(Event::readable(0)));
    let requests = ping.handle_event(Event::readable(0));
    carry_out(&poller, &ping, requests).unwrap();

    // De-register and go again.
    let requests = ping.deregister();
    carry_out(&poller, &ping, requests).unwrap();
    write_token(&notifier).unwrap();
    events.clear();
    poller.wait(&mut events, Some(Duration::from_millis(100))).unwrap();
    assert!(events.is_empty());
}

fn sample_event() -> Event {
    Event { key: 3, readable: true, writable: false }
}

#[test]
fn eventfd_creation_is_an_empty_semaphore() {
    let creation = eventfd::Ping::<u32>::creation();
    assert_eq!(
        creation,
        eventfd::Creation { initial: 0, cloexec: true, nonblock: true, semaphore: true }
    );
}

#[test]
fn eventfd_notify_writes_the_counter_one() {
    let ping = eventfd::Ping::new(11u32);
    assert_eq!(ping.notify().notify(), Token::Counter(1));
    assert_eq!(Token::Counter(1).len(), 8);
    assert_eq!(*ping.notify().handle(), 11);
}

#[test]
fn eventfd_handle_event_drains_eight_bytes() {
    let mut ping = eventfd::Ping::new(11u32);
    assert_eq!(asked(ping.handle_event(sample_event())), vec![Request::Drain { len: 8 }]);
}

#[test]
fn eventfd_register_cycle() {
    let mut ping = eventfd::Ping::new(11u32);
    assert_eq!(
        asked(ping.register(sample_event(), PollMode::Level)),
        vec![Request::Add { event: sample_event(), mode: PollMode::Level }]
    );
    assert_eq!(
        asked(ping.reregister(sample_event(), PollMode::Edge)),
        vec![Request::Modify { event: sample_event(), mode: PollMode::Edge }]
    );
    assert_eq!(asked(ping.deregister()), vec![Request::Delete]);
    assert_eq!(asked(ping.deregister()), vec![]);
    assert_eq!(*ping.notify().handle(), 11);
}

#[test]
fn pipe_notify_writes_one_zero_byte() {
    let ping = pipe::Ping::new(4u32, 5u32);
    assert_eq!(ping.notify().notify(), Token::Byte(0));
    assert_eq!(Token::Byte(0).len(), 1);
    assert_eq!(*ping.notify().handle(), 5);
    assert_eq!(*ping.reader(), 4);
}

#[test]
fn pipe_handle_event_drains_one_byte() {
    let mut ping = pipe::Ping::new(4u32, 5u32);
    assert_eq!(asked(ping.handle_event(sample_event())), vec![Request::Drain { len: 1 }]);
}

#[test]
fn pipe_register_cycle() {
    let mut ping = pipe::Ping::new(4u32, 5u32);
    assert_eq!(
        asked(ping.register(sample_event(), PollMode::Oneshot)),
        vec![Request::Add { event: sample_event(), mode: PollMode::Oneshot }]
    );
    assert_eq!(
        asked(ping.reregister(sample_event(), PollMode::EdgeOneshot)),
        vec![Request::Modify { event: sample_event(), mode: PollMode::EdgeOneshot }]
    );
    assert_eq!(asked(ping.deregister()), vec![Request::Delete]);
    assert_eq!(asked(ping.deregister()), vec![]);
    assert_eq!(*ping.reader(), 4);
    assert_eq!(*ping.notify().handle(), 5);
}

#[test]
fn ping_watches_the_counter_or_the_reading_end() {
    let on_counter = Ping::new(Sys::Eventfd(eventfd::Ping::new(11u32)));
    assert_eq!(*on_counter.readable(), 11);
    assert_eq!(*on_counter.notifier().handle(), 11);
    let on_pipe = Ping::new(Sys::Pipe(pipe::Ping::new(4u32, 5u32)));
    assert_eq!(*on_pipe.readable(), 4);
    assert_eq!(*on_pipe.notifier().handle(), 5);
}

#[test]
fn notifier_shares_the_handle_of_its_ping() {
    let ping = Ping::new(Sys::Eventfd(eventfd::Ping::new(String::from("counter"))));
    let notifier = ping.notifier();
    let second = notifier.clone();
    assert!(std::ptr::eq(notifier.handle(), ping.readable()));
    assert!(std::ptr::eq(second.handle(), ping.readable()));
    assert!(matches!(second.sys(), SysNotify::Eventfd(_)));
    assert_eq!(second.notify(), Token::Counter(1));
}

#[test]
fn notifier_of_a_pipe_writes_a_byte() {
    let ping = Ping::new(Sys::Pipe(pipe::Ping::new(4u32, 5u32)));
    let notifier = ping.notifier();
    assert!(matches!(notifier.sys(), SysNotify::Pipe(_)));
    assert_eq!(notifier.notify(), Token::Byte(0));
    assert_eq!(notifier.clone().notify(), Token::Byte(0));
}

#[test]
fn ping_notifies_whether_registered_or_not() {
    let mut ping = Ping::new(Sys::Eventfd(eventfd::Ping::new(11u32)));
    let notifier = ping.notifier();
    assert_eq!(notifier.notify(), Token::Counter(1));
    ping.register(sample_event(), PollMode::Level);
    assert_eq!(notifier.notify(), Token::Counter(1));
    assert_eq!(notifier.notify(), Token::Counter(1));
    ping.deregister();
    assert_eq!(notifier.notify(), Token::Counter(1));
}

#[test]
fn ping_handle_event_drains_as_much_as_a_notification_wrote() {
    let mut on_counter = Ping::new(Sys::Eventfd(eventfd::Ping::new(11u32)));
    let written = on_counter.notifier().notify().len();
    assert_eq!(
        asked(on_counter.handle_event(sample_event())),
        vec![Request::Drain { len: written }]
    );
    let mut on_pipe = Ping::new(Sys::Pipe(pipe::Ping::new(4u32, 5u32)));
    let written = on_pipe.notifier().notify().len();
    assert_eq!(asked(on_pipe.handle_event(sample_event())), vec![Request::Drain { len: written }]);
}

#[test]
fn ping_deregister_twice_asks_once() {
    let mut ping = Ping::new(Sys::Pipe(pipe::Ping::new(4u32, 5u32)));
    ping.register(sample_event(), PollMode::Oneshot);
    assert_eq!(asked(ping.deregister()), vec![Request::Delete]);
    assert_eq!(asked(ping.deregister()), vec![]);
    assert_eq!(asked(ping.deregister()), vec![]);
}

#[test]
fn pipe_opens_in_one_call_where_the_system_can() {
    let setup = pipe::Setup::start();
    assert_eq!(setup.call(), Some(pipe::Call::PipeWith { cloexec: true }));
    let setup = setup.advance(pipe::Outcome::Opened);
    assert!(setup.is_ready());
    assert!(!setup.is_failed());
    assert_eq!(setup.call(), None);
}

#[test]
fn pipe_falls_back_to_marking_both_ends() {
    let writer_flags = pipe::FdFlags { cloexec: false, other: 0x40 };
    let reader_flags = pipe::FdFlags { cloexec: false, other: 0 };
    let setup = pipe::Setup::start().advance(pipe::Outcome::Failed);
    assert_eq!(setup.call(), Some(pipe::Call::Pipe));
    let setup = setup.advance(pipe::Outcome::Opened);
    assert_eq!(setup.call(), Some(pipe::Call::GetFlags(pipe::End::Writer)));
    let setup = setup.advance(pipe::Outcome::Flags(writer_flags));
    assert_eq!(
        setup.call(),
        Some(pipe::Call::SetFlags(pipe::End::Writer, pipe::FdFlags { cloexec: true, other: 0x40 }))
    );
    let setup = setup.advance(pipe::Outcome::Marked);
    assert_eq!(setup.call(), Some(pipe::Call::GetFlags(pipe::End::Reader)));
    let setup = setup.advance(pipe::Outcome::Flags(reader_flags));
    assert_eq!(
        setup.call(),
        Some(pipe::Call::SetFlags(pipe::End::Reader, pipe::FdFlags { cloexec: true, other: 0 }))
    );
    assert!(!setup.is_ready());
    let setup = setup.advance(pipe::Outcome::Marked);
    assert!(setup.is_ready());
    assert_eq!(setup.call(), None);
}

#[test]
fn pipe_opening_fails_where_a_later_call_fails() {
    let plain = pipe::Setup::start().advance(pipe::Outcome::Failed);
    assert!(plain.advance(pipe::Outcome::Failed).is_failed());
    let opened = plain.advance(pipe::Outcome::Opened);
    assert!(opened.advance(pipe::Outcome::Failed).is_failed());
    let read = opened.advance(pipe::Outcome::Flags(pipe::FdFlags { cloexec: false, other: 1 }));
    assert!(read.advance(pipe::Outcome::Failed).is_failed());
    let failed = read.advance(pipe::Outcome::Failed);
    assert_eq!(failed.call(), None);
    assert!(failed.advance(pipe::Outcome::Opened).is_failed());
    assert!(!failed.is_ready());
}

#[test]
fn pipe_outcome_that_answers_another_call_is_a_failure() {
    let opened = pipe::Setup::start().advance(pipe::Outcome::Failed).advance(pipe::Outcome::Opened);
    assert_eq!(opened.advance(pipe::Outcome::Marked), pipe::Setup::Failed);
    assert_eq!(opened.advance(pipe::Outcome::Opened), pipe::Setup::Failed);
    assert_eq!(
        pipe::Setup::start().advance(pipe::Outcome::Marked),
        pipe::Setup::Plain
    );
}

#[test]
fn with_cloexec_keeps_the_other_flags() {
    let flags = pipe::FdFlags { cloexec: false, other: 0xff00 };
    assert_eq!(flags.with_cloexec(), pipe::FdFlags { cloexec: true, other: 0xff00 });
    assert_eq!(flags.with_cloexec().with_cloexec(), flags.with_cloexec());
}

#[test]
fn pipe_ping_on_a_real_pipe_reports_and_drains() {
    let poller = Poller::new().unwrap();
    let (reader, writer) = rustix::io::pipe().unwrap();
    let mut ping = Ping::new(Sys::Pipe(pipe::Ping::new(reader, writer)));
    let notifier = ping.notifier();

    let requests = ping.register(Event::readable(7), PollMode::Oneshot);
    carry_out(&poller, &ping, requests).unwrap();
    write_token(&notifier).unwrap();

    let mut events = vec![];
    poller.wait(&mut events, Some(Duration::from_millis(100))).unwrap();
    assert_eq!(events.len(), 1);
    assert_eq!(events[0], outside_event(Event::readable(7)));
    let requests = ping.handle_event(Event::readable(7));
    carry_out(&poller, &ping, requests).unwrap();

    // The pipe is empty again: under level mode nothing is reported.
    let requests = ping.reregister(Event::readable(7), PollMode::Level);
    carry_out(&poller, &ping, requests).unwrap();
    events.clear();
    poller.wait(&mut events, Some(Duration::from_millis(100))).unwrap();
    assert!(events.is_empty());
}

#[test]
fn level_ping_reports_each_of_a_burst() {
    let poller = Poller::new().unwrap();
    if !poller.supports_level() {
        return;
    }
    let mut ping = open_ping();
    let notifier = ping.notifier();
    let requests = ping.register(Event::readable(1), PollMode::Level);
    carry_out(&poller, &ping, requests).unwrap();

    for _ in 0..3 {
        write_token(&notifier).unwrap();
    }
    let mut events = vec![];
    for _ in 0..3 {
        events.clear();
        poller.wait(&mut events, Some(Duration::from_millis(100))).unwrap();
        assert_eq!(events.len(), 1);
        assert_eq!(events[0], outside_event(Event::readable(1)));
        let requests = ping.handle_event(Event::readable(1));
        carry_out(&poller, &ping, requests).unwrap();
    }
    events.clear();
    poller.wait(&mut events, Some(Duration::from_millis(100))).unwrap();
    assert!(events.is_empty());
}

#[test]
fn pipe_is_marked_on_both_ends_where_it_is_opened_plainly() {
    // Go the second way, as on a system that cannot open a pipe with the flag.
    let mut setup = pipe::Setup::start().advance(pipe::Outcome::Failed);
    let mut ends: Option<(OwnedFd, OwnedFd)> = None;
    let mut calls = 0;
    while let Some(call) = setup.call() {
        calls += 1;
        let outcome = match call {
            pipe::Call::PipeWith { .. } => unreachable!(),
            pipe::Call::Pipe => {
                ends = Some(rustix::io::pipe().unwrap());
                pipe::Outcome::Opened
            }
            pipe::Call::GetFlags(end) => {
                let (reader, writer) = ends.as_ref().unwrap();
                let flags = match end {
                    pipe::End::Reader => fcntl_getfd(reader).unwrap(),
                    pipe::End::Writer => fcntl_getfd(writer).unwrap(),
                };
                assert!(!flags.contains(FdFlags::CLOEXEC));
                pipe::Outcome::Flags(pipe::FdFlags {
                    cloexec: flags.contains(FdFlags::CLOEXEC),
                    other: (flags - FdFlags::CLOEXEC).bits() as u32,
                })
            }
            pipe::Call::SetFlags(end, flags) => {
                let mut out = FdFlags::from_bits_truncate(flags.other as _);
                out.set(FdFlags::CLOEXEC, flags.cloexec);
                let (reader, writer) = ends.as_ref().unwrap();
                match end {
                    pipe::End::Reader => fcntl_setfd(reader, out).unwrap(),
                    pipe::End::Writer => fcntl_setfd(writer, out).unwrap(),
                };
                pipe::Outcome::Marked
            }
        };
        setup = setup.advance(outcome);
    }
    assert!(setup.is_ready());
    assert_eq!(calls, 5);
    let (reader, writer) = ends.unwrap();
    assert!(fcntl_getfd(&reader).unwrap().contains(FdFlags::CLOEXEC));
    assert!(fcntl_getfd(&writer).unwrap().contains(FdFlags::CLOEXEC));
}
