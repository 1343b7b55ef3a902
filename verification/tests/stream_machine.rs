// The poll state machine, driven with concrete kernel batches.

use tokio_inotify::{AsyncINotify, BufferPoll, Event, SourcePoll};
use tokio_inotify::{IN_CREATE, IN_DELETE, IN_Q_OVERFLOW};

fn ev(mask: u32, name: &str) -> Event {
    Event { wd: 1, mask, cookie: 0, name: name.to_string() }
}

#[test]
fn init_gives_empty_armed_source() {
    let s = AsyncINotify::init().unwrap();
    assert_eq!(s.pending_len(), 0);
    assert!(s.is_registered());
}

#[test]
fn empty_batch_is_not_ready_and_rearms() {
    let mut s = AsyncINotify::init().unwrap();
    let out = s.accept_batch(Vec::new());
    assert!(matches!(out, SourcePoll::NotReady));
    assert_eq!(s.pending_len(), 0);
    assert!(s.is_registered());
}

#[test]
fn single_event_batch_delivers_and_rearms() {
    let mut s = AsyncINotify::init().unwrap();
    let out = s.accept_batch(vec![ev(IN_CREATE, "x")]);
    match out {
        SourcePoll::Ready { event, rearm } => {
            assert!(event.is_create());
            assert_eq!(event.name, "x");
            assert!(rearm);
        }
        SourcePoll::NotReady => panic!("a one-event batch must deliver"),
    }
    assert_eq!(s.pending_len(), 0);
    assert!(s.is_registered());
}

#[test]
fn two_event_batch_buffers_tail_and_rearms_on_empty() {
    let mut s = AsyncINotify::init().unwrap();
    let out = s.accept_batch(vec![ev(IN_CREATE, "a"), ev(IN_DELETE, "a")]);
    match out {
        SourcePoll::Ready { event, rearm } => {
            assert!(event.is_create());
            assert_eq!(event.name, "a");
            assert!(!rearm);
        }
        SourcePoll::NotReady => panic!("a two-event batch must deliver"),
    }
    assert_eq!(s.pending_len(), 1);
    assert!(!s.is_registered());

    match s.poll_buffer() {
        BufferPoll::Ready { event, rearm } => {
            assert!(event.is_delete());
            assert_eq!(event.name, "a");
            assert!(rearm);
        }
        BufferPoll::Empty => panic!("one event was buffered"),
    }
    assert_eq!(s.pending_len(), 0);
    assert!(s.is_registered());

    assert!(matches!(s.poll_buffer(), BufferPoll::Empty));
}

#[test]
fn create_then_delete_arrive_in_order() {
    let mut s = AsyncINotify::init().unwrap();
    let out = s.accept_batch(vec![ev(IN_CREATE, "a"), ev(IN_DELETE, "a")]);
    let first = match out {
        SourcePoll::Ready { event, .. } => event,
        SourcePoll::NotReady => panic!("batch must deliver"),
    };
    let second = match s.poll_buffer() {
        BufferPoll::Ready { event, .. } => event,
        BufferPoll::Empty => panic!("tail was buffered"),
    };
    assert_eq!(first.mask, IN_CREATE);
    assert_eq!(first.name, "a");
    assert_eq!(second.mask, IN_DELETE);
    assert_eq!(second.name, "a");
}

#[test]
fn three_in_one_read_come_out_in_kernel_order() {
    let mut s = AsyncINotify::init().unwrap();
    // One kernel batch; no further read may be needed until all three are out.
    let out = s.accept_batch(vec![ev(IN_CREATE, "a"), ev(IN_CREATE, "b"), ev(IN_CREATE, "c")]);
    let mut names: Vec<String> = Vec::new();
    match out {
        SourcePoll::Ready { event, rearm } => {
            assert!(!rearm);
            names.push(event.name);
        }
        SourcePoll::NotReady => panic!("batch must deliver"),
    }
    while let BufferPoll::Ready { event, .. } = s.poll_buffer() {
        names.push(event.name);
    }
    assert_eq!(names, vec!["a".to_string(), "b".to_string(), "c".to_string()]);
    assert_eq!(s.pending_len(), 0);
    assert!(s.is_registered());
}

#[test]
fn not_ready_poll_rearms_then_event_flows() {
    let mut s = AsyncINotify::init().unwrap();
    assert!(matches!(s.poll_buffer(), BufferPoll::Empty));
    let out = s.poll_readable(false).unwrap();
    assert!(matches!(out, SourcePoll::NotReady));
    assert!(s.is_registered());
    assert_eq!(s.pending_len(), 0);

    let out = s.accept_batch(vec![ev(IN_CREATE, "x")]);
    match out {
        SourcePoll::Ready { event, .. } => {
            assert_eq!(event.mask, IN_CREATE);
            assert_eq!(event.name, "x");
        }
        SourcePoll::NotReady => panic!("the created entry must come out"),
    }
}

#[test]
fn spurious_readiness_with_empty_kernel_read_parks() {
    // No watch is registered, so the real kernel read would block; the
    // source must answer "not ready", re-arm, and buffer nothing.
    let mut s = AsyncINotify::init().unwrap();
    assert!(matches!(s.poll_buffer(), BufferPoll::Empty));
    let out = s.poll_readable(true).unwrap();
    assert!(matches!(out, SourcePoll::NotReady));
    assert_eq!(s.pending_len(), 0);
    assert!(s.is_registered());
}

#[test]
fn overflow_event_mid_stream_is_delivered() {
    let mut s = AsyncINotify::init().unwrap();
    let overflow = Event { wd: -1, mask: IN_Q_OVERFLOW, cookie: 0, name: String::new() };
    let out = s.accept_batch(vec![ev(IN_CREATE, "a"), overflow]);
    match out {
        SourcePoll::Ready { event, .. } => assert!(event.is_create()),
        SourcePoll::NotReady => panic!("batch must deliver"),
    }
    match s.poll_buffer() {
        BufferPoll::Ready { event, .. } => {
            assert!(event.is_queue_overflow());
            assert!(!event.is_create());
        }
        BufferPoll::Empty => panic!("the overflow event was buffered"),
    }
}
