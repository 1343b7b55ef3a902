use vstd::prelude::*;
use crate::event::{Event, models};
use crate::model::{SourceModel, inv, buffer_step, batch_step};
use std::path::Path;
use inotify::wrapper::INotify;

verus! {

/// An identifier of one active watch inside a session: returned by
/// `add_watch`, taken by `rm_watch`, compared by identity.
pub type Watch = i32;

/// A kernel or reactor failure, as the raw OS error code when one exists.
#[derive(Clone, Copy, Debug, PartialEq, Eq)]
pub struct StreamError {
    pub code: Option<i32>,
}

#[verifier::external_type_specification]
#[verifier::external_body]
pub struct ExINotify(INotify);

/// Relies on inotify::wrapper::INotify::init_with_flags: opens a fresh
/// inotify session; the crate ORs IN_NONBLOCK in, so the descriptor never
/// blocks a read. Success depends on the kernel, so nothing is promised.
#[verifier::external_body]
fn sys_init_with_flags(flags: i32) -> (r: Result<INotify, StreamError>) {
    INotify::init_with_flags(flags).map_err(|e| StreamError { code: e.raw_os_error() })
}

/// Relies on inotify::wrapper::INotify::add_watch: registers (path, mask)
/// with the session and returns the watch descriptor; fails when the path is
/// inaccessible, holds an interior NUL byte, or the mask is invalid. Touches
/// only the kernel's watch table, never the session value itself.
#[verifier::external_body]
fn sys_add_watch(ino: &INotify, path: &str, mask: u32) -> (r: Result<Watch, StreamError>) {
    ino.add_watch(Path::new(path), mask).map_err(|e| StreamError { code: e.raw_os_error() })
}

/// Relies on inotify::wrapper::INotify::rm_watch: removes the watch; fails
/// with the kernel's error when the descriptor is unknown to this session.
/// inotify_rm_watch returns 0 or -1, so the crate's arm that panics on any
/// other return is unreachable.
#[verifier::external_body]
fn sys_rm_watch(ino: &INotify, watch: Watch) -> (r: Result<(), StreamError>) {
    ino.rm_watch(watch).map_err(|e| StreamError { code: e.raw_os_error() })
}

/// Relies on inotify::wrapper::INotify::available_events: reads every event
/// now queued on the descriptor in one call, in kernel order; a would-block
/// condition yields an empty slice, any other read failure an error. A read
/// of an inotify descriptor never returns 0 bytes, so the crate's arm that
/// panics there is unreachable. Entry names are carried over as strings.
#[verifier::external_body]
fn sys_read_available(ino: &mut INotify) -> (r: Result<Vec<Event>, StreamError>) {
    match ino.available_events() {
        Ok(events) => Ok(
            events
                .iter()
                .map(|e| Event {
                    wd: e.wd,
                    mask: e.mask,
                    cookie: e.cookie,
                    name: e.name.to_string_lossy().into_owned(),
                })
                .collect(),
        ),
        Err(e) => Err(StreamError { code: e.raw_os_error() }),
    }
}

/// Relies on inotify::wrapper::INotify::close: closes the descriptor and
/// marks the handle so that its drop will not close it a second time.
#[verifier::external_body]
fn sys_close(ino: INotify) -> (r: Result<(), StreamError>) {
    ino.close().map_err(|e| StreamError { code: e.raw_os_error() })
}

/// Relies on the public `fd` field of inotify::wrapper::INotify: the raw
/// descriptor of the session, handed out for reactor registration only.
#[verifier::external_body]
fn sys_raw_fd(ino: &INotify) -> (r: i32) {
    ino.fd
}

/// Outcome of the buffer phase of a poll, the first of the two phases a
/// driver runs: either an already-read event, or an instruction to consult
/// the reactor next.
pub enum BufferPoll {
    /// The next event, straight from the buffer. When `rearm` is true the
    /// delivery emptied the buffer and the source has re-armed read
    /// interest: the driver must tell its reactor so before suspending.
    Ready { event: Event, rearm: bool },
    /// Nothing is buffered; the driver must ask the reactor for the
    /// descriptor's readiness and hand the answer to the kernel phase.
    Empty,
}

/// Outcome of the kernel phase of a poll.
pub enum SourcePoll {
    /// The next event, straight from the kernel. When `rearm` is true the
    /// read yielded exactly this event and read interest has been re-armed;
    /// the driver must tell its reactor so before suspending.
    Ready { event: Event, rearm: bool },
    /// No event yet. Read interest has always been re-armed on this path:
    /// the driver must tell its reactor so, then park; a wake-up is owed
    /// when the descriptor next turns readable.
    NotReady,
}

/// An inotify session shaped as a pull-based event stream: a non-blocking
/// descriptor, the events already read but not yet delivered, and whether
/// the reactor holds an armed read interest for the descriptor.
pub struct AsyncINotify {
    inner: INotify,
    pending: Vec<Event>,
    registered: bool,
}

impl View for AsyncINotify {
    type V = SourceModel;

    closed spec fn view(&self) -> SourceModel {
        SourceModel { pending: models(self.pending@), registered: self.registered }
    }
}

impl AsyncINotify {
    /// Open a session with default flags and register it for read interest.
    pub fn init() -> (r: Result<AsyncINotify, StreamError>)
        ensures
            r matches Ok(s) ==> s@.pending.len() == 0 && s@.registered,
    {
        AsyncINotify::init_with_flags(0)
    }

    /// Open a session with the given creation flags (`IN_NONBLOCK`,
    /// `IN_CLOEXEC`; non-blocking is established either way) and register it
    /// for read interest. The driver that polls this source must register
    /// the descriptor (`raw_fd`) with its reactor upon construction.
    pub fn init_with_flags(flags: i32) -> (r: Result<AsyncINotify, StreamError>)
        ensures
            r matches Ok(s) ==> s@.pending.len() == 0 && s@.registered,
    {
        match sys_init_with_flags(flags) {
            Ok(ino) => Ok(AsyncINotify { inner: ino, pending: Vec::new(), registered: true }),
            Err(e) => Err(e),
        }
    }

    /// The session's raw descriptor, for reactor registration only; no other
    /// party may read from it.
    pub fn raw_fd(&self) -> i32 {
        sys_raw_fd(&self.inner)
    }

    /// Monitor `path` for the event kinds in `mask`. Delegates to the
    /// kernel; takes the source immutably, so neither success nor failure
    /// can alter the stream state (`pending`, `registered`).
    pub fn add_watch(&self, path: &str, mask: u32) -> (r: Result<Watch, StreamError>) {
        sys_add_watch(&self.inner, path, mask)
    }

    /// Stop monitoring the watch `watch`. Delegates to the kernel; takes the
    /// source immutably, so neither success nor failure can alter the stream
    /// state.
    pub fn rm_watch(&self, watch: Watch) -> (r: Result<(), StreamError>) {
        sys_rm_watch(&self.inner, watch)
    }

    /// Tear the source down: consume it and close the descriptor. Taking
    /// `self` by value makes a second call impossible; dropping without
    /// calling this performs the same close, exactly once, inside the
    /// session handle's own drop.
    pub fn close(self) -> (r: Result<(), StreamError>) {
        sys_close(self.inner)
    }

    /// How many already-read events wait in the buffer.
    pub fn pending_len(&self) -> (r: usize)
        ensures
            r == self@.pending.len(),
    {
        self.pending.len()
    }

    /// Whether the reactor holds an armed read interest for the descriptor.
    pub fn is_registered(&self) -> (r: bool)
        ensures
            r == self@.registered,
    {
        self.registered
    }

    /// The buffer phase of a poll. A non-empty buffer yields its head — in
    /// kernel order — and, exactly when that delivery empties the buffer,
    /// re-arms read interest; an empty buffer changes nothing and sends the
    /// driver on to the reactor. This phase never answers "not ready", so
    /// it owes no wake-up.
    pub fn poll_buffer(&mut self) -> (r: BufferPoll)
        ensures
            old(self)@.pending.len() == 0 ==> (r matches BufferPoll::Empty) && final(self)@
                == old(self)@,
            old(self)@.pending.len() > 0 ==> (r matches BufferPoll::Ready { event, rearm }
                && event@ == old(self)@.pending[0] && rearm == (old(self)@.pending.len() == 1)
                && final(self)@ == buffer_step(old(self)@)),
            inv(old(self)@) ==> inv(final(self)@),
    {
        if self.pending.len() > 0 {
            let rearm = self.pending.len() == 1;
            let event = self.pending.remove(0);
            if rearm {
                self.registered = true;
            }
            proof {
                assert(self@.pending =~= buffer_step(old(self)@).pending);
                assert(self@ =~= buffer_step(old(self)@));
            }
            BufferPoll::Ready { event, rearm }
        } else {
            proof {
                assert(self@ =~= old(self)@);
            }
            BufferPoll::Empty
        }
    }

    /// The tail of the kernel phase: fold one batch, read whole from the
    /// kernel, into a source whose buffer is empty. An empty batch (a
    /// spurious readiness) only re-arms and leaves no buffered state; a
    /// batch of one is delivered at once with a re-arm; a longer batch has
    /// its head delivered and its tail buffered in kernel order, with no
    /// re-arm, since the consumer is expected to poll again without a
    /// wake-up.
    pub fn accept_batch(&mut self, events: Vec<Event>) -> (r: SourcePoll)
        requires
            old(self)@.pending.len() == 0,
        ensures
            final(self)@ == batch_step(old(self)@, models(events@)),
            events@.len() == 0 ==> (r matches SourcePoll::NotReady),
            events@.len() > 0 ==> (r matches SourcePoll::Ready { event, rearm }
                && event@ == events@[0]@ && rearm == (events@.len() == 1)),
            inv(final(self)@),
            (r matches SourcePoll::NotReady) ==> final(self)@.registered,
    {
        if events.len() == 0 {
            self.registered = true;
            proof {
                assert(self@ =~= batch_step(old(self)@, models(events@)));
            }
            SourcePoll::NotReady
        } else {
            let mut rest = events;
            let event = rest.remove(0);
            let rearm = rest.len() == 0;
            self.registered = rearm;
            self.pending = rest;
            proof {
                assert(self@.pending =~= batch_step(old(self)@, models(events@)).pending);
                assert(self@ =~= batch_step(old(self)@, models(events@)));
            }
            SourcePoll::Ready { event, rearm }
        }
    }

    /// The kernel phase of a poll, entered once the buffer phase came up
    /// empty: given the reactor's readiness level for the descriptor, park
    /// or drain. A not-ready level re-arms and parks without touching the
    /// kernel; a ready level reads every available event in one call and
    /// folds the batch in as `accept_batch` states; a read failure is
    /// surfaced unchanged, with nothing buffered, and the consumer may poll
    /// again. On every "not ready" answer read interest stands re-armed.
    pub fn poll_readable(&mut self, ready: bool) -> (r: Result<SourcePoll, StreamError>)
        requires
            old(self)@.pending.len() == 0,
        ensures
            !ready ==> (r matches Ok(p) && p matches SourcePoll::NotReady) && final(self)@
                == (SourceModel { registered: true, ..old(self)@ }),
            (match r {
                Ok(p) => match p {
                    SourcePoll::NotReady => final(self)@.pending.len() == 0,
                    SourcePoll::Ready { event: _, rearm } => rearm == (final(self)@.pending.len()
                        == 0) && final(self)@.registered == rearm,
                },
                Err(_) => ready && final(self)@.pending.len() == 0 && !final(self)@.registered,
            }),
            (r matches Ok(p) && p matches SourcePoll::NotReady) ==> final(self)@.registered,
            inv(final(self)@),
    {
        if !ready {
            self.registered = true;
            proof {
                assert(self@ =~= (SourceModel { registered: true, ..old(self)@ }));
            }
            return Ok(SourcePoll::NotReady);
        }
        match sys_read_available(&mut self.inner) {
            Ok(events) => Ok(self.accept_batch(events)),
            Err(e) => {
                self.registered = false;
                Err(e)
            },
        }
    }
}

} // verus!
