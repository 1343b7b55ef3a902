//! A pull-based, reactor-friendly view of Linux's inotify facility.
//!
//! The kernel hands out filesystem events in variable-sized batches on a
//! non-blocking descriptor; a consumer wants one event at a time and must be
//! parked and rewoken when none is available. The bridge between the two is
//! a small state machine over an in-memory buffer of parsed events and a
//! "read interest is armed" flag; this crate states and verifies that
//! machine, and carries the kernel calls behind a thin session handle.

pub mod event;
pub mod model;
pub mod source;

pub use event::Event;
pub use event::EventModel;
pub use event::IN_ACCESS;
pub use event::IN_MODIFY;
pub use event::IN_ATTRIB;
pub use event::IN_CLOSE_WRITE;
pub use event::IN_CLOSE_NOWRITE;
pub use event::IN_OPEN;
pub use event::IN_MOVED_FROM;
pub use event::IN_MOVED_TO;
pub use event::IN_CREATE;
pub use event::IN_DELETE;
pub use event::IN_DELETE_SELF;
pub use event::IN_MOVE_SELF;
pub use event::IN_MOVE;
pub use event::IN_CLOSE;
pub use event::IN_ALL_EVENTS;
pub use event::IN_ONLYDIR;
pub use event::IN_DONT_FOLLOW;
pub use event::IN_EXCL_UNLINK;
pub use event::IN_MASK_ADD;
pub use event::IN_ONESHOT;
pub use event::IN_UNMOUNT;
pub use event::IN_Q_OVERFLOW;
pub use event::IN_IGNORED;
pub use event::IN_ISDIR;
pub use event::IN_CLOEXEC;
pub use event::IN_NONBLOCK;
pub use model::SourceModel;
pub use source::AsyncINotify;
pub use source::BufferPoll;
pub use source::SourcePoll;
pub use source::StreamError;
pub use source::Watch;
