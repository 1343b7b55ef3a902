use vstd::prelude::*;

verus! {

// Event kind bits, as the kernel ABI defines them. A watch mask is a union
// of these; an event's mask holds the kinds that fired plus status bits
// such as `IN_ISDIR`.
pub const IN_ACCESS: u32 = 0x0000_0001;
pub const IN_MODIFY: u32 = 0x0000_0002;
pub const IN_ATTRIB: u32 = 0x0000_0004;
pub const IN_CLOSE_WRITE: u32 = 0x0000_0008;
pub const IN_CLOSE_NOWRITE: u32 = 0x0000_0010;
pub const IN_OPEN: u32 = 0x0000_0020;
pub const IN_MOVED_FROM: u32 = 0x0000_0040;
pub const IN_MOVED_TO: u32 = 0x0000_0080;
pub const IN_CREATE: u32 = 0x0000_0100;
pub const IN_DELETE: u32 = 0x0000_0200;
pub const IN_DELETE_SELF: u32 = 0x0000_0400;
pub const IN_MOVE_SELF: u32 = 0x0000_0800;
pub const IN_MOVE: u32 = IN_MOVED_FROM | IN_MOVED_TO;
pub const IN_CLOSE: u32 = IN_CLOSE_WRITE | IN_CLOSE_NOWRITE;
pub const IN_ALL_EVENTS: u32 = IN_ACCESS | IN_MODIFY | IN_ATTRIB | IN_CLOSE_WRITE
    | IN_CLOSE_NOWRITE | IN_OPEN | IN_MOVED_FROM | IN_MOVED_TO | IN_CREATE | IN_DELETE
    | IN_DELETE_SELF | IN_MOVE_SELF;
pub const IN_UNMOUNT: u32 = 0x0000_2000;
pub const IN_Q_OVERFLOW: u32 = 0x0000_4000;
pub const IN_IGNORED: u32 = 0x0000_8000;
pub const IN_ISDIR: u32 = 0x4000_0000;

// Options that go into a watch mask rather than out of an event.
pub const IN_ONLYDIR: u32 = 0x0100_0000;
pub const IN_DONT_FOLLOW: u32 = 0x0200_0000;
pub const IN_EXCL_UNLINK: u32 = 0x0400_0000;
pub const IN_MASK_ADD: u32 = 0x2000_0000;
pub const IN_ONESHOT: u32 = 0x8000_0000;

// Flags for the session constructor, for the `flags` argument of
// `AsyncINotify::init_with_flags`.
pub const IN_CLOEXEC: i32 = 0o2000000;
pub const IN_NONBLOCK: i32 = 0o4000;

/// One filesystem event, as read from the kernel: the watch it fired on,
/// the kind bits, a cookie pairing the two halves of a rename, and the name
/// of the affected entry (empty when the watched object itself is meant).
///
/// Events are plain values: they stay usable after the source that produced
/// them is gone.
#[derive(Clone, Debug)]
pub struct Event {
    pub wd: i32,
    pub mask: u32,
    pub cookie: u32,
    pub name: String,
}

/// The mathematical shadow of an `Event`.
pub ghost struct EventModel {
    pub wd: i32,
    pub mask: u32,
    pub cookie: u32,
    pub name: Seq<char>,
}

impl View for Event {
    type V = EventModel;

    open spec fn view(&self) -> EventModel {
        EventModel { wd: self.wd, mask: self.mask, cookie: self.cookie, name: self.name@ }
    }
}

/// The models of a sequence of events, element by element.
pub open spec fn models(s: Seq<Event>) -> Seq<EventModel> {
    s.map(|i: int, e: Event| e@)
}

/// Whether `mask` has at least one of `bits` set.
pub open spec fn has_bits(mask: u32, bits: u32) -> bool {
    mask & bits != 0
}

impl Event {
    pub fn is_access(&self) -> (r: bool)
        ensures
            r == has_bits(self.mask, IN_ACCESS),
    {
        self.mask & IN_ACCESS > 0
    }

    pub fn is_modify(&self) -> (r: bool)
        ensures
            r == has_bits(self.mask, IN_MODIFY),
    {
        self.mask & IN_MODIFY > 0
    }

    pub fn is_attrib(&self) -> (r: bool)
        ensures
            r == has_bits(self.mask, IN_ATTRIB),
    {
        self.mask & IN_ATTRIB > 0
    }

    pub fn is_close_write(&self) -> (r: bool)
        ensures
            r == has_bits(self.mask, IN_CLOSE_WRITE),
    {
        self.mask & IN_CLOSE_WRITE > 0
    }

    pub fn is_close_nowrite(&self) -> (r: bool)
        ensures
            r == has_bits(self.mask, IN_CLOSE_NOWRITE),
    {
        self.mask & IN_CLOSE_NOWRITE > 0
    }

    pub fn is_open(&self) -> (r: bool)
        ensures
            r == has_bits(self.mask, IN_OPEN),
    {
        self.mask & IN_OPEN > 0
    }

    pub fn is_moved_from(&self) -> (r: bool)
        ensures
            r == has_bits(self.mask, IN_MOVED_FROM),
    {
        self.mask & IN_MOVED_FROM > 0
    }

    pub fn is_moved_to(&self) -> (r: bool)
        ensures
            r == has_bits(self.mask, IN_MOVED_TO),
    {
        self.mask & IN_MOVED_TO > 0
    }

    pub fn is_create(&self) -> (r: bool)
        ensures
            r == has_bits(self.mask, IN_CREATE),
    {
        self.mask & IN_CREATE > 0
    }

    pub fn is_delete(&self) -> (r: bool)
        ensures
            r == has_bits(self.mask, IN_DELETE),
    {
        self.mask & IN_DELETE > 0
    }

    pub fn is_delete_self(&self) -> (r: bool)
        ensures
            r == has_bits(self.mask, IN_DELETE_SELF),
    {
        self.mask & IN_DELETE_SELF > 0
    }

    pub fn is_move_self(&self) -> (r: bool)
        ensures
            r == has_bits(self.mask, IN_MOVE_SELF),
    {
        self.mask & IN_MOVE_SELF > 0
    }

    pub fn is_move(&self) -> (r: bool)
        ensures
            r == has_bits(self.mask, IN_MOVE),
    {
        self.mask & IN_MOVE > 0
    }

    pub fn is_close(&self) -> (r: bool)
        ensures
            r == has_bits(self.mask, IN_CLOSE),
    {
        self.mask & IN_CLOSE > 0
    }

    pub fn is_dir(&self) -> (r: bool)
        ensures
            r == has_bits(self.mask, IN_ISDIR),
    {
        self.mask & IN_ISDIR > 0
    }

    pub fn is_unmount(&self) -> (r: bool)
        ensures
            r == has_bits(self.mask, IN_UNMOUNT),
    {
        self.mask & IN_UNMOUNT > 0
    }

    pub fn is_queue_overflow(&self) -> (r: bool)
        ensures
            r == has_bits(self.mask, IN_Q_OVERFLOW),
    {
        self.mask & IN_Q_OVERFLOW > 0
    }

    pub fn is_ignored(&self) -> (r: bool)
        ensures
            r == has_bits(self.mask, IN_IGNORED),
    {
        self.mask & IN_IGNORED > 0
    }
}

} // verus!
