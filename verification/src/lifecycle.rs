//! The life cycle of a disk handle, as a state machine over what the native
//! layer reports.
//!
//! A handle starts without a native resource. A successful open acquires one;
//! the attribute read that follows makes the handle usable or dooms it; from
//! then on replies come and go without touching the resource, until the handle
//! is closed and the resource is freed.

use vstd::prelude::*;

verus! {

/// Where a handle stands in its life.
#[derive(Clone, Copy, Debug, PartialEq, Eq, Structural)]
pub enum Phase {
    /// Nothing has been opened: there is no native resource.
    Uninitialized,
    /// The device was opened and its resource is held, but its attribute data
    /// has not been read yet.
    Opened,
    /// The resource is held and the attribute data was read: every operation
    /// is valid.
    Open,
    /// The resource is held, but the first attribute read failed: the handle
    /// can only be closed.
    Failed,
    /// There is no resource (any more). No operation is valid.
    Closed,
}

/// What can happen to a handle.
#[derive(Clone, Copy, Debug, PartialEq, Eq, Structural)]
pub enum Event {
    /// The native open returned.
    Open { ok: bool },
    /// The native attribute read returned.
    Read { ok: bool },
    /// Any other native call on the resource returned.
    Call { ok: bool },
    /// The handle is given up.
    Close,
}

impl Phase {
    /// Whether a handle in this phase holds a native resource.
    pub open spec fn holds_resource(self) -> bool {
        self is Opened || self is Open || self is Failed
    }

    /// Whether a handle in this phase may take the reply to an attribute read.
    pub open spec fn can_read(self) -> bool {
        self is Opened || self is Open
    }

    /// The phase that follows an event. An event that has no meaning in a
    /// phase leaves it as it is.
    pub open spec fn step(self, event: Event) -> Phase {
        match (self, event) {
            (Phase::Uninitialized, Event::Open { ok }) => if ok {
                Phase::Opened
            } else {
                Phase::Closed
            },
            (Phase::Opened, Event::Read { ok }) => if ok {
                Phase::Open
            } else {
                Phase::Failed
            },
            (_, Event::Close) => Phase::Closed,
            _ => self,
        }
    }

    /// Whether the event acquires a native resource.
    pub open spec fn acquires(self, event: Event) -> bool {
        self is Uninitialized && event == (Event::Open { ok: true })
    }

    /// Whether the event makes the handle order the release of its resource.
    pub open spec fn frees(self, event: Event) -> bool {
        event is Close && self.holds_resource()
    }

    /// The phase after a sequence of events.
    pub open spec fn run(self, events: Seq<Event>) -> Phase
        decreases events.len(),
    {
        if events.len() == 0 {
            self
        } else {
            self.run(events.drop_last()).step(events.last())
        }
    }

    /// How many resources a sequence of events acquires.
    pub open spec fn acquisitions(self, events: Seq<Event>) -> nat
        decreases events.len(),
    {
        if events.len() == 0 {
            0
        } else {
            let before = self.run(events.drop_last());
            let now: nat = if before.acquires(events.last()) {
                1
            } else {
                0
            };
            self.acquisitions(events.drop_last()) + now
        }
    }

    /// How many releases a sequence of events orders.
    pub open spec fn releases(self, events: Seq<Event>) -> nat
        decreases events.len(),
    {
        if events.len() == 0 {
            0
        } else {
            let before = self.run(events.drop_last());
            let now: nat = if before.frees(events.last()) {
                1
            } else {
                0
            };
            self.releases(events.drop_last()) + now
        }
    }
}

impl Phase {
    /// Whether a handle in this phase holds a native resource.
    pub fn has_resource(&self) -> (b: bool)
        ensures
            b == self.holds_resource(),
    {
        match self {
            Phase::Opened | Phase::Open | Phase::Failed => true,
            Phase::Uninitialized | Phase::Closed => false,
        }
    }

    /// Takes one event: returns the phase that follows and whether the
    /// native resource is to be freed now.
    pub fn advance(self, event: Event) -> (r: (Phase, bool))
        ensures
            r.0 == self.step(event),
            r.1 == self.frees(event),
    {
        match event {
            Event::Open { ok } => match self {
                Phase::Uninitialized => if ok {
                    (Phase::Opened, false)
                } else {
                    (Phase::Closed, false)
                },
                _ => (self, false),
            },
            Event::Read { ok } => match self {
                Phase::Opened => if ok {
                    (Phase::Open, false)
                } else {
                    (Phase::Failed, false)
                },
                _ => (self, false),
            },
            Event::Call { ok: _ } => (self, false),
            Event::Close => (Phase::Closed, self.has_resource()),
        }
    }
}

/// A closed handle stays closed, whatever is reported to it.
pub proof fn lemma_closed_is_terminal(events: Seq<Event>)
    ensures
        Phase::Closed.run(events) is Closed,
        Phase::Closed.acquisitions(events) == 0,
        Phase::Closed.releases(events) == 0,
    decreases events.len(),
{
    if events.len() > 0 {
        lemma_closed_is_terminal(events.drop_last());
    }
}

/// A failed call takes nothing from an open handle: it stays open and keeps
/// its resource, whether the call was an attribute read or any other.
pub proof fn lemma_failure_keeps_open_handle(event: Event)
    requires
        event == (Event::Read { ok: false }) || event == (Event::Call { ok: false }),
    ensures
        Phase::Open.step(event) is Open,
        !Phase::Open.frees(event),
{
}

/// The resource of a handle is released exactly once. Over every sequence of
/// events that a new handle can meet, in whatever order and with whatever
/// failures: at most one resource is acquired, a release is ordered only for
/// a resource that was acquired, the resource is still held exactly when it
/// was acquired and not released, and once the handle is closed every
/// acquired resource has been released.
pub proof fn lemma_released_exactly_once(events: Seq<Event>)
    ensures
        Phase::Uninitialized.acquisitions(events) <= 1,
        Phase::Uninitialized.releases(events) <= Phase::Uninitialized.acquisitions(events),
        Phase::Uninitialized.run(events).holds_resource() <==> Phase::Uninitialized.releases(
            events,
        ) < Phase::Uninitialized.acquisitions(events),
        Phase::Uninitialized.run(events) is Closed ==> Phase::Uninitialized.releases(events)
            == Phase::Uninitialized.acquisitions(events),
        Phase::Uninitialized.run(events) is Uninitialized ==> Phase::Uninitialized.acquisitions(
            events,
        ) == 0,
    decreases events.len(),
{
    if events.len() > 0 {
        lemma_released_exactly_once(events.drop_last());
    }
}

/// After a successful open there is one resource, and it is released once:
/// not before the handle is closed, and not again after.
pub proof fn lemma_opened_handle_releases_once(events: Seq<Event>)
    requires
        events.len() > 0,
        events.first() == (Event::Open { ok: true }),
    ensures
        Phase::Uninitialized.acquisitions(events) == 1,
        Phase::Uninitialized.run(events).holds_resource() <==> Phase::Uninitialized.releases(
            events,
        ) == 0,
        Phase::Uninitialized.run(events) is Closed <==> Phase::Uninitialized.releases(events)
            == 1,
    decreases events.len(),
{
    lemma_released_exactly_once(events);
    if events.len() > 1 {
        assert(events.drop_last().first() == events.first());
        lemma_opened_handle_releases_once(events.drop_last());
    } else {
        let none = events.drop_last();
        assert(none.len() == 0);
        assert(Phase::Uninitialized.run(none) is Uninitialized);
        assert(Phase::Uninitialized.acquisitions(none) == 0);
        assert(Phase::Uninitialized.releases(none) == 0);
    }
}

/// A failed open leaves nothing to release: the handle is closed without a
/// resource, and nothing that follows orders a release.
pub proof fn lemma_failed_open_releases_nothing(events: Seq<Event>)
    requires
        events.len() > 0,
        events.first() == (Event::Open { ok: false }),
    ensures
        Phase::Uninitialized.acquisitions(events) == 0,
        Phase::Uninitialized.releases(events) == 0,
        Phase::Uninitialized.run(events) is Closed,
    decreases events.len(),
{
    if events.len() > 1 {
        assert(events.drop_last().first() == events.first());
        lemma_failed_open_releases_nothing(events.drop_last());
    } else {
        let none = events.drop_last();
        assert(none.len() == 0);
        assert(Phase::Uninitialized.run(none) is Uninitialized);
        assert(Phase::Uninitialized.acquisitions(none) == 0);
        assert(Phase::Uninitialized.releases(none) == 0);
    }
}

} // verus!
