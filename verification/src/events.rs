//! Outbound notifications for the embedding host, kept in one FIFO mailbox.

use std::collections::VecDeque;
use vstd::prelude::*;

verus! {

/// Battery level of one device, as reported by the client.
#[derive(Clone, Copy, Debug, PartialEq, Eq, Structural)]
pub struct BatteryInfo {
    pub device_id: u64,
    pub gauge_percent: u8,
    pub is_plugged: bool,
}

/// A notification that the core hands to the host.
#[derive(Clone, Copy, Debug, PartialEq, Eq, Structural)]
pub enum ServerCoreEvent {
    ClientConnected,
    ClientDisconnected,
    Battery(BatteryInfo),
    RequestIDR,
    /// Render latency in nanoseconds.
    GameRenderLatencyFeedback(u64),
    ShutdownPending,
    RestartPending,
}

/// The pending events without those equal to `event`, in the same order.
pub open spec fn without(events: Seq<ServerCoreEvent>, event: ServerCoreEvent) -> Seq<ServerCoreEvent>
    decreases events.len(),
{
    if events.len() == 0 {
        events
    } else if events.last() == event {
        without(events.drop_last(), event)
    } else {
        without(events.drop_last(), event).push(events.last())
    }
}

/// First-in, first-out mailbox of events. Its view lists the pending events,
/// oldest first.
pub struct EventQueue {
    entries: VecDeque<ServerCoreEvent>,
}

impl View for EventQueue {
    type V = Seq<ServerCoreEvent>;

    closed spec fn view(&self) -> Seq<ServerCoreEvent> {
        self.entries@
    }
}

impl EventQueue {
    pub fn new() -> (q: Self)
        ensures
            q@ == Seq::<ServerCoreEvent>::empty(),
    {
        EventQueue { entries: VecDeque::new() }
    }

    /// Appends `event` behind every pending event.
    pub fn push(&mut self, event: ServerCoreEvent)
        ensures
            final(self)@ == old(self)@.push(event),
    {
        self.entries.push_back(event);
    }

    /// Takes the oldest pending event, if there is one.
    pub fn poll(&mut self) -> (event: Option<ServerCoreEvent>)
        ensures
            old(self)@.len() == 0 ==> event.is_none() && final(self)@ == old(self)@,
            old(self)@.len() > 0 ==> event == Some(old(self)@[0]),
            old(self)@.len() > 0 ==> final(self)@ == old(self)@.subrange(1, old(self)@.len() as int),
    {
        self.entries.pop_front()
    }

    /// Withdraws every pending event equal to `event`; the others keep
    /// their order.
    pub fn retract(&mut self, event: ServerCoreEvent)
        ensures
            final(self)@ == without(old(self)@, event),
    {
        let mut kept: VecDeque<ServerCoreEvent> = VecDeque::new();
        let mut i: usize = 0;
        while i < self.entries.len()
            invariant
                self.entries@ == old(self).entries@,
                i <= self.entries@.len(),
                kept@ == without(self.entries@.subrange(0, i as int), event),
            decreases self.entries@.len() - i,
        {
            proof {
                assert(self.entries@.subrange(0, i + 1).drop_last() =~= self.entries@.subrange(
                    0,
                    i as int,
                ));
            }
            let entry = self.entries[i];
            if entry != event {
                kept.push_back(entry);
            }
            i = i + 1;
        }
        proof {
            assert(self.entries@.subrange(0, i as int) =~= self.entries@);
        }
        self.entries = kept;
    }

    pub fn len(&self) -> (n: usize)
        ensures
            n == self@.len(),
    {
        self.entries.len()
    }

    pub fn is_empty(&self) -> (b: bool)
        ensures
            b == (self@.len() == 0),
    {
        self.entries.len() == 0
    }
}

} // verus!
