use vstd::prelude::*;
use crate::event::Event;

verus! {

/// Pending events in capture order; always drained whole.
pub struct EventQueue {
    events: Vec<Event>,
}

impl View for EventQueue {
    type V = Seq<Event>;

    closed spec fn view(&self) -> Seq<Event> {
        self.events@
    }
}

impl EventQueue {
    pub fn new() -> (r: EventQueue)
        ensures
            r@ == Seq::<Event>::empty(),
    {
        EventQueue { events: Vec::new() }
    }

    pub fn len(&self) -> (r: usize)
        ensures
            r == self@.len(),
    {
        self.events.len()
    }

    pub fn is_empty(&self) -> (r: bool)
        ensures
            r == (self@.len() == 0),
    {
        self.events.len() == 0
    }

    /// Appends `e` and returns the length after the push.
    pub fn push(&mut self, e: Event) -> (r: usize)
        ensures
            final(self)@ == old(self)@.push(e),
            r == final(self)@.len(),
    {
        self.events.push(e);
        self.events.len()
    }

    /// Removes every pending event and returns them in order.
    pub fn drain_all(&mut self) -> (r: Vec<Event>)
        ensures
            r@ == old(self)@,
            final(self)@ == Seq::<Event>::empty(),
    {
        let mut out: Vec<Event> = Vec::new();
        out.append(&mut self.events);
        out
    }
}

} // verus!
