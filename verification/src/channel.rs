//! The channel on which relaunches reach the running instance.
//!
//! A secondary launch puts exactly one event on the channel and waits for
//! no answer. The running instance takes the events off one by one, in the
//! order in which they came in, and each event is taken exactly once.

use crate::launch::{LaunchEvent, LaunchEventView};
use vstd::prelude::*;

verus! {

/// The launch events that have come in and are not handled yet, oldest
/// first.
#[derive(Debug)]
pub struct NotificationChannel {
    pending: Vec<LaunchEvent>,
}

impl View for NotificationChannel {
    type V = Seq<LaunchEventView>;

    closed spec fn view(&self) -> Seq<LaunchEventView> {
        self.pending@.map_values(|event: LaunchEvent| event@)
    }
}

impl NotificationChannel {
    /// A channel on which nothing has come in.
    pub fn new() -> (channel: Self)
        ensures
            channel@ == Seq::<LaunchEventView>::empty(),
    {
        let channel = NotificationChannel { pending: Vec::new() };
        assert(channel@ =~= Seq::<LaunchEventView>::empty());
        channel
    }

    /// The number of events that wait to be handled.
    pub fn len(&self) -> (n: usize)
        ensures
            n == self@.len(),
    {
        self.pending.len()
    }

    /// Puts `event` on the channel, behind those that wait already.
    pub fn send(&mut self, event: LaunchEvent)
        ensures
            final(self)@ == old(self)@.push(event@),
    {
        self.pending.push(event);
        assert(self@ =~= old(self)@.push(event@));
    }

    /// Takes the oldest waiting event off the channel, if there is one.
    pub fn receive(&mut self) -> (received: Option<LaunchEvent>)
        ensures
            match received {
                Some(event) => {
                    &&& old(self)@.len() > 0
                    &&& event@ == old(self)@[0]
                    &&& final(self)@ == old(self)@.drop_first()
                },
                None => old(self)@.len() == 0 && final(self)@ == old(self)@,
            },
    {
        if self.pending.len() == 0 {
            None
        } else {
            let event = self.pending.remove(0);
            assert(self@ =~= old(self)@.drop_first());
            Some(event)
        }
    }
}

} // verus!
