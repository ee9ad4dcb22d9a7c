//! The command queue: an ordered handoff of parsed command lines from the
//! input side to the simulation.
//!
//! The consumer never blocks: `try_pop` either yields the oldest entry,
//! reports that nothing is there yet, or reports that the producer has
//! closed the queue for good — a condition the caller must treat as final,
//! not as an error of any one command. Entries still queued when the
//! producer closes are drained before `Disconnected` is reported.

use vstd::prelude::*;
use crate::json::JsonItem;

verus! {

/// What `try_pop` found.
pub enum PopOutcome {
    /// The oldest queued line: the fields of its JSON object, or `None`
    /// if the line was not a JSON object.
    Popped(Option<Vec<(String, JsonItem)>>),
    /// Nothing queued right now; the producer may still send more.
    Empty,
    /// Nothing queued and the producer is gone for good.
    Disconnected,
}

/// A first-in, first-out queue of parsed command lines, with a mark for a
/// producer that has permanently finished.
pub struct CommandQueue {
    pub items: Vec<Option<Vec<(String, JsonItem)>>>,
    pub closed: bool,
}

impl CommandQueue {
    /// An open, empty queue.
    pub fn new() -> (q: CommandQueue)
        ensures
            q.items@.len() == 0,
            !q.closed,
    {
        CommandQueue { items: Vec::new(), closed: false }
    }

    /// Appends one parsed line at the back.
    pub fn push(&mut self, msg: Option<Vec<(String, JsonItem)>>)
        ensures
            final(self).items@ == old(self).items@.push(msg),
            final(self).closed == old(self).closed,
    {
        self.items.push(msg);
    }

    /// Marks the producer as permanently finished. Entries already queued
    /// stay and will still be popped.
    pub fn close(&mut self)
        ensures
            final(self).items@ == old(self).items@,
            final(self).closed,
    {
        self.closed = true;
    }

    /// Takes the oldest entry if there is one; otherwise tells empty and
    /// disconnected apart. Never blocks.
    pub fn try_pop(&mut self) -> (r: PopOutcome)
        ensures
            old(self).items@.len() > 0 ==> r == PopOutcome::Popped(old(self).items@[0])
                && final(self).items@ == old(self).items@.drop_first(),
            old(self).items@.len() == 0 ==> *final(self) == *old(self) && r == (
            if old(self).closed {
                PopOutcome::Disconnected
            } else {
                PopOutcome::Empty
            }),
            final(self).closed == old(self).closed,
    {
        if self.items.len() > 0 {
            let msg = self.items.remove(0);
            proof {
                assert(old(self).items@.subrange(1, old(self).items@.len() as int) =~= old(
                    self,
                ).items@.drop_first());
            }
            PopOutcome::Popped(msg)
        } else if self.closed {
            PopOutcome::Disconnected
        } else {
            PopOutcome::Empty
        }
    }
}

} // verus!
