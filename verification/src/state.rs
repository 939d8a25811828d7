//! The admission state of the lock: who holds it, and which writer is next.
//!
//! [`State`] is the four counters that the engine keeps behind its mutex.
//! [`Admission`] is the same record as mathematics; every contract in this
//! crate is written over it. Nothing in this module blocks or synchronises:
//! each method is one instantaneous change, made by whoever holds the mutex.

use vstd::prelude::*;

verus! {

/// Who is waiting to be let in.
#[derive(Clone, Copy, Debug)]
pub enum Waiter {
    /// A reader that wants shared access.
    Reader,
    /// The holder of the given ticket, who wants to claim its turn.
    Ticket(usize),
    /// A writer that has claimed its turn and waits for the readers to leave.
    Writer,
}

/// The admission state as plain numbers.
pub struct Admission {
    /// A writer has claimed the lock and not released it yet.
    pub writer_held: bool,
    /// How many readers hold shared access.
    pub reader_count: nat,
    /// The ticket whose holder is next in line.
    pub next_ticket: nat,
    /// How many tickets have been issued so far.
    pub total_tickets: nat,
}

impl Admission {
    /// The state of a lock that nobody has touched.
    pub open spec fn initial() -> Admission {
        Admission { writer_held: false, reader_count: 0, next_ticket: 0, total_tickets: 0 }
    }

    /// No more turns have been claimed than tickets were issued.
    pub open spec fn wf(self) -> bool {
        self.next_ticket <= self.total_tickets
    }

    /// No reader is inside together with a writer.
    pub open spec fn exclusive(self) -> bool {
        !(self.reader_count > 0 && self.writer_held)
    }

    /// Some reader holds shared access.
    pub open spec fn has_readers(self) -> bool {
        self.reader_count > 0
    }

    /// `ticket` is the one whose turn it is.
    pub open spec fn is_next(self, ticket: usize) -> bool {
        self.next_ticket == ticket
    }

    /// Every ticket issued so far has been claimed.
    pub open spec fn queue_empty(self) -> bool {
        self.next_ticket == self.total_tickets
    }

    /// One more reader.
    pub open spec fn add_reader(self) -> Admission {
        Admission { reader_count: self.reader_count + 1, ..self }
    }

    /// One reader fewer.
    pub open spec fn remove_reader(self) -> Admission {
        Admission { reader_count: (self.reader_count - 1) as nat, ..self }
    }

    /// A writer claims its turn: the line moves on by one and the flag is set.
    pub open spec fn add_writer(self) -> Admission {
        Admission { writer_held: true, next_ticket: self.next_ticket + 1, ..self }
    }

    /// The writer lets go.
    pub open spec fn remove_writer(self) -> Admission {
        Admission { writer_held: false, ..self }
    }

    /// A ticket is handed out. The count stops at `usize::MAX`, the largest
    /// number a ticket can be.
    pub open spec fn take_ticket(self) -> Admission {
        if self.total_tickets < usize::MAX {
            Admission { total_tickets: self.total_tickets + 1, ..self }
        } else {
            self
        }
    }

    /// Whether `who` has to wait in this state.
    ///
    /// * A reader waits while a writer holds the flag, and while the reader
    ///   count is at its largest value.
    /// * A ticket holder waits while a writer holds the flag *and* the ticket
    ///   is not the next one, and while there is no unclaimed ticket at all.
    /// * A writer that has claimed its turn waits while readers remain.
    pub open spec fn must_wait(self, who: Waiter) -> bool {
        match who {
            Waiter::Reader => self.writer_held || self.reader_count >= usize::MAX,
            Waiter::Ticket(ticket) => (self.writer_held && !self.is_next(ticket))
                || self.queue_empty(),
            Waiter::Writer => self.has_readers(),
        }
    }

    /// The state after a reader asked once for admission.
    pub open spec fn try_read(self) -> Admission {
        if self.must_wait(Waiter::Reader) {
            self
        } else {
            self.add_reader()
        }
    }

    /// The state after a reader has left; one that was never counted changes nothing.
    pub open spec fn read_unlock(self) -> Admission {
        if self.has_readers() {
            self.remove_reader()
        } else {
            self
        }
    }

    /// The state after the holder of `ticket` asked once for its turn.
    pub open spec fn claim(self, ticket: usize) -> Admission {
        if self.must_wait(Waiter::Ticket(ticket)) {
            self
        } else {
            self.add_writer()
        }
    }

    /// A writer may enter past the queue: nobody holds the lock, no ticket is
    /// unclaimed, and one more ticket can still be counted.
    pub open spec fn skip_queue_admits(self) -> bool {
        &&& !self.writer_held
        &&& !self.has_readers()
        &&& self.queue_empty()
        &&& self.total_tickets < usize::MAX
    }

    /// The state after a writer tried once to enter past the queue.
    pub open spec fn try_write_skip_queue(self) -> Admission {
        if self.skip_queue_admits() {
            self.take_ticket().add_writer()
        } else {
            self
        }
    }
}

/// The counters behind the lock's mutex.
///
/// Every value of this type satisfies [`Admission::wf`]: the methods below
/// cannot be combined so as to claim more turns than tickets were issued.
pub struct State {
    writer: bool,
    readers: usize,
    next_ticket: usize,
    total_tickets: usize,
}

impl View for State {
    type V = Admission;

    closed spec fn view(&self) -> Admission {
        Admission {
            writer_held: self.writer,
            reader_count: self.readers as nat,
            next_ticket: self.next_ticket as nat,
            total_tickets: self.total_tickets as nat,
        }
    }
}

impl State {
    /// What every value of this type satisfies.
    #[verifier::type_invariant]
    pub open spec fn inv(self) -> bool {
        self@.wf()
    }

    /// A fresh state: no writer, no readers, no ticket issued.
    pub fn new() -> (state: State)
        ensures
            state@ == Admission::initial(),
    {
        State { writer: false, readers: 0, next_ticket: 0, total_tickets: 0 }
    }

    /// How many readers hold shared access.
    pub fn readers(&self) -> (count: usize)
        ensures
            count == self@.reader_count,
    {
        self.readers
    }

    /// The ticket whose holder is next in line. It never runs ahead of the
    /// number of tickets issued.
    pub fn next_ticket(&self) -> (ticket: usize)
        ensures
            ticket == self@.next_ticket,
            self@.wf(),
    {
        proof {
            use_type_invariant(self);
        }
        self.next_ticket
    }

    /// How many tickets have been issued so far.
    pub fn total_tickets(&self) -> (count: usize)
        ensures
            count == self@.total_tickets,
            self@.wf(),
    {
        proof {
            use_type_invariant(self);
        }
        self.total_tickets
    }

    /// Counts one more reader.
    pub fn add_reader(&mut self)
        requires
            old(self)@.reader_count < usize::MAX,
        ensures
            final(self)@ == old(self)@.add_reader(),
            final(self)@.wf(),
    {
        proof {
            use_type_invariant(&*self);
        }
        self.readers = self.readers + 1;
    }

    /// Counts one reader fewer.
    pub fn remove_reader(&mut self)
        requires
            old(self)@.has_readers(),
        ensures
            final(self)@ == old(self)@.remove_reader(),
            final(self)@.wf(),
    {
        proof {
            use_type_invariant(&*self);
        }
        self.readers = self.readers - 1;
    }

    /// Whether any reader holds shared access.
    pub fn has_readers(&self) -> (held: bool)
        ensures
            held == self@.has_readers(),
    {
        self.readers != 0
    }

    /// A writer claims the next turn. There has to be an unclaimed ticket to
    /// claim it with.
    pub fn add_writer(&mut self)
        requires
            !old(self)@.queue_empty(),
        ensures
            final(self)@ == old(self)@.add_writer(),
            final(self)@.wf(),
    {
        proof {
            use_type_invariant(&*self);
        }
        self.next_ticket = self.next_ticket + 1;
        self.writer = true;
    }

    /// The writer lets go of the lock.
    pub fn remove_writer(&mut self)
        ensures
            final(self)@ == old(self)@.remove_writer(),
            final(self)@.wf(),
    {
        proof {
            use_type_invariant(&*self);
        }
        self.writer = false;
    }

    /// Whether a writer has claimed the lock and not released it.
    pub fn has_writer(&self) -> (held: bool)
        ensures
            held == self@.writer_held,
    {
        self.writer
    }

    /// Hands out the next ticket: the number of tickets issued before this call.
    pub fn take_ticket(&mut self) -> (ticket: usize)
        ensures
            ticket == old(self)@.total_tickets,
            final(self)@ == old(self)@.take_ticket(),
            final(self)@.wf(),
    {
        proof {
            use_type_invariant(&*self);
        }
        let ticket: usize = self.total_tickets;
        if self.total_tickets < usize::MAX {
            self.total_tickets = self.total_tickets + 1;
        }
        ticket
    }

    /// Whether `ticket` is the one whose turn it is.
    pub fn is_next(&self, ticket: usize) -> (next: bool)
        ensures
            next == self@.is_next(ticket),
    {
        self.next_ticket == ticket
    }

    /// Whether every ticket issued so far has been claimed.
    pub fn queue_empty(&self) -> (empty: bool)
        ensures
            empty == self@.queue_empty(),
    {
        self.next_ticket == self.total_tickets
    }

    /// Whether `who` has to wait.
    pub fn must_wait(&self, who: Waiter) -> (wait: bool)
        ensures
            wait == self@.must_wait(who),
    {
        match who {
            Waiter::Reader => self.has_writer() || self.readers == usize::MAX,
            Waiter::Ticket(ticket) => (self.has_writer() && !self.is_next(ticket))
                || self.queue_empty(),
            Waiter::Writer => self.has_readers(),
        }
    }

    /// Admits a reader if none has to wait, and says whether it did.
    pub fn try_read(&mut self) -> (admitted: bool)
        ensures
            admitted == !old(self)@.must_wait(Waiter::Reader),
            final(self)@ == old(self)@.try_read(),
            final(self)@.wf(),
    {
        proof {
            use_type_invariant(&*self);
        }
        if self.must_wait(Waiter::Reader) {
            false
        } else {
            self.add_reader();
            true
        }
    }

    /// A reader leaves. Returns whether a writer that has claimed its turn
    /// is now free to go on: the flag is set and the last reader is gone.
    pub fn read_unlock(&mut self) -> (drained: bool)
        ensures
            final(self)@ == old(self)@.read_unlock(),
            drained == (final(self)@.writer_held && !final(self)@.has_readers()),
            final(self)@.wf(),
    {
        proof {
            use_type_invariant(&*self);
        }
        if self.has_readers() {
            self.remove_reader();
        }
        self.has_writer() && !self.has_readers()
    }

    /// Lets a writer in past the queue if the lock is idle and no ticket is
    /// unclaimed, and says whether it did. The writer's ticket is issued and
    /// claimed in the same step.
    pub fn try_write_skip_queue(&mut self) -> (admitted: bool)
        ensures
            admitted == old(self)@.skip_queue_admits(),
            final(self)@ == old(self)@.try_write_skip_queue(),
            final(self)@.wf(),
    {
        proof {
            use_type_invariant(&*self);
        }
        if !self.has_writer() && !self.has_readers() && self.queue_empty()
            && self.total_tickets < usize::MAX {
            self.take_ticket();
            self.add_writer();
            true
        } else {
            false
        }
    }
}

} // verus!
