//! The synchronisation engine: the admission state behind a mutex, and the
//! two condition variables on which readers and writers wait.

use vstd::prelude::*;
use std::sync::{Condvar, Mutex, MutexGuard};
use crate::protocol::Op;
use crate::state::{Admission, State, Waiter};
use crate::sync::{guarded, made_with, new_mutex, state_mut, wait_while};

verus! {

/// The lock without the data: it admits readers and writers, and lets the
/// writers that wait for another writer in by the order of their tickets.
///
/// Each operation takes the mutex for its own duration only, never across
/// the caller's use of what the lock protects. While it holds the mutex it
/// makes one step of the protocol ([`Op`]) on the admission state, and the
/// assertion in its body says which; the blocking operations wait first, each
/// as a [`Waiter`]. What the state is when a call begins depends on the other
/// threads, so the contracts are those of the steps: see [`State`] and the
/// lemmas of [`crate::protocol`].
pub struct RawQueuedRwLock {
    state: Mutex<State>,
    reader: Condvar,
    writer: Condvar,
}

impl RawQueuedRwLock {
    /// The admission state that the lock was made with.
    pub closed spec fn origin(&self) -> Admission {
        made_with(self.state)
    }

    /// A lock that nobody holds and that has issued no ticket.
    pub fn new() -> (lock: RawQueuedRwLock)
        ensures
            lock.origin() == Admission::initial(),
    {
        RawQueuedRwLock {
            state: new_mutex(State::new()),
            reader: Condvar::new(),
            writer: Condvar::new(),
        }
    }

    /// Takes the mutex. A poisoned mutex is taken all the same: the state
    /// inside is well-formed whatever happened to the thread that held it.
    fn enter(&self) -> (guard: MutexGuard<'_, State>)
        ensures
            guarded(guard).wf(),
    {
        let mut guard = match self.state.lock() {
            Ok(guard) => guard,
            Err(poisoned) => poisoned.into_inner(),
        };
        let state = state_mut(&mut guard);
        proof {
            use_type_invariant(&*state);
        }
        guard
    }

    /// Blocks while a writer holds the lock, then counts the caller as a
    /// reader. Writers that only wait in the queue do not hold a reader back.
    ///
    /// Returns `true` once the caller is counted. Returns `false`, with
    /// nothing changed, only if the mutex was found poisoned while waiting.
    pub fn read(&self) -> bool {
        let guard = self.enter();
        match wait_while(&self.writer, guard, Waiter::Reader) {
            Ok(mut guard) => {
                let ghost before = guarded(guard);
                state_mut(&mut guard).add_reader();
                assert(guarded(guard) == before.step(Op::AdmitReader));
                true
            },
            Err(_) => false,
        }
    }

    /// Counts the caller as a reader if no writer holds the lock, and says
    /// whether it did. Never blocks.
    pub fn try_read(&self) -> bool {
        let mut guard = self.enter();
        let ghost before = guarded(guard);
        let admitted = state_mut(&mut guard).try_read();
        assert(guarded(guard) == before.step(Op::AdmitReader));
        admitted
    }

    /// A reader leaves. If it was the last one and a writer has claimed its
    /// turn, the writer is woken.
    pub fn read_unlock(&self) {
        let mut guard = self.enter();
        let ghost before = guarded(guard);
        let drained = state_mut(&mut guard).read_unlock();
        assert(guarded(guard) == before.step(Op::ReleaseReader));
        if drained {
            self.reader.notify_all();
        }
    }

    /// Issues a ticket. Never blocks.
    ///
    /// Whoever takes a ticket has to redeem it with [`write`](Self::write), or
    /// give it up with [`abandon`](Self::abandon): the turn has to be claimed.
    pub fn take_ticket(&self) -> usize {
        let mut guard = self.enter();
        let ghost before = guarded(guard);
        let ticket = state_mut(&mut guard).take_ticket();
        assert(guarded(guard) == before.step(Op::IssueTicket));
        ticket
    }

    /// Redeems a ticket. Blocks while a writer holds the lock and the ticket
    /// is not the next one; then claims the turn, which keeps new readers
    /// out; then blocks until the readers that are inside have left.
    ///
    /// Returns `true` once the caller holds the lock for writing. Returns
    /// `false` only if the mutex was found poisoned while waiting: before the
    /// claim with nothing changed, after it with the turn used up and the
    /// lock released again.
    pub fn write(&self, ticket: usize) -> bool {
        let guard = self.enter();
        match wait_while(&self.writer, guard, Waiter::Ticket(ticket)) {
            Ok(mut guard) => {
                let ghost before = guarded(guard);
                state_mut(&mut guard).add_writer();
                assert(guarded(guard) == before.step(Op::Claim(ticket)));
                match wait_while(&self.reader, guard, Waiter::Writer) {
                    Ok(_) => true,
                    Err(poisoned) => {
                        let mut guard = poisoned.into_inner();
                        state_mut(&mut guard).remove_writer();
                        self.writer.notify_all();
                        false
                    },
                }
            },
            Err(_) => false,
        }
    }

    /// Takes the lock for writing without a ticket, if nobody holds it and no
    /// ticket is unclaimed. Says whether it did. Never blocks.
    pub fn try_write_skip_queue(&self) -> bool {
        let mut guard = self.enter();
        let ghost before = guarded(guard);
        let admitted = state_mut(&mut guard).try_write_skip_queue();
        assert(guarded(guard) == before.step(Op::SkipQueue));
        admitted
    }

    /// The writer lets go, and everyone who waits for that is woken: the
    /// writers in the queue and the readers.
    pub fn write_unlock(&self) {
        let mut guard = self.enter();
        let ghost before = guarded(guard);
        state_mut(&mut guard).remove_writer();
        assert(guarded(guard) == before.step(Op::ReleaseWriter));
        self.writer.notify_all();
    }

    /// Gives a ticket up: waits for its turn like [`write`](Self::write) and
    /// lets go at once. A ticket that is neither redeemed nor given up would
    /// hold its turn for ever.
    pub fn abandon(&self, ticket: usize) {
        if self.write(ticket) {
            self.write_unlock();
        }
    }
}

} // verus!
