//! The lock as a transition system, and what holds of every run of it.
//!
//! Whatever the threads do, the admission state changes one critical section
//! at a time, and each critical section makes one of the steps of [`Op`]. A
//! run is any sequence of them. The lemmas of this module are about single
//! steps and about whole runs; none of them is about timing.

use vstd::prelude::*;
use crate::state::{Admission, Waiter};

verus! {

/// One change of the admission state, as made inside one critical section.
pub enum Op {
    /// A reader asks for admission: `read`, each time it looks, and `try_read`.
    AdmitReader,
    /// A reader leaves: `read_unlock`.
    ReleaseReader,
    /// A ticket is issued: `take_ticket`.
    IssueTicket,
    /// The holder of a ticket asks for its turn: `write`, each time it looks.
    Claim(usize),
    /// A writer tries to enter past the queue: `try_write_skip_queue`.
    SkipQueue,
    /// The writer lets go: `write_unlock`.
    ReleaseWriter,
}

impl Admission {
    /// The state after one step.
    pub open spec fn step(self, op: Op) -> Admission {
        match op {
            Op::AdmitReader => self.try_read(),
            Op::ReleaseReader => self.read_unlock(),
            Op::IssueTicket => self.take_ticket(),
            Op::Claim(ticket) => self.claim(ticket),
            Op::SkipQueue => self.try_write_skip_queue(),
            Op::ReleaseWriter => self.remove_writer(),
        }
    }

    /// The state after a sequence of steps, the first of `ops` first.
    pub open spec fn run(self, ops: Seq<Op>) -> Admission
        decreases ops.len(),
    {
        if ops.len() == 0 {
            self
        } else {
            self.run(ops.drop_last()).step(ops.last())
        }
    }

    /// The state in which step `i` of a run is made: the state after the
    /// first `i` steps.
    pub open spec fn before(self, ops: Seq<Op>, i: int) -> Admission {
        self.run(ops.take(i))
    }
}

/// Nobody calls `write_unlock` in `ops`.
pub open spec fn no_release(ops: Seq<Op>) -> bool {
    forall|i: int| 0 <= i < ops.len() ==> !(#[trigger] ops[i] is ReleaseWriter)
}

/// Step `i` of the run is the holder of `ticket` getting its turn while a
/// writer holds the flag.
pub open spec fn contended_claim(s: Admission, ops: Seq<Op>, i: int, ticket: usize) -> bool {
    &&& 0 <= i < ops.len()
    &&& ops[i] == Op::Claim(ticket)
    &&& s.before(ops, i).writer_held
    &&& !s.before(ops, i).must_wait(Waiter::Ticket(ticket))
}

/// A run of `i + 1` steps is a run of `i` steps and one more.
pub proof fn lemma_before_next(s: Admission, ops: Seq<Op>, i: int)
    requires
        0 <= i < ops.len(),
    ensures
        s.before(ops, i + 1) == s.before(ops, i).step(ops[i]),
{
    assert(ops.take(i + 1).drop_last() =~= ops.take(i));
}

/// No step claims more turns than tickets were issued.
pub proof fn lemma_step_keeps_wf(s: Admission, op: Op)
    requires
        s.wf(),
    ensures
        s.step(op).wf(),
{
}

/// In every run, the next ticket is at most the number of tickets issued.
pub proof fn lemma_run_keeps_wf(s: Admission, ops: Seq<Op>)
    requires
        s.wf(),
    ensures
        s.run(ops).wf(),
    decreases ops.len(),
{
    if ops.len() > 0 {
        lemma_run_keeps_wf(s, ops.drop_last());
        lemma_step_keeps_wf(s.run(ops.drop_last()), ops.last());
    }
}

/// Neither counter of the queue ever goes back.
pub proof fn lemma_run_counts_up(s: Admission, ops: Seq<Op>)
    ensures
        s.run(ops).next_ticket >= s.next_ticket,
        s.run(ops).total_tickets >= s.total_tickets,
    decreases ops.len(),
{
    if ops.len() > 0 {
        lemma_run_counts_up(s, ops.drop_last());
    }
}

/// Tickets are never reused: whatever happens after a ticket was issued, the
/// next one to be issued is larger. This holds until the counter has reached
/// `usize::MAX`.
pub proof fn lemma_later_ticket_is_larger(s: Admission, ops: Seq<Op>)
    requires
        s.total_tickets < usize::MAX,
    ensures
        s.take_ticket().run(ops).total_tickets > s.total_tickets,
{
    lemma_run_counts_up(s.take_ticket(), ops);
}

/// The step is a ticket holder getting its turn while readers are inside.
pub open spec fn claims_among_readers(s: Admission, op: Op) -> bool {
    op matches Op::Claim(ticket) && s.has_readers() && !s.must_wait(Waiter::Ticket(ticket))
}

/// Readers and the writer flag exclude each other, and every step keeps it so
/// but one: a ticket holder that gets its turn while readers are still
/// inside. That writer sets the flag first and waits for the readers next
/// (see [`lemma_run_under_writer`]).
pub proof fn lemma_step_keeps_exclusive(s: Admission, op: Op)
    requires
        s.exclusive(),
        !claims_among_readers(s, op),
    ensures
        s.step(op).exclusive(),
{
}

/// The same of whole runs: starting from a state in which readers and the
/// writer flag exclude each other, they do so after every run in which no
/// ticket holder gets its turn while readers are inside.
pub proof fn lemma_run_keeps_exclusive(s: Admission, ops: Seq<Op>)
    requires
        s.exclusive(),
        forall|i: int|
            0 <= i < ops.len() ==> !claims_among_readers(#[trigger] s.before(ops, i), ops[i]),
    ensures
        s.run(ops).exclusive(),
    decreases ops.len(),
{
    if ops.len() > 0 {
        let earlier = ops.drop_last();
        assert forall|i: int| 0 <= i < earlier.len() implies !claims_among_readers(
            #[trigger] s.before(earlier, i),
            earlier[i],
        ) by {
            assert(earlier.take(i) =~= ops.take(i));
            assert(!claims_among_readers(s.before(ops, i), ops[i]));
        }
        lemma_run_keeps_exclusive(s, earlier);
        assert(ops.take(ops.len() - 1) =~= earlier);
        assert(!claims_among_readers(s.before(ops, ops.len() - 1), ops[ops.len() - 1]));
        lemma_step_keeps_exclusive(s.run(earlier), ops.last());
    }
}

/// While the writer flag is set no reader gets in, and only `write_unlock`
/// clears the flag.
pub proof fn lemma_writer_keeps_readers_out(s: Admission, op: Op)
    requires
        s.writer_held,
    ensures
        s.step(op).reader_count <= s.reader_count,
        !(op is ReleaseWriter) ==> s.step(op).writer_held,
{
}

/// While readers are inside, no writer that has claimed its turn goes on,
/// and none enters past the queue.
pub proof fn lemma_readers_keep_writer_out(s: Admission)
    requires
        s.has_readers(),
    ensures
        s.must_wait(Waiter::Writer),
        !s.skip_queue_admits(),
{
}

/// As long as nobody calls `write_unlock`, a writer flag that is set stays
/// set and the readers only get fewer.
pub proof fn lemma_run_under_writer(s: Admission, ops: Seq<Op>)
    requires
        s.writer_held,
        no_release(ops),
    ensures
        s.run(ops).writer_held,
        s.run(ops).reader_count <= s.reader_count,
    decreases ops.len(),
{
    if ops.len() > 0 {
        let earlier = ops.drop_last();
        assert forall|i: int| 0 <= i < earlier.len() implies !(#[trigger] earlier[i]
            is ReleaseWriter) by {
            assert(earlier[i] == ops[i]);
        }
        lemma_run_under_writer(s, earlier);
        lemma_writer_keeps_readers_out(s.run(earlier), ops.last());
    }
}

/// Write access is exclusive: from the moment the writer has seen the last
/// reader leave until somebody calls `write_unlock`, no reader is counted,
/// whatever else the other threads do.
pub proof fn lemma_write_access_is_exclusive(s: Admission, ops: Seq<Op>)
    requires
        s.writer_held,
        !s.must_wait(Waiter::Writer),
        no_release(ops),
    ensures
        s.run(ops).writer_held,
        !s.run(ops).has_readers(),
{
    lemma_run_under_writer(s, ops);
}

/// While a writer holds the flag, the only ticket that gets its turn is the
/// next one, and the line then moves on by exactly one.
pub proof fn lemma_contended_claim_is_next(s: Admission, ticket: usize)
    requires
        s.writer_held,
        !s.must_wait(Waiter::Ticket(ticket)),
    ensures
        s.is_next(ticket),
        s.claim(ticket).next_ticket == ticket + 1,
{
}

/// Writers are served in the order of their tickets while a writer holds the
/// flag: as long as the turn of ticket `a` has not passed, no later ticket
/// `b` gets its turn.
///
/// Without a writer holding the flag this fails: a ticket holder that finds
/// the flag clear claims the next turn whatever its own number is.
pub proof fn lemma_writer_fifo(s: Admission, a: usize, b: usize)
    requires
        s.writer_held,
        s.next_ticket <= a,
        a < b,
    ensures
        s.must_wait(Waiter::Ticket(b)),
        s.claim(b) == s,
{
}

/// Without a writer holding the flag, the number on the ticket does not
/// matter: whoever asks gets the next turn, as long as one is unclaimed.
pub proof fn lemma_free_lock_serves_any_ticket(s: Admission, ticket: usize)
    requires
        !s.writer_held,
        !s.queue_empty(),
    ensures
        !s.must_wait(Waiter::Ticket(ticket)),
        s.claim(ticket) == s.add_writer(),
{
}

/// The line only moves forward along a run.
pub proof fn lemma_line_moves_forward(s: Admission, ops: Seq<Op>, i: int, j: int)
    requires
        0 <= i <= j <= ops.len(),
    ensures
        s.before(ops, i).next_ticket <= s.before(ops, j).next_ticket,
    decreases j - i,
{
    if i < j {
        lemma_line_moves_forward(s, ops, i, j - 1);
        lemma_before_next(s, ops, j - 1);
    }
}

/// In every run, the writers that get their turn while a writer holds the
/// flag get it in the order of their tickets: of two such steps, the earlier
/// one has the smaller ticket.
pub proof fn lemma_contended_claims_in_order(
    s: Admission,
    ops: Seq<Op>,
    i: int,
    j: int,
    a: usize,
    b: usize,
)
    requires
        i < j,
        contended_claim(s, ops, i, a),
        contended_claim(s, ops, j, b),
    ensures
        a < b,
{
    lemma_before_next(s, ops, i);
    lemma_line_moves_forward(s, ops, i + 1, j);
}

/// A ticket that is given up is not lost. Giving it up means claiming the
/// turn and letting go at once; that moves the line on by exactly one,
/// issues nothing, counts no reader and leaves the writer flag clear.
pub proof fn lemma_abandoned_ticket_moves_line(s: Admission, ticket: usize)
    requires
        s.wf(),
        !s.must_wait(Waiter::Ticket(ticket)),
    ensures
        ({
            let after = s.claim(ticket).remove_writer();
            &&& after.next_ticket == s.next_ticket + 1
            &&& after.total_tickets == s.total_tickets
            &&& after.reader_count == s.reader_count
            &&& !after.writer_held
            &&& after.wf()
        }),
{
}

/// The same with other threads at work between the claim and the release:
/// as long as none of them releases the writer in between, the line has
/// moved on by at least one, no reader has been added, and the writer flag
/// is clear in the end.
pub proof fn lemma_abandoned_ticket_among_others(s: Admission, ticket: usize, ops: Seq<Op>)
    requires
        !s.must_wait(Waiter::Ticket(ticket)),
        no_release(ops),
    ensures
        ({
            let after = s.claim(ticket).run(ops).remove_writer();
            &&& after.next_ticket >= s.next_ticket + 1
            &&& after.reader_count <= s.reader_count
            &&& !after.writer_held
        }),
{
    lemma_run_under_writer(s.claim(ticket), ops);
    lemma_run_counts_up(s.claim(ticket), ops);
}

} // verus!
