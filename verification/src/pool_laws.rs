//! What holds of every history of a worker pool.
//!
//! A history is the sequence of calls made on a pool since its start. From a
//! history follow the state of the pool (`pool_after`), the tickets that
//! `submit` has given out (`issued`), and the tickets that `finish` has handed
//! back (`delivered`), each in the order of the calls. The laws below relate
//! the three.

use vstd::prelude::*;
use crate::pool::{routed, PoolView, Ticket};

verus! {

/// One call on a pool that may change it.
pub enum Op<M> {
    /// `submit`.
    Submit { key: u64, message: M },
    /// `begin`, or `turn`, which changes the pool as `begin` does.
    Begin { worker: usize },
    /// `finish`.
    Finish { worker: usize },
    /// `shutdown`.
    Shutdown,
}

/// The pool after one call.
pub open spec fn apply<M>(pool: PoolView<M>, op: Op<M>) -> PoolView<M> {
    match op {
        Op::Submit { key, message } => pool.submit(key, message),
        Op::Begin { worker } => pool.begin(worker as int),
        Op::Finish { worker } => pool.finish(worker as int),
        Op::Shutdown => pool.shutdown(),
    }
}

/// The pool of `size` workers after the calls `ops`.
pub open spec fn pool_after<M>(size: nat, ops: Seq<Op<M>>) -> PoolView<M>
    decreases ops.len(),
{
    if ops.len() == 0 {
        PoolView::started(size)
    } else {
        apply(pool_after(size, ops.drop_last()), ops.last())
    }
}

/// The tickets that `submit` has given out during `ops`, oldest first.
pub open spec fn issued<M>(size: nat, ops: Seq<Op<M>>) -> Seq<Ticket>
    decreases ops.len(),
{
    if ops.len() == 0 {
        Seq::<Ticket>::empty()
    } else {
        let earlier = issued(size, ops.drop_last());
        let pool = pool_after(size, ops.drop_last());
        match ops.last() {
            Op::Submit { key, message } => if pool.accepts(key) {
                earlier.push(pool.next_ticket(key))
            } else {
                earlier
            },
            _ => earlier,
        }
    }
}

/// The tickets that `finish` has handed back during `ops`, oldest first: the
/// responses in the order of their delivery.
pub open spec fn delivered<M>(size: nat, ops: Seq<Op<M>>) -> Seq<Ticket>
    decreases ops.len(),
{
    if ops.len() == 0 {
        Seq::<Ticket>::empty()
    } else {
        let earlier = delivered(size, ops.drop_last());
        let pool = pool_after(size, ops.drop_last());
        match ops.last() {
            Op::Finish { worker } => if pool.can_finish(worker as int) {
                earlier.push(
                    Ticket { worker, seq: pool.workers[worker as int].delivered as u64 },
                )
            } else {
                earlier
            },
            _ => earlier,
        }
    }
}

/// The messages that worker `w` has been handed during `ops`, oldest first.
pub open spec fn accepted_messages<M>(size: nat, ops: Seq<Op<M>>, w: int) -> Seq<M>
    decreases ops.len(),
{
    if ops.len() == 0 {
        Seq::<M>::empty()
    } else {
        let earlier = accepted_messages(size, ops.drop_last(), w);
        let pool = pool_after(size, ops.drop_last());
        match ops.last() {
            Op::Submit { key, message } => if pool.accepts(key) && routed(key, size) == w {
                earlier.push(message)
            } else {
                earlier
            },
            _ => earlier,
        }
    }
}

/// The ticket numbers of worker `w` among `tickets`, in the order of
/// `tickets`.
pub open spec fn numbers_of(tickets: Seq<Ticket>, w: usize) -> Seq<nat>
    decreases tickets.len(),
{
    if tickets.len() == 0 {
        Seq::<nat>::empty()
    } else if tickets.last().worker == w {
        numbers_of(tickets.drop_last(), w).push(tickets.last().seq as nat)
    } else {
        numbers_of(tickets.drop_last(), w)
    }
}

/// The numbers from 0 up to, and without, `n`.
pub open spec fn count_up(n: nat) -> Seq<nat> {
    Seq::new(n, |i: int| i as nat)
}

proof fn lemma_numbers_of_push(tickets: Seq<Ticket>, ticket: Ticket, w: usize)
    ensures
        numbers_of(tickets.push(ticket), w) == if ticket.worker == w {
            numbers_of(tickets, w).push(ticket.seq as nat)
        } else {
            numbers_of(tickets, w)
        },
{
    assert(tickets.push(ticket).drop_last() =~= tickets);
}

/// A pool keeps its workers: their number never changes. And no mailbox ever
/// runs past its ticket numbers.
pub proof fn law_pool_keeps_its_shape<M>(size: nat, ops: Seq<Op<M>>)
    ensures
        pool_after(size, ops).workers.len() == size,
        size <= usize::MAX ==> pool_after(size, ops).wf(),
    decreases ops.len(),
{
    if ops.len() > 0 {
        law_pool_keeps_its_shape(size, ops.drop_last());
    }
}

/// Messages with the same routing key are bound to the same worker, at every
/// point of every history: the worker depends on the key and the size of the
/// pool alone, and is one of the pool's workers.
pub proof fn law_same_key_same_worker<M>(size: nat, earlier: Seq<Op<M>>, later: Seq<Op<M>>, key: u64)
    requires
        0 < size <= usize::MAX,
    ensures
        pool_after(size, earlier).next_ticket(key).worker == pool_after(size, later).next_ticket(
            key,
        ).worker,
        pool_after(size, earlier).next_ticket(key).worker == routed(key, size),
        0 <= routed(key, size) < size,
{
    law_pool_keeps_its_shape(size, earlier);
    law_pool_keeps_its_shape(size, later);
}

/// Every worker's tickets are numbered in the order in which its messages
/// were accepted: the numbers given out for worker `w` are 0, 1, 2 and so on,
/// without a gap and without a repeat, up to the number of messages the worker
/// has accepted.
pub proof fn law_tickets_count_arrivals<M>(size: nat, ops: Seq<Op<M>>, w: usize)
    requires
        w < size <= usize::MAX,
    ensures
        numbers_of(issued(size, ops), w) == count_up(
            pool_after(size, ops).workers[w as int].accepted(),
        ),
    decreases ops.len(),
{
    if ops.len() > 0 {
        let before = ops.drop_last();
        law_tickets_count_arrivals(size, before, w);
        law_pool_keeps_its_shape(size, before);
        let pool = pool_after(size, before);
        match ops.last() {
            Op::Submit { key, message } => {
                // an accepted message gets the next number of its worker
                if pool.accepts(key) {
                    lemma_numbers_of_push(issued(size, before), pool.next_ticket(key), w);
                }
            },
            // no other call gives out a ticket or changes how many were accepted
            _ => {},
        }
    }
}

/// Responses leave a worker in the order in which its messages arrived, each
/// exactly once: the tickets that worker `w` has handed back are numbered 0,
/// 1, 2 and so on, without a gap and without a repeat, up to the number of
/// messages the worker has finished. With `law_tickets_count_arrivals` this is
/// the order in which the messages were submitted.
pub proof fn law_responses_in_arrival_order<M>(size: nat, ops: Seq<Op<M>>, w: usize)
    requires
        w < size <= usize::MAX,
    ensures
        numbers_of(delivered(size, ops), w) == count_up(
            pool_after(size, ops).workers[w as int].delivered,
        ),
        pool_after(size, ops).workers[w as int].delivered <= pool_after(
            size,
            ops,
        ).workers[w as int].accepted(),
    decreases ops.len(),
{
    if ops.len() > 0 {
        let before = ops.drop_last();
        law_responses_in_arrival_order(size, before, w);
        law_pool_keeps_its_shape(size, before);
        let pool = pool_after(size, before);
        match ops.last() {
            Op::Finish { worker } => {
                // a finished message hands back the next number of its worker
                if pool.can_finish(worker as int) {
                    let ticket = Ticket {
                        worker,
                        seq: pool.workers[worker as int].delivered as u64,
                    };
                    lemma_numbers_of_push(delivered(size, before), ticket, w);
                }
            },
            // no other call hands back a ticket or changes how many were finished
            _ => {},
        }
    }
}

/// A mailbox holds exactly the messages that were accepted for its worker and
/// not yet taken, in the order of their arrival. So the message that `begin`
/// hands to a worker is the one that was submitted under the ticket that comes
/// with it.
pub proof fn law_mailbox_holds_what_waits<M>(size: nat, ops: Seq<Op<M>>, w: usize)
    requires
        w < size <= usize::MAX,
    ensures
        accepted_messages(size, ops, w as int).len() == pool_after(
            size,
            ops,
        ).workers[w as int].accepted(),
        pool_after(size, ops).workers[w as int].pending == accepted_messages(
            size,
            ops,
            w as int,
        ).skip(pool_after(size, ops).workers[w as int].taken() as int),
    decreases ops.len(),
{
    if ops.len() > 0 {
        let before = ops.drop_last();
        law_mailbox_holds_what_waits(size, before, w);
        law_pool_keeps_its_shape(size, before);
    }
}

/// Every message that was accepted is in exactly one place: answered, at
/// work, or waiting. Of the `accepted` messages of worker `w`, the first
/// `delivered` are answered, at most one more is at work, and the rest wait;
/// when nothing waits and the worker is idle, all of them are answered.
pub proof fn law_every_message_accounted_for<M>(size: nat, ops: Seq<Op<M>>, w: usize)
    requires
        w < size <= usize::MAX,
    ensures
        ({
            let mailbox = pool_after(size, ops).workers[w as int];
            &&& numbers_of(issued(size, ops), w).len() == mailbox.delivered + (if mailbox.busy {
                1nat
            } else {
                0nat
            }) + mailbox.pending.len()
            &&& numbers_of(delivered(size, ops), w).len() == mailbox.delivered
            &&& (!mailbox.busy && mailbox.pending.len() == 0 ==> numbers_of(delivered(size, ops), w)
                == numbers_of(issued(size, ops), w))
        }),
{
    law_tickets_count_arrivals(size, ops, w);
    law_responses_in_arrival_order(size, ops, w);
}

/// A pool that is shut down stays shut down, whatever is called on it.
pub proof fn law_closed_stays_closed<M>(pool: PoolView<M>, op: Op<M>)
    requires
        !pool.open,
    ensures
        !apply(pool, op).open,
{
}

/// A worker that was told to stop misses nothing: once it has nothing left to
/// do for good, no call gives it anything to do again.
pub proof fn law_done_stays_done<M>(pool: PoolView<M>, op: Op<M>, w: int)
    requires
        pool.is_done(w),
    ensures
        apply(pool, op).is_done(w),
        !apply(pool, op).can_begin(w),
        !apply(pool, op).can_finish(w),
{
}

/// After a shutdown no message is accepted any more: at every later point of
/// the history `submit` is refused for every routing key, and a refused
/// `submit` leaves the pool as it was.
pub proof fn law_no_submit_after_shutdown<M>(
    size: nat,
    ops: Seq<Op<M>>,
    closed_at: int,
    key: u64,
    message: M,
)
    requires
        0 <= closed_at < ops.len(),
        ops[closed_at] is Shutdown,
    ensures
        !pool_after(size, ops).open,
        !pool_after(size, ops).accepts(key),
        pool_after(size, ops).submit(key, message) == pool_after(size, ops),
    decreases ops.len(),
{
    let before = ops.drop_last();
    if closed_at < before.len() {
        law_no_submit_after_shutdown(size, before, closed_at, key, message);
        law_closed_stays_closed(pool_after(size, before), ops.last());
    }
}

} // verus!
