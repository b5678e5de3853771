//! Order and exactly-once delivery, said of single messages.
//!
//! `pool_laws` says what the tickets of one worker look like as a whole. Here
//! the same is said of two messages, or of one, at given places of a history:
//! what a caller of `submit` can rely on.

use vstd::prelude::*;
use crate::pool::{routed, PoolView, Ticket};
use crate::pool_laws::{
    apply, count_up, delivered, issued, law_pool_keeps_its_shape, law_responses_in_arrival_order,
    law_tickets_count_arrivals, numbers_of, pool_after, Op,
};

verus! {

/// The ticket that the call at place `at` of `ops` gave out, if that call is a
/// `submit` that was accepted.
pub open spec fn ticket_at<M>(size: nat, ops: Seq<Op<M>>, at: int) -> Option<Ticket> {
    if 0 <= at < ops.len() {
        match ops[at] {
            Op::Submit { key, message } => if pool_after(size, ops.take(at)).accepts(key) {
                Some(pool_after(size, ops.take(at)).next_ticket(key))
            } else {
                None
            },
            _ => None,
        }
    } else {
        None
    }
}

/// How many tickets of worker `w` stand before place `at` in `tickets`.
spec fn rank(tickets: Seq<Ticket>, w: usize, at: int) -> nat {
    numbers_of(tickets.take(at), w).len()
}

proof fn lemma_numbers_of_prefix(tickets: Seq<Ticket>, w: usize, at: int)
    requires
        0 <= at <= tickets.len(),
    ensures
        numbers_of(tickets.take(at), w).len() <= numbers_of(tickets, w).len(),
        forall|p: int|
            0 <= p < numbers_of(tickets.take(at), w).len() ==> numbers_of(tickets.take(at), w)[p]
                == numbers_of(tickets, w)[p],
    decreases tickets.len() - at,
{
    if at < tickets.len() {
        lemma_numbers_of_prefix(tickets, w, at + 1);
        assert(tickets.take(at + 1).drop_last() =~= tickets.take(at));
    } else {
        assert(tickets.take(at) =~= tickets);
    }
}

proof fn lemma_number_at_rank(tickets: Seq<Ticket>, w: usize, at: int)
    requires
        0 <= at < tickets.len(),
        tickets[at].worker == w,
    ensures
        rank(tickets, w, at) < numbers_of(tickets, w).len(),
        numbers_of(tickets, w)[rank(tickets, w, at) as int] == tickets[at].seq as nat,
        rank(tickets, w, at + 1) == rank(tickets, w, at) + 1,
{
    lemma_numbers_of_prefix(tickets, w, at + 1);
    assert(tickets.take(at + 1).drop_last() =~= tickets.take(at));
}

proof fn lemma_rank_grows(tickets: Seq<Ticket>, w: usize, a: int, b: int)
    requires
        0 <= a < b <= tickets.len(),
        tickets[a].worker == w,
    ensures
        rank(tickets, w, a) < rank(tickets, w, b),
{
    lemma_number_at_rank(tickets, w, a);
    lemma_numbers_of_prefix(tickets.take(b), w, a + 1);
    assert(tickets.take(b).take(a + 1) =~= tickets.take(a + 1));
}

/// Among tickets that are numbered 0, 1, 2 and so on for worker `w`, a ticket
/// of `w` that stands earlier has the smaller number.
proof fn lemma_counted_tickets_are_ordered(tickets: Seq<Ticket>, w: usize, n: nat, a: int, b: int)
    requires
        numbers_of(tickets, w) == count_up(n),
        0 <= a < b < tickets.len(),
        tickets[a].worker == w,
        tickets[b].worker == w,
    ensures
        tickets[a].seq < tickets[b].seq,
{
    lemma_number_at_rank(tickets, w, a);
    lemma_number_at_rank(tickets, w, b);
    lemma_rank_grows(tickets, w, a, b);
}

/// Among tickets that are numbered 0, 1, 2 and so on up to `n` for worker `w`,
/// every number below `n` belongs to a ticket.
proof fn lemma_counted_tickets_are_all_there(tickets: Seq<Ticket>, w: usize, n: nat, number: u64)
    requires
        numbers_of(tickets, w) == count_up(n),
        number < n,
    ensures
        exists|at: int|
            0 <= at < tickets.len() && #[trigger] tickets[at] == (Ticket { worker: w, seq: number }),
    decreases tickets.len(),
{
    assert(count_up(n).len() == n);
    if tickets.len() > 0 {
        let before = tickets.drop_last();
        if tickets.last().worker == w {
            // the last ticket has the highest number; the others count up to it
            assert(numbers_of(before, w) =~= count_up((n - 1) as nat)) by {
                assert forall|p: int| 0 <= p < n - 1 implies numbers_of(before, w)[p] == count_up(
                    (n - 1) as nat,
                )[p] by {
                    assert(numbers_of(before, w)[p] == numbers_of(tickets, w)[p]);
                }
            }
            if number == n - 1 {
                assert(numbers_of(tickets, w)[n - 1] == tickets.last().seq as nat);
            } else {
                lemma_counted_tickets_are_all_there(before, w, (n - 1) as nat, number);
            }
        } else {
            lemma_counted_tickets_are_all_there(before, w, n, number);
        }
        // a ticket among the earlier ones is at the same place among all
        if exists|at: int|
            0 <= at < before.len() && #[trigger] before[at] == (Ticket { worker: w, seq: number }) {
            let at = choose|at: int|
                0 <= at < before.len() && #[trigger] before[at] == (Ticket {
                    worker: w,
                    seq: number,
                });
            assert(tickets[at] == before[at]);
        }
    }
}

/// Every ticket handed back belongs to the worker that handed it back, and
/// that worker is one of the pool.
proof fn lemma_delivered_by_a_worker<M>(size: nat, ops: Seq<Op<M>>, at: int)
    requires
        0 <= at < delivered(size, ops).len(),
    ensures
        delivered(size, ops)[at].worker < size,
    decreases ops.len(),
{
    if ops.len() > 0 {
        let before = ops.drop_last();
        law_pool_keeps_its_shape(size, before);
        if at < delivered(size, before).len() {
            lemma_delivered_by_a_worker(size, before, at);
        }
    }
}

/// The mailbox of a worker never loses count: from one place of a history to
/// a later one, the number of messages a worker has accepted does not go
/// down.
proof fn lemma_accepted_never_shrinks<M>(size: nat, ops: Seq<Op<M>>, a: int, b: int, w: int)
    requires
        0 <= a <= b <= ops.len(),
        0 <= w < size,
    ensures
        pool_after(size, ops.take(a)).workers[w].accepted() <= pool_after(
            size,
            ops.take(b),
        ).workers[w].accepted(),
    decreases b - a,
{
    if a < b {
        lemma_accepted_never_shrinks(size, ops, a, b - 1, w);
        assert(ops.take(b).drop_last() =~= ops.take(b - 1));
        law_pool_keeps_its_shape(size, ops.take(b - 1));
    }
}

/// Of two messages that were accepted under the same routing key, the one
/// submitted first has the smaller ticket number on the same worker; and where
/// both have been answered, the one submitted first was answered first.
/// `first` and `second` are the places of the two `submit` calls in the
/// history, `a` and `b` the places of their tickets among the responses.
pub proof fn law_same_key_answered_in_submission_order<M>(
    size: nat,
    ops: Seq<Op<M>>,
    first: int,
    second: int,
    a: int,
    b: int,
)
    requires
        size <= usize::MAX,
        0 <= first < second < ops.len(),
        ops[first] is Submit,
        ops[second] is Submit,
        ops[first]->key == ops[second]->key,
        ticket_at(size, ops, first) is Some,
        ticket_at(size, ops, second) is Some,
        0 <= a < delivered(size, ops).len(),
        0 <= b < delivered(size, ops).len(),
        delivered(size, ops)[a] == ticket_at(size, ops, first)->0,
        delivered(size, ops)[b] == ticket_at(size, ops, second)->0,
    ensures
        ticket_at(size, ops, first)->0.worker == ticket_at(size, ops, second)->0.worker,
        ticket_at(size, ops, first)->0.seq < ticket_at(size, ops, second)->0.seq,
        a < b,
{
    let w = routed(ops[first]->key, size);
    law_pool_keeps_its_shape(size, ops.take(first));
    law_pool_keeps_its_shape(size, ops.take(first + 1));
    law_pool_keeps_its_shape(size, ops.take(second));
    // the first message raises the count of its worker by one, and the count
    // does not go down until the second message arrives
    assert(ops.take(first + 1).drop_last() =~= ops.take(first));
    lemma_accepted_never_shrinks(size, ops, first + 1, second, w);
    // responses of one worker come in the order of their numbers
    law_responses_in_arrival_order(size, ops, w as usize);
    if b < a {
        lemma_counted_tickets_are_ordered(
            delivered(size, ops),
            w as usize,
            pool_after(size, ops).workers[w].delivered,
            b,
            a,
        );
    }
}

/// No response is delivered twice: a ticket stands at most once among the
/// responses.
pub proof fn law_no_response_twice<M>(size: nat, ops: Seq<Op<M>>, a: int, b: int)
    requires
        size <= usize::MAX,
        0 <= a < delivered(size, ops).len(),
        0 <= b < delivered(size, ops).len(),
        delivered(size, ops)[a] == delivered(size, ops)[b],
    ensures
        a == b,
{
    let handed = delivered(size, ops);
    let worker = handed[a].worker;
    lemma_delivered_by_a_worker(size, ops, a);
    law_responses_in_arrival_order(size, ops, worker);
    let n = pool_after(size, ops).workers[worker as int].delivered;
    // two places would hold two different numbers
    if a < b {
        lemma_counted_tickets_are_ordered(handed, worker, n, a, b);
    }
    if b < a {
        lemma_counted_tickets_are_ordered(handed, worker, n, b, a);
    }
}

/// Every message that was accepted is answered once its worker has worked off
/// its mailbox: when the worker of an accepted message is idle and nothing
/// waits for it, the ticket of that message stands among the responses, and
/// by `law_no_response_twice` exactly once.
pub proof fn law_every_message_answered<M>(size: nat, ops: Seq<Op<M>>, at: int)
    requires
        size <= usize::MAX,
        ticket_at(size, ops, at) is Some,
        ({
            let mailbox = pool_after(size, ops).workers[ticket_at(size, ops, at)->0.worker as int];
            !mailbox.busy && mailbox.pending.len() == 0
        }),
    ensures
        exists|a: int|
            0 <= a < delivered(size, ops).len() && #[trigger] delivered(size, ops)[a] == ticket_at(
                size,
                ops,
                at,
            )->0,
{
    let ticket = ticket_at(size, ops, at)->0;
    let w = routed(ops[at]->key, size);
    law_pool_keeps_its_shape(size, ops.take(at));
    law_pool_keeps_its_shape(size, ops.take(at + 1));
    law_pool_keeps_its_shape(size, ops);
    // the number of the ticket is below what its worker has accepted since
    assert(ops.take(at + 1).drop_last() =~= ops.take(at));
    lemma_accepted_never_shrinks(size, ops, at + 1, ops.len() as int, w);
    assert(ops.take(ops.len() as int) =~= ops);
    // and an idle worker with an empty mailbox has finished all it accepted
    law_responses_in_arrival_order(size, ops, w as usize);
    lemma_counted_tickets_are_all_there(
        delivered(size, ops),
        w as usize,
        pool_after(size, ops).workers[w].delivered,
        ticket.seq,
    );
}

/// Only its own worker takes a message out of a mailbox, and only by `begin`.
/// No other call shortens a mailbox or reorders it: what waited before still
/// waits, in the same order and at the front. A message, once accepted,
/// cannot be taken back.
pub proof fn law_accepted_messages_stay<M>(pool: PoolView<M>, op: Op<M>, w: int)
    requires
        0 <= w < pool.workers.len(),
        !(op matches Op::Begin { worker } && worker == w),
    ensures
        pool.workers[w].pending.is_prefix_of(apply(pool, op).workers[w].pending),
{
}

/// Every ticket given out names a worker of the pool, and no ticket is given
/// out twice.
pub proof fn law_no_ticket_twice<M>(size: nat, ops: Seq<Op<M>>, a: int, b: int)
    requires
        size <= usize::MAX,
        0 <= a < issued(size, ops).len(),
        0 <= b < issued(size, ops).len(),
        issued(size, ops)[a] == issued(size, ops)[b],
    ensures
        a == b,
        issued(size, ops)[a].worker < size,
{
    let given = issued(size, ops);
    let worker = given[a].worker;
    lemma_issued_for_a_worker(size, ops, a);
    law_tickets_count_arrivals(size, ops, worker);
    let n = pool_after(size, ops).workers[worker as int].accepted();
    if a < b {
        lemma_counted_tickets_are_ordered(given, worker, n, a, b);
    }
    if b < a {
        lemma_counted_tickets_are_ordered(given, worker, n, b, a);
    }
}

proof fn lemma_issued_for_a_worker<M>(size: nat, ops: Seq<Op<M>>, at: int)
    requires
        size <= usize::MAX,
        0 <= at < issued(size, ops).len(),
    ensures
        issued(size, ops)[at].worker < size,
    decreases ops.len(),
{
    if ops.len() > 0 {
        let before = ops.drop_last();
        law_pool_keeps_its_shape(size, before);
        if at < issued(size, before).len() {
            lemma_issued_for_a_worker(size, before, at);
        }
    }
}

/// Keys that follow one another are bound to workers that follow one another,
/// round and round: under keys that are evenly spread, every worker gets the
/// same share.
pub proof fn law_routing_goes_round(key: u64, size: nat)
    requires
        size > 0,
        key < u64::MAX,
    ensures
        0 <= routed(key, size) < size,
        routed((key + 1) as u64, size) == (if routed(key, size) + 1 == size {
            0
        } else {
            routed(key, size) + 1
        }),
{
    let k = key as int;
    let n = size as int;
    assert(0 <= k % n < n && ((k + 1) % n == k % n + 1 || (k + 1) % n == 0 && k % n + 1 == n))
        by (nonlinear_arith)
        requires
            n > 0,
            k >= 0,
    ;
}

} // verus!
