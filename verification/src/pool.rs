//! The worker pool: a fixed set of workers, each with a mailbox of its own.
//!
//! A message is bound to one worker by its routing key and waits in that
//! worker's mailbox. A worker takes the oldest message of its mailbox, works
//! on it to the end, and reports it finished before it takes the next; so the
//! messages of one routing key are answered in the order in which they were
//! submitted. Every accepted message gets a ticket: the worker it was bound
//! to and its place in that worker's arrival order. `finish` hands the
//! tickets back in exactly that order, each once.
//!
//! Mailboxes are unbounded: `submit` never blocks and never pushes back. It
//! fails, at once, only when the pool has been shut down, has no workers, or
//! the routed worker has used up its ticket numbers. A shut down pool takes
//! no new messages; what is already in a mailbox is still worked off.
//!
//! The pool holds no thread and no lock. Whoever runs the workers calls
//! `turn` and `finish` for each of them, and keeps the pool behind a lock if
//! the workers run side by side; every order in which their calls can come is
//! one of the histories of which `pool_laws` and `order_laws` speak.

use vstd::prelude::*;
use std::collections::VecDeque;

verus! {

/// The receipt for an accepted message.
#[derive(Clone, Copy, Debug, PartialEq, Eq, Structural)]
pub struct Ticket {
    /// The worker whose mailbox holds the message.
    pub worker: usize,
    /// How many messages that worker had accepted before this one.
    pub seq: u64,
}

/// Why a message was not accepted.
#[derive(Clone, Copy, Debug, PartialEq, Eq, Structural)]
pub enum DispatchError {
    /// No mailbox is open for the message.
    Unavailable,
}

/// What a worker is to do next.
#[derive(Debug, PartialEq, Eq)]
pub enum Turn<M> {
    /// Work on this message to the end, then call `finish`.
    Work { ticket: Ticket, message: M },
    /// There is nothing to do now; ask again when a message may have come.
    Wait,
    /// There is nothing to do and nothing will come: stop.
    Stop,
}

/// One worker's mailbox as a mathematical value.
pub struct MailboxView<M> {
    /// The messages that wait, oldest first.
    pub pending: Seq<M>,
    /// How many messages the worker has finished.
    pub delivered: nat,
    /// Whether the worker is at work on a message.
    pub busy: bool,
}

impl<M> MailboxView<M> {
    /// The mailbox of a worker that has not seen a message yet.
    pub open spec fn fresh() -> Self {
        MailboxView { pending: Seq::<M>::empty(), delivered: 0, busy: false }
    }

    /// How many messages were taken out of the mailbox so far.
    pub open spec fn taken(self) -> nat {
        if self.busy {
            self.delivered + 1
        } else {
            self.delivered
        }
    }

    /// How many messages the mailbox has accepted so far: the ticket number of
    /// the next one.
    pub open spec fn accepted(self) -> nat {
        self.taken() + self.pending.len()
    }
}

/// The pool as a mathematical value.
pub struct PoolView<M> {
    /// Whether the pool still takes messages.
    pub open: bool,
    /// The mailboxes, one for each worker.
    pub workers: Seq<MailboxView<M>>,
}

/// The worker that messages with routing key `key` are bound to in a pool of
/// `size` workers.
pub open spec fn routed(key: u64, size: nat) -> int {
    (key as int) % (size as int)
}

impl<M> PoolView<M> {
    /// The pool right after its start.
    pub open spec fn started(size: nat) -> Self {
        PoolView { open: true, workers: Seq::new(size, |i: int| MailboxView::<M>::fresh()) }
    }

    /// The workers can be counted in a `usize`, and no mailbox has run past
    /// its ticket numbers. This holds of every pool.
    pub open spec fn wf(self) -> bool {
        &&& self.workers.len() <= usize::MAX
        &&& forall|w: int|
            0 <= w < self.workers.len() ==> (#[trigger] self.workers[w]).accepted() <= u64::MAX
    }

    /// Whether a message with routing key `key` is accepted.
    pub open spec fn accepts(self, key: u64) -> bool {
        &&& self.open
        &&& self.workers.len() > 0
        &&& self.workers[routed(key, self.workers.len())].accepted() < u64::MAX
    }

    /// The ticket that a message with routing key `key` gets.
    pub open spec fn next_ticket(self, key: u64) -> Ticket {
        let w = routed(key, self.workers.len());
        Ticket { worker: w as usize, seq: self.workers[w].accepted() as u64 }
    }

    /// The pool after `submit`.
    pub open spec fn submit(self, key: u64, message: M) -> Self {
        if self.accepts(key) {
            let w = routed(key, self.workers.len());
            let mailbox = self.workers[w];
            PoolView {
                workers: self.workers.update(
                    w,
                    MailboxView { pending: mailbox.pending.push(message), ..mailbox },
                ),
                ..self
            }
        } else {
            self
        }
    }

    /// Whether worker `w` can take a message: it exists, is idle, and its
    /// mailbox is not empty.
    pub open spec fn can_begin(self, w: int) -> bool {
        &&& 0 <= w < self.workers.len()
        &&& !self.workers[w].busy
        &&& self.workers[w].pending.len() > 0
    }

    /// The pool after `begin`.
    pub open spec fn begin(self, w: int) -> Self {
        if self.can_begin(w) {
            let mailbox = self.workers[w];
            PoolView {
                workers: self.workers.update(
                    w,
                    MailboxView { pending: mailbox.pending.drop_first(), busy: true, ..mailbox },
                ),
                ..self
            }
        } else {
            self
        }
    }

    /// Whether worker `w` can report a message finished: it exists and is at
    /// work on one.
    pub open spec fn can_finish(self, w: int) -> bool {
        &&& 0 <= w < self.workers.len()
        &&& self.workers[w].busy
    }

    /// The pool after `finish`.
    pub open spec fn finish(self, w: int) -> Self {
        if self.can_finish(w) {
            let mailbox = self.workers[w];
            PoolView {
                workers: self.workers.update(
                    w,
                    MailboxView { delivered: mailbox.delivered + 1, busy: false, ..mailbox },
                ),
                ..self
            }
        } else {
            self
        }
    }

    /// The pool after `shutdown`.
    pub open spec fn shutdown(self) -> Self {
        PoolView { open: false, ..self }
    }

    /// Whether worker `w` has nothing left to do, now and for good: there is
    /// no such worker, or the pool is shut down, the worker idle and its
    /// mailbox empty.
    pub open spec fn is_done(self, w: int) -> bool {
        ||| !(0 <= w < self.workers.len())
        ||| (!self.open && !self.workers[w].busy && self.workers[w].pending.len() == 0)
    }
}

/// Binds routing key `key` to one of `pool_size` workers. There is no worker
/// to bind to in an empty pool.
pub fn route(key: u64, pool_size: usize) -> (worker: Option<usize>)
    ensures
        match worker {
            Some(w) => pool_size > 0 && w == routed(key, pool_size as nat),
            None => pool_size == 0,
        },
{
    if pool_size == 0 {
        None
    } else {
        let w: u64 = key % (pool_size as u64);
        Some(w as usize)
    }
}

/// The number of processors this process can use, from `num_cpus::get`. The
/// count differs from machine to machine and from run to run; all that is
/// claimed is what `num_cpus` documents of every result: it is at least 1.
#[verifier::external_body]
fn available_cpus() -> (cpus: usize)
    ensures
        cpus >= 1,
{
    num_cpus::get()
}

/// The size of a pool when none is asked for: one worker for each processor
/// that can run one, the most blocking calls the machine can carry at once.
pub fn default_pool_size() -> (size: usize)
    ensures
        size >= 1,
{
    available_cpus()
}

struct Mailbox<M> {
    queue: VecDeque<M>,
    delivered: u64,
    busy: bool,
}

impl<M> View for Mailbox<M> {
    type V = MailboxView<M>;

    closed spec fn view(&self) -> MailboxView<M> {
        MailboxView { pending: self.queue@, delivered: self.delivered as nat, busy: self.busy }
    }
}

/// A fixed set of workers and their mailboxes.
pub struct WorkerPool<M> {
    mailboxes: Vec<Mailbox<M>>,
    open: bool,
}

impl<M> View for WorkerPool<M> {
    type V = PoolView<M>;

    closed spec fn view(&self) -> PoolView<M> {
        PoolView { open: self.open, workers: views_of(self.mailboxes@) }
    }
}

/// The mailboxes as mathematical values, worker by worker.
spec fn views_of<M>(mailboxes: Seq<Mailbox<M>>) -> Seq<MailboxView<M>> {
    Seq::new(mailboxes.len(), |i: int| mailboxes[i]@)
}

impl<M> WorkerPool<M> {
    #[verifier::type_invariant]
    spec fn inv(self) -> bool {
        self@.wf()
    }

    /// Starts a pool of `pool_size` workers, all idle, all mailboxes empty.
    pub fn start(pool_size: usize) -> (pool: Self)
        ensures
            pool@ == PoolView::<M>::started(pool_size as nat),
            pool@.wf(),
    {
        let mut mailboxes: Vec<Mailbox<M>> = Vec::new();
        let mut i: usize = 0;
        while i < pool_size
            invariant
                i <= pool_size,
                mailboxes@.len() == i,
                forall|j: int| 0 <= j < i ==> (#[trigger] mailboxes@[j])@ == MailboxView::<M>::fresh(),
            decreases pool_size - i,
        {
            mailboxes.push(Mailbox { queue: VecDeque::new(), delivered: 0, busy: false });
            i = i + 1;
        }
        assert(views_of(mailboxes@) =~= PoolView::<M>::started(pool_size as nat).workers);
        WorkerPool { mailboxes, open: true }
    }

    /// Starts a pool of the default size.
    pub fn start_default() -> (pool: Self)
        ensures
            pool@.workers.len() >= 1,
            pool@ == PoolView::<M>::started(pool@.workers.len()),
            pool@.wf(),
    {
        Self::start(default_pool_size())
    }

    /// The number of workers.
    pub fn size(&self) -> (size: usize)
        ensures
            size == self@.workers.len(),
    {
        self.mailboxes.len()
    }

    /// Whether the pool still takes messages.
    pub fn is_open(&self) -> (open: bool)
        ensures
            open == self@.open,
    {
        self.open
    }

    /// Hands a message with routing key `key` to the pool. If the pool
    /// accepts it, the message goes to the back of the routed worker's
    /// mailbox and its ticket comes back. If not, nothing changes and the
    /// message is dropped; the caller learns so at once.
    pub fn submit(&mut self, key: u64, message: M) -> (receipt: Result<Ticket, DispatchError>)
        ensures
            old(self)@.wf(),
            final(self)@.wf(),
            final(self)@ == old(self)@.submit(key, message),
            match receipt {
                Ok(ticket) => old(self)@.accepts(key) && ticket == old(self)@.next_ticket(key),
                Err(error) => !old(self)@.accepts(key) && error == DispatchError::Unavailable,
            },
    {
        proof {
            use_type_invariant(&*self);
        }
        if !self.open {
            return Err(DispatchError::Unavailable);
        }
        let worker: usize = match route(key, self.mailboxes.len()) {
            Some(w) => w,
            None => {
                return Err(DispatchError::Unavailable);
            },
        };
        let ghost before = self@;
        assert(before.workers[worker as int] == self.mailboxes@[worker as int]@);
        let taken: u64 = if self.mailboxes[worker].busy {
            self.mailboxes[worker].delivered + 1
        } else {
            self.mailboxes[worker].delivered
        };
        let waiting: usize = self.mailboxes[worker].queue.len();
        if waiting as u128 + taken as u128 >= u64::MAX as u128 {
            return Err(DispatchError::Unavailable);
        }
        let seq: u64 = taken + waiting as u64;
        let mut mailboxes: Vec<Mailbox<M>> = Vec::new();
        std::mem::swap(&mut mailboxes, &mut self.mailboxes);
        mailboxes[worker].queue.push_back(message);
        assert(views_of(mailboxes@) =~= before.submit(key, message).workers);
        self.mailboxes = mailboxes;
        Ok(Ticket { worker, seq })
    }

    /// Lets worker `worker` take the oldest message of its mailbox. It gets
    /// one only if it is idle and a message waits; the worker is then at work
    /// until it calls `finish`. The ticket is the one that `submit` gave for
    /// this message.
    pub fn begin(&mut self, worker: usize) -> (taken: Option<(Ticket, M)>)
        ensures
            old(self)@.wf(),
            final(self)@.wf(),
            final(self)@ == old(self)@.begin(worker as int),
            match taken {
                Some((ticket, message)) => {
                    &&& old(self)@.can_begin(worker as int)
                    &&& ticket == (Ticket {
                        worker,
                        seq: old(self)@.workers[worker as int].delivered as u64,
                    })
                    &&& message == old(self)@.workers[worker as int].pending[0]
                },
                None => !old(self)@.can_begin(worker as int),
            },
    {
        proof {
            use_type_invariant(&*self);
        }
        if worker >= self.mailboxes.len() || self.mailboxes[worker].busy {
            return None;
        }
        let ghost before = self@;
        let seq: u64 = self.mailboxes[worker].delivered;
        let mut mailboxes: Vec<Mailbox<M>> = Vec::new();
        std::mem::swap(&mut mailboxes, &mut self.mailboxes);
        let oldest: Option<M> = mailboxes[worker].queue.pop_front();
        let taken: Option<(Ticket, M)> = match oldest {
            Some(message) => {
                mailboxes[worker].busy = true;
                Some((Ticket { worker, seq }, message))
            },
            None => None,
        };
        assert(views_of(mailboxes@) =~= before.begin(worker as int).workers);
        self.mailboxes = mailboxes;
        taken
    }

    /// Tells worker `worker` what to do next, and hands it its oldest message
    /// if it can take one, as `begin` does. A worker that has nothing left to
    /// do for good is told to stop; any other is told to wait.
    pub fn turn(&mut self, worker: usize) -> (turn: Turn<M>)
        ensures
            old(self)@.wf(),
            final(self)@.wf(),
            final(self)@ == old(self)@.begin(worker as int),
            match turn {
                Turn::Work { ticket, message } => {
                    &&& old(self)@.can_begin(worker as int)
                    &&& ticket == (Ticket {
                        worker,
                        seq: old(self)@.workers[worker as int].delivered as u64,
                    })
                    &&& message == old(self)@.workers[worker as int].pending[0]
                },
                Turn::Wait => !old(self)@.can_begin(worker as int) && !old(self)@.is_done(
                    worker as int,
                ),
                Turn::Stop => old(self)@.is_done(worker as int),
            },
    {
        match self.begin(worker) {
            Some((ticket, message)) => Turn::Work { ticket, message },
            None => {
                if worker >= self.mailboxes.len() {
                    Turn::Stop
                } else if !self.open && !self.mailboxes[worker].busy {
                    Turn::Stop
                } else {
                    Turn::Wait
                }
            },
        }
    }

    /// Lets worker `worker` report the message it is at work on as finished:
    /// this is the moment its response is delivered. The ticket of that
    /// message comes back, and the worker is idle again. A worker that is not
    /// at work has nothing to report.
    pub fn finish(&mut self, worker: usize) -> (done: Option<Ticket>)
        ensures
            old(self)@.wf(),
            final(self)@.wf(),
            final(self)@ == old(self)@.finish(worker as int),
            match done {
                Some(ticket) => {
                    &&& old(self)@.can_finish(worker as int)
                    &&& ticket == (Ticket {
                        worker,
                        seq: old(self)@.workers[worker as int].delivered as u64,
                    })
                },
                None => !old(self)@.can_finish(worker as int),
            },
    {
        proof {
            use_type_invariant(&*self);
        }
        if worker >= self.mailboxes.len() || !self.mailboxes[worker].busy {
            return None;
        }
        let ghost before = self@;
        let seq: u64 = self.mailboxes[worker].delivered;
        let mut mailboxes: Vec<Mailbox<M>> = Vec::new();
        std::mem::swap(&mut mailboxes, &mut self.mailboxes);
        mailboxes[worker].delivered = seq + 1;
        mailboxes[worker].busy = false;
        assert(views_of(mailboxes@) =~= before.finish(worker as int).workers);
        self.mailboxes = mailboxes;
        Some(Ticket { worker, seq })
    }

    /// Closes the pool for new messages. What waits in a mailbox stays there
    /// and is still worked off.
    pub fn shutdown(&mut self)
        ensures
            old(self)@.wf(),
            final(self)@.wf(),
            final(self)@ == old(self)@.shutdown(),
    {
        proof {
            use_type_invariant(&*self);
        }
        self.open = false;
    }

    /// How many messages wait in the mailbox of worker `worker`, if there is
    /// such a worker.
    pub fn pending(&self, worker: usize) -> (waiting: Option<usize>)
        ensures
            match waiting {
                Some(n) => worker < self@.workers.len() && n == self@.workers[worker as int].pending.len(),
                None => worker >= self@.workers.len(),
            },
    {
        if worker < self.mailboxes.len() {
            Some(self.mailboxes[worker].queue.len())
        } else {
            None
        }
    }

    /// Whether worker `worker` is at work on a message. A worker that does
    /// not exist is not.
    pub fn is_busy(&self, worker: usize) -> (busy: bool)
        ensures
            busy <==> self@.can_finish(worker as int),
    {
        if worker < self.mailboxes.len() {
            self.mailboxes[worker].busy
        } else {
            false
        }
    }

    /// How many messages worker `worker` has finished, if there is such a
    /// worker.
    pub fn delivered(&self, worker: usize) -> (count: Option<u64>)
        ensures
            match count {
                Some(n) => worker < self@.workers.len() && n == self@.workers[worker as int].delivered,
                None => worker >= self@.workers.len(),
            },
    {
        if worker < self.mailboxes.len() {
            Some(self.mailboxes[worker].delivered)
        } else {
            None
        }
    }
}

} // verus!
