use survey_backend::pool::{default_pool_size, route, DispatchError, Ticket, Turn, WorkerPool};

#[test]
fn route_is_the_key_modulo_the_size() {
    assert_eq!(route(0, 4), Some(0));
    assert_eq!(route(1, 4), Some(1));
    assert_eq!(route(5, 4), Some(1));
    assert_eq!(route(7, 4), Some(3));
    assert_eq!(route(8, 4), Some(0));
    assert_eq!(route(u64::MAX, 4), Some(3));
    assert_eq!(route(u64::MAX, 1), Some(0));
    assert_eq!(route(12_345, 7), Some(4));
}

#[test]
fn route_has_no_worker_in_an_empty_pool() {
    assert_eq!(route(0, 0), None);
    assert_eq!(route(99, 0), None);
}

#[test]
fn consecutive_keys_spread_evenly() {
    let size: usize = 4;
    let mut hits: Vec<u32> = vec![0; size];
    let mut key: u64 = 1_000;
    while key < 1_100 {
        hits[route(key, size).unwrap()] += 1;
        key += 1;
    }
    assert_eq!(hits, vec![25, 25, 25, 25]);
}

#[test]
fn a_started_pool_is_open_idle_and_empty() {
    let pool: WorkerPool<u32> = WorkerPool::start(3);
    assert_eq!(pool.size(), 3);
    assert!(pool.is_open());
    for w in 0..3usize {
        assert_eq!(pool.pending(w), Some(0));
        assert_eq!(pool.delivered(w), Some(0));
        assert!(!pool.is_busy(w));
    }
    assert_eq!(pool.pending(3), None);
    assert_eq!(pool.delivered(3), None);
    assert!(!pool.is_busy(3));
}

#[test]
fn default_size_is_at_least_one() {
    assert!(default_pool_size() >= 1);
    let pool: WorkerPool<u8> = WorkerPool::start_default();
    assert!(pool.size() >= 1);
    assert_eq!(pool.size(), default_pool_size());
    assert!(pool.is_open());
    assert_eq!(pool.pending(0), Some(0));
}

#[test]
fn submit_gives_tickets_in_arrival_order() {
    let mut pool: WorkerPool<&str> = WorkerPool::start(2);
    assert_eq!(pool.submit(0, "a"), Ok(Ticket { worker: 0, seq: 0 }));
    assert_eq!(pool.submit(1, "b"), Ok(Ticket { worker: 1, seq: 0 }));
    assert_eq!(pool.submit(2, "c"), Ok(Ticket { worker: 0, seq: 1 }));
    assert_eq!(pool.submit(4, "d"), Ok(Ticket { worker: 0, seq: 2 }));
    assert_eq!(pool.pending(0), Some(3));
    assert_eq!(pool.pending(1), Some(1));
}

#[test]
fn a_worker_takes_the_oldest_message_and_one_at_a_time() {
    let mut pool: WorkerPool<&str> = WorkerPool::start(2);
    pool.submit(0, "first").unwrap();
    pool.submit(2, "second").unwrap();
    assert_eq!(pool.begin(0), Some((Ticket { worker: 0, seq: 0 }, "first")));
    assert!(pool.is_busy(0));
    assert_eq!(pool.pending(0), Some(1));
    // not before the first is finished
    assert_eq!(pool.begin(0), None);
    assert_eq!(pool.pending(0), Some(1));
    assert_eq!(pool.finish(0), Some(Ticket { worker: 0, seq: 0 }));
    assert!(!pool.is_busy(0));
    assert_eq!(pool.delivered(0), Some(1));
    assert_eq!(pool.begin(0), Some((Ticket { worker: 0, seq: 1 }, "second")));
    assert_eq!(pool.finish(0), Some(Ticket { worker: 0, seq: 1 }));
    assert_eq!(pool.delivered(0), Some(2));
    assert_eq!(pool.begin(0), None);
}

#[test]
fn nothing_to_take_and_nothing_to_finish() {
    let mut pool: WorkerPool<u8> = WorkerPool::start(2);
    assert_eq!(pool.begin(0), None);
    assert_eq!(pool.finish(0), None);
    assert_eq!(pool.begin(2), None);
    assert_eq!(pool.finish(2), None);
    pool.submit(1, 9).unwrap();
    assert_eq!(pool.begin(0), None);
    assert_eq!(pool.finish(1), None);
    assert_eq!(pool.pending(1), Some(1));
    assert_eq!(pool.delivered(1), Some(0));
}

#[test]
fn a_message_is_finished_only_once() {
    let mut pool: WorkerPool<u8> = WorkerPool::start(1);
    pool.submit(0, 1).unwrap();
    pool.begin(0).unwrap();
    assert_eq!(pool.finish(0), Some(Ticket { worker: 0, seq: 0 }));
    assert_eq!(pool.finish(0), None);
    assert_eq!(pool.delivered(0), Some(1));
}

#[test]
fn same_routing_key_is_answered_in_submission_order() {
    let mut pool: WorkerPool<u32> = WorkerPool::start(4);
    let key: u64 = 42;
    let mut tickets: Vec<Ticket> = Vec::new();
    for n in 0..20u32 {
        // other callers in between
        pool.submit(u64::from(n), 1_000 + n).unwrap();
        tickets.push(pool.submit(key, n).unwrap());
    }
    let worker: usize = route(key, 4).unwrap();
    let mut answered: Vec<u32> = Vec::new();
    let mut finished: Vec<Ticket> = Vec::new();
    while let Some((_, message)) = pool.begin(worker) {
        let done: Ticket = pool.finish(worker).unwrap();
        if message < 1_000 {
            answered.push(message);
            finished.push(done);
        }
    }
    let expected: Vec<u32> = (0..20u32).collect();
    assert_eq!(answered, expected);
    assert_eq!(finished, tickets);
    for pair in tickets.windows(2) {
        assert_eq!(pair[0].worker, pair[1].worker);
        assert!(pair[0].seq < pair[1].seq);
    }
}

#[test]
fn submit_after_shutdown_fails_at_once() {
    let mut pool: WorkerPool<u8> = WorkerPool::start(2);
    pool.submit(0, 1).unwrap();
    pool.shutdown();
    assert!(!pool.is_open());
    assert_eq!(pool.submit(0, 2), Err(DispatchError::Unavailable));
    assert_eq!(pool.submit(1, 3), Err(DispatchError::Unavailable));
    assert_eq!(pool.pending(0), Some(1));
    assert_eq!(pool.pending(1), Some(0));
    pool.shutdown();
    assert_eq!(pool.submit(7, 4), Err(DispatchError::Unavailable));
}

#[test]
fn what_waits_at_shutdown_is_still_answered() {
    let mut pool: WorkerPool<u8> = WorkerPool::start(1);
    pool.submit(0, 10).unwrap();
    pool.submit(0, 11).unwrap();
    pool.begin(0).unwrap();
    pool.shutdown();
    assert_eq!(pool.finish(0), Some(Ticket { worker: 0, seq: 0 }));
    assert_eq!(pool.begin(0), Some((Ticket { worker: 0, seq: 1 }, 11)));
    assert_eq!(pool.finish(0), Some(Ticket { worker: 0, seq: 1 }));
    assert_eq!(pool.pending(0), Some(0));
    assert_eq!(pool.delivered(0), Some(2));
}

#[test]
fn a_pool_without_workers_takes_nothing() {
    let mut pool: WorkerPool<u8> = WorkerPool::start(0);
    assert_eq!(pool.size(), 0);
    assert!(pool.is_open());
    assert_eq!(pool.submit(0, 1), Err(DispatchError::Unavailable));
    assert_eq!(pool.begin(0), None);
    assert_eq!(pool.finish(0), None);
}

#[test]
fn four_workers_answer_a_hundred_submissions_each_once() {
    let size: usize = 4;
    let mut pool: WorkerPool<u64> = WorkerPool::start(size);
    let mut issued: Vec<Ticket> = Vec::new();
    for key in 0..100u64 {
        issued.push(pool.submit(key, key * 3).unwrap());
    }
    for w in 0..size {
        assert_eq!(pool.pending(w), Some(25));
    }
    let mut delivered: Vec<Ticket> = Vec::new();
    let mut answers: Vec<u64> = Vec::new();
    // the workers take turns, as if they ran side by side
    let mut progress: bool = true;
    while progress {
        progress = false;
        for w in 0..size {
            if let Some((ticket, message)) = pool.begin(w) {
                progress = true;
                answers.push(message);
                assert_eq!(pool.finish(w), Some(ticket));
                delivered.push(ticket);
            }
        }
    }
    assert_eq!(delivered.len(), 100);
    for ticket in &issued {
        let times: usize = delivered.iter().filter(|d| *d == ticket).count();
        assert_eq!(times, 1);
    }
    answers.sort();
    let expected: Vec<u64> = (0..100u64).map(|k| k * 3).collect();
    assert_eq!(answers, expected);
    for w in 0..size {
        assert_eq!(pool.pending(w), Some(0));
        assert_eq!(pool.delivered(w), Some(25));
        assert!(!pool.is_busy(w));
        assert_eq!(pool.begin(w), None);
        assert_eq!(pool.finish(w), None);
    }
}

#[test]
fn tickets_are_never_given_twice() {
    let mut pool: WorkerPool<()> = WorkerPool::start(3);
    let mut seen: Vec<Ticket> = Vec::new();
    for round in 0..30u64 {
        let ticket: Ticket = pool.submit(round * 7, ()).unwrap();
        assert!(!seen.contains(&ticket));
        seen.push(ticket);
        if round % 2 == 0 {
            let w: usize = (round % 3) as usize;
            if pool.begin(w).is_some() {
                pool.finish(w).unwrap();
            }
        }
    }
}

#[test]
fn a_worker_is_told_to_work_wait_or_stop() {
    let mut pool: WorkerPool<u8> = WorkerPool::start(2);
    // open and empty: wait
    assert_eq!(pool.turn(0), Turn::Wait);
    pool.submit(0, 7).unwrap();
    assert_eq!(pool.turn(1), Turn::Wait);
    assert_eq!(pool.turn(0), Turn::Work { ticket: Ticket { worker: 0, seq: 0 }, message: 7 });
    // at work: nothing more until it has finished
    pool.submit(0, 8).unwrap();
    assert_eq!(pool.turn(0), Turn::Wait);
    assert_eq!(pool.pending(0), Some(1));
    pool.finish(0).unwrap();
    pool.shutdown();
    // shut down, but a message still waits
    assert_eq!(pool.turn(1), Turn::Stop);
    assert_eq!(pool.turn(0), Turn::Work { ticket: Ticket { worker: 0, seq: 1 }, message: 8 });
    // shut down and at work: not done yet
    assert_eq!(pool.turn(0), Turn::Wait);
    pool.finish(0).unwrap();
    assert_eq!(pool.turn(0), Turn::Stop);
    assert_eq!(pool.turn(0), Turn::Stop);
}

#[test]
fn a_worker_that_does_not_exist_is_told_to_stop() {
    let mut pool: WorkerPool<u8> = WorkerPool::start(2);
    assert_eq!(pool.turn(2), Turn::Stop);
    let mut empty: WorkerPool<u8> = WorkerPool::start(0);
    assert_eq!(empty.turn(0), Turn::Stop);
}
