use serve_rs::pool::{Action, Dispatcher, PoolError, WorkerState};

/// Drives every idle worker once: each asks for work and, when given
/// a job, executes and finishes it at once. Returns the jobs
/// delivered, in delivery order.
fn drive_round(d: &mut Dispatcher) -> Vec<u64> {
    let mut delivered = Vec::new();
    let n = d.worker_count();
    for w in 0..n {
        match d.workers[w] {
            WorkerState::Idle => {}
            _ => continue,
        }
        match d.next_action(w) {
            Action::Run(job) => {
                delivered.push(job);
                d.finish(w);
            }
            Action::Wait => {}
            Action::Terminate => {}
        }
    }
    delivered
}

#[test]
fn zero_size_pool_refused() {
    match Dispatcher::new(0) {
        Err(PoolError::ZeroSize) => {}
        Ok(_) => panic!("a pool of size zero must be refused"),
    }
}

#[test]
fn twenty_jobs_through_pool_of_ten() {
    // Twenty submissions against ten workers: every job is delivered
    // exactly once, none is lost, and the pool shuts down clean.
    let mut d = Dispatcher::new(10).expect("a positive size constructs");
    for job in 0..20u64 {
        assert!(d.submit(job));
    }
    assert_eq!(d.pending(), 20);
    let mut seen = Vec::new();
    while d.pending() > 0 {
        let round = drive_round(&mut d);
        assert!(round.len() <= 10, "one round delivers at most one job per worker");
        seen.extend_from_slice(&round);
    }
    seen.sort();
    let want: Vec<u64> = (0..20u64).collect();
    assert_eq!(seen, want, "every job delivered exactly once");
    d.close();
    drive_round(&mut d);
    assert!(d.all_done(), "after close and drain every worker terminates");
}

#[test]
fn at_most_pool_size_jobs_run_at_once() {
    let mut d = Dispatcher::new(3).expect("constructs");
    for job in 0..9u64 {
        assert!(d.submit(job));
    }
    // Let every worker take a job without finishing it.
    let mut running = 0;
    for w in 0..d.worker_count() {
        match d.next_action(w) {
            Action::Run(_) => running += 1,
            _ => {}
        }
    }
    assert_eq!(running, 3, "all three workers run");
    assert_eq!(d.pending(), 6, "the rest stays queued, none dropped");
    // No idle worker is left, so nothing more can start.
    for w in 0..d.worker_count() {
        d.finish(w);
    }
}

#[test]
fn submit_after_close_refused() {
    let mut d = Dispatcher::new(2).expect("constructs");
    assert!(d.submit(1));
    d.close();
    assert!(!d.submit(2), "a closed queue takes no submission");
    assert_eq!(d.pending(), 1, "the refused job was not queued");
}

#[test]
fn close_drains_pending_jobs_before_termination() {
    let mut d = Dispatcher::new(2).expect("constructs");
    for job in 0..5u64 {
        assert!(d.submit(job));
    }
    d.close();
    let mut seen = Vec::new();
    while d.pending() > 0 {
        seen.extend_from_slice(&drive_round(&mut d));
    }
    seen.sort();
    let want: Vec<u64> = (0..5u64).collect();
    assert_eq!(seen, want, "jobs queued before close still execute");
    drive_round(&mut d);
    assert!(d.all_done());
}

#[test]
fn open_empty_queue_makes_workers_wait() {
    let mut d = Dispatcher::new(2).expect("constructs");
    match d.next_action(0) {
        Action::Wait => {}
        _ => panic!("an open empty queue means wait, not terminate"),
    }
    assert!(!d.all_done());
    match d.workers[0] {
        WorkerState::Idle => {}
        _ => panic!("a waiting worker stays idle"),
    }
}

#[test]
fn delivery_is_in_submission_order() {
    let mut d = Dispatcher::new(1).expect("constructs");
    for job in [7u64, 3, 9] {
        assert!(d.submit(job));
    }
    let mut order = Vec::new();
    while d.pending() > 0 {
        order.extend_from_slice(&drive_round(&mut d));
    }
    assert_eq!(order, vec![7, 3, 9], "the queue delivers front first");
}
