use server::pool::Pool;

#[test]
fn ids_are_handed_out_in_submission_order() {
    let mut pool = Pool::new(2);
    let mut ids = Vec::new();
    for _ in 0..5 {
        ids.push(pool.submit().unwrap());
    }
    assert_eq!(ids, vec![0, 1, 2, 3, 4]);
    assert_eq!(pool.pending_count(), 5);
    assert_eq!(pool.submitted_count(), 5);
}

#[test]
fn never_more_running_jobs_than_workers_and_every_job_completes_once() {
    let mut pool = Pool::new(2);
    let n: usize = 7;
    for _ in 0..n {
        pool.submit().unwrap();
    }
    let mut completions = 0;
    while completions < n {
        let mut started = Vec::new();
        while let Some(id) = pool.start_job() {
            started.push(id);
            assert!(pool.running_count() <= pool.worker_count());
        }
        assert!(started.len() <= pool.worker_count());
        for id in started {
            assert!(pool.is_running(id));
            pool.finish_job(id, true);
            assert!(!pool.is_running(id));
            completions += 1;
        }
    }
    assert_eq!(pool.completed_count(), n);
    assert_eq!(pool.pending_count(), 0);
    assert_eq!(pool.running_count(), 0);
}

#[test]
fn dequeue_order_follows_submission_order() {
    let mut pool = Pool::new(1);
    for _ in 0..3 {
        pool.submit().unwrap();
    }
    assert_eq!(pool.start_job(), Some(0));
    assert_eq!(pool.start_job(), None);
    pool.finish_job(0, true);
    assert_eq!(pool.start_job(), Some(1));
    pool.finish_job(1, true);
    assert_eq!(pool.start_job(), Some(2));
}

#[test]
fn failed_job_does_not_stall_the_pool() {
    let mut pool = Pool::new(1);
    for _ in 0..3 {
        pool.submit().unwrap();
    }
    let first = pool.start_job().unwrap();
    pool.finish_job(first, false);
    assert!(pool.is_accepting());
    let second = pool.start_job();
    assert_eq!(second, Some(1));
    pool.finish_job(1, true);
    assert_eq!(pool.start_job(), Some(2));
    pool.finish_job(2, false);
    assert_eq!(pool.completed_count(), 3);
    assert!(pool.submit().is_some());
}

#[test]
fn start_on_an_empty_queue_returns_nothing() {
    let mut pool = Pool::new(3);
    assert_eq!(pool.start_job(), None);
    assert_eq!(pool.running_count(), 0);
}

#[test]
fn closing_stops_new_jobs_but_keeps_queued_ones() {
    let mut pool = Pool::new(1);
    pool.submit().unwrap();
    pool.submit().unwrap();
    pool.close();
    assert!(!pool.is_accepting());
    assert_eq!(pool.submit(), None);
    assert_eq!(pool.pending_count(), 2);
    assert_eq!(pool.start_job(), Some(0));
    pool.finish_job(0, true);
    assert_eq!(pool.start_job(), Some(1));
    pool.close();
    assert_eq!(pool.submit(), None);
}
