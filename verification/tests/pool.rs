use std::sync::Arc;
use std::sync::Mutex;
use std::sync::atomic::AtomicUsize;
use std::sync::atomic::Ordering;
use web_server::PoolCreationError;
use web_server::pool::ThreadPool;
use web_server::queue::JobQueue;
use web_server::queue::Message;
use web_server::queue::Task;
use web_server::worker::WorkerEvent;
use web_server::worker::WorkerState;
use web_server::worker::dispatch;
use web_server::worker::step;

struct CountJob(Arc<AtomicUsize>);

impl Task for CountJob {
    fn run(self) {
        self.0.fetch_add(1, Ordering::SeqCst);
    }
}

struct OrderJob {
    idx: usize,
    log: Arc<Mutex<Vec<usize>>>,
}

impl Task for OrderJob {
    fn run(self) {
        self.log.lock().unwrap().push(self.idx);
    }
}

#[test]
fn every_positive_size_yields_that_many_live_workers() {
    for n in 1usize..=8 {
        let pool = ThreadPool::<usize, CountJob>::new(n, |id| id).ok().unwrap();
        assert_eq!(pool.size(), n);
        for i in 0..n {
            let w = pool.worker_at(i);
            assert_eq!(w.id(), i);
            assert!(w.has_handle());
            assert_eq!(w.state(), WorkerState::Waiting);
        }
        assert_eq!(pool.pending(), 0);
    }
}

#[test]
fn zero_size_fails_and_creates_nothing() {
    let r = ThreadPool::<usize, CountJob>::new(0, |id| id);
    assert!(matches!(r, Err(PoolCreationError)));
}

#[test]
fn ten_jobs_all_run_once_through_a_pool_of_four() {
    let counter = Arc::new(AtomicUsize::new(0));
    let mut pool = ThreadPool::<usize, CountJob>::new(4, |id| id).ok().unwrap();
    for _ in 0..10 {
        pool.execute(CountJob(Arc::clone(&counter)));
    }
    assert_eq!(pool.pending(), 10);
    pool.shutdown();
    assert_eq!(counter.load(Ordering::SeqCst), 10);
    assert_eq!(pool.pending(), 0);
}

#[test]
fn jobs_are_delivered_in_order_none_lost_none_duplicated() {
    let log = Arc::new(Mutex::new(Vec::new()));
    let mut pool = ThreadPool::<usize, OrderJob>::new(2, |id| id).ok().unwrap();
    for idx in 0..5 {
        pool.execute(OrderJob { idx, log: Arc::clone(&log) });
    }
    let ran = pool.run_pending();
    assert_eq!(ran, 5);
    assert_eq!(*log.lock().unwrap(), vec![0, 1, 2, 3, 4]);
    pool.shutdown();
    assert_eq!(*log.lock().unwrap(), vec![0, 1, 2, 3, 4]);
}

#[test]
fn shutdown_terminates_every_worker_and_consumes_every_handle() {
    let mut pool = ThreadPool::<usize, CountJob>::new(3, |id| id).ok().unwrap();
    pool.shutdown();
    assert_eq!(pool.size(), 3);
    assert_eq!(pool.pending(), 0);
    for i in 0..3 {
        let w = pool.worker_at(i);
        assert_eq!(w.id(), i);
        assert_eq!(w.state(), WorkerState::Terminated);
        assert!(!w.has_handle());
    }
}

#[test]
fn second_shutdown_changes_nothing_and_takes_no_handle_twice() {
    let mut pool = ThreadPool::<usize, CountJob>::new(2, |id| id).ok().unwrap();
    pool.shutdown();
    pool.shutdown();
    assert_eq!(pool.size(), 2);
    for i in 0..2 {
        let w = pool.worker_at(i);
        assert_eq!(w.state(), WorkerState::Terminated);
        assert!(!w.has_handle());
    }
}

#[test]
fn queue_is_fifo_and_delivers_each_message_once() {
    let counter = Arc::new(AtomicUsize::new(0));
    let mut q: JobQueue<CountJob> = JobQueue::new();
    q.send(Message::Work(CountJob(Arc::clone(&counter))));
    q.send(Message::Shutdown);
    assert_eq!(q.len(), 2);
    assert!(q.front_is_work());
    match q.receive() {
        Some(Message::Work(job)) => job.run(),
        _ => panic!("expected the job first"),
    }
    assert_eq!(counter.load(Ordering::SeqCst), 1);
    assert!(!q.front_is_work());
    assert!(matches!(q.receive(), Some(Message::Shutdown)));
    assert!(q.receive().is_none());
    assert_eq!(q.len(), 0);
}

#[test]
fn dispatch_hands_work_out_and_ends_on_shutdown() {
    let counter = Arc::new(AtomicUsize::new(0));
    let m: Message<CountJob> = Message::Work(CountJob(Arc::clone(&counter)));
    match dispatch(m) {
        Some(job) => job.run(),
        None => panic!("a job must be handed out"),
    }
    assert_eq!(counter.load(Ordering::SeqCst), 1);
    let m2: Message<CountJob> = Message::Shutdown;
    assert!(dispatch(m2).is_none());
}

#[test]
fn a_crashed_worker_degrades_capacity_but_not_the_others() {
    // a job that never completes leaves its worker stuck outside Waiting:
    // it observes no further message, not even a shutdown signal
    let stuck = step(WorkerState::Waiting, WorkerEvent::GotWork);
    assert_eq!(stuck, WorkerState::Executing);
    assert_eq!(step(stuck, WorkerEvent::GotShutdown), WorkerState::Executing);
    // the remaining workers keep cycling and still terminate cleanly
    let mut other = WorkerState::Waiting;
    for _ in 0..3 {
        other = step(other, WorkerEvent::GotWork);
        other = step(other, WorkerEvent::FinishedJob);
        assert_eq!(other, WorkerState::Waiting);
    }
    assert_eq!(step(other, WorkerEvent::GotShutdown), WorkerState::Terminated);
}

#[test]
fn terminated_workers_stay_terminated() {
    for e in [WorkerEvent::GotWork, WorkerEvent::GotShutdown, WorkerEvent::FinishedJob] {
        assert_eq!(step(WorkerState::Terminated, e), WorkerState::Terminated);
    }
}
