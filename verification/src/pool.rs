use vstd::prelude::*;
use crate::queue::JobQueue;
use crate::queue::Message;
use crate::queue::Task;
use crate::worker::Worker;
use crate::worker::WorkerState;
use crate::worker::WorkerEvent;
use crate::PoolCreationError;

verus! {

/// How many messages at the front of the queue are jobs.
pub open spec fn leading_work<J>(s: Seq<Message<J>>) -> nat
    decreases s.len(),
{
    if s.len() == 0 {
        0
    } else if s[0] is Work {
        (leading_work(s.drop_first()) + 1) as nat
    } else {
        0
    }
}

/// Law: when everything queued is a job — as it always is outside the
/// teardown, which consumes its own signals — all of it is pending work, so
/// processing the pending work runs every queued job and leaves nothing
/// behind.
pub proof fn lemma_all_work_runs<J>(s: Seq<Message<J>>)
    requires
        forall|k: int| 0 <= k < s.len() ==> s[k] is Work,
    ensures
        leading_work(s) == s.len(),
    decreases s.len(),
{
    if s.len() > 0 {
        assert(forall|k: int| 0 <= k < s.drop_first().len() ==> s.drop_first()[k] == s[k + 1]);
        lemma_all_work_runs(s.drop_first());
    }
}

/// A fixed-size pool of workers sharing one FIFO job queue.
///
/// The pool is generic in two things. `H` is the thread handle it keeps for
/// each worker: the surrounding program stores the handle of the worker's
/// operating-system thread there, and the pool guarantees that each handle
/// leaves its slot at most once, so no thread is ever joined twice. `J` is
/// the one carrier type for jobs; a program with jobs of many shapes erases
/// them into one such type.
pub struct ThreadPool<H, J> {
    workers: Vec<Worker<H>>,
    queue: JobQueue<J>,
}

impl<H, J: Task> ThreadPool<H, J> {
    /// The pool's workers, in id order.
    pub closed spec fn spec_workers(&self) -> Seq<Worker<H>> {
        self.workers@
    }

    /// The messages queued and not yet delivered, oldest first.
    pub closed spec fn spec_queue(&self) -> Seq<Message<J>> {
        self.queue@
    }

    /// How many workers the pool was built with; never changes.
    pub open spec fn worker_count(&self) -> nat {
        self.spec_workers().len()
    }

    /// Every worker is waiting for a message and still owns its handle.
    pub open spec fn workers_live(&self) -> bool {
        forall|k: int|
            0 <= k < self.spec_workers().len() ==> (#[trigger] self.spec_workers()[k]).spec_state()
                == WorkerState::Waiting && self.spec_workers()[k].handle_present()
    }

    /// No worker is mid-job: each is waiting or already terminated.
    pub open spec fn no_worker_executing(&self) -> bool {
        forall|k: int|
            0 <= k < self.spec_workers().len() ==> (#[trigger] self.spec_workers()[k]).spec_state()
                != WorkerState::Executing
    }

    /// Every worker has terminated and its handle has been consumed.
    pub open spec fn workers_joined(&self) -> bool {
        forall|k: int|
            0 <= k < self.spec_workers().len() ==> (#[trigger] self.spec_workers()[k]).spec_state()
                == WorkerState::Terminated && !self.spec_workers()[k].handle_present()
    }

    /// Workers carry the ids 0, 1, ... N-1, in order.
    pub open spec fn ids_in_order(&self) -> bool {
        forall|k: int|
            0 <= k < self.spec_workers().len() ==> (#[trigger] self.spec_workers()[k]).spec_id()
                == k
    }

    /// Create a pool of exactly `size` workers sharing one fresh, empty
    /// queue. `spawner`, given a worker id, starts that worker's thread and
    /// returns its handle.
    ///
    /// Fails, spawning nothing, exactly when `size` is zero; otherwise every
    /// one of the `size` workers is spawned, waiting and in possession of its
    /// handle before the call returns.
    pub fn new<S: Fn(usize) -> H>(size: usize, spawner: S) -> (r: Result<
        ThreadPool<H, J>,
        PoolCreationError,
    >)
        requires
            forall|id: usize| id < size ==> spawner.requires((id,)),
        ensures
            r is Err <==> size == 0,
            r matches Ok(pool) ==> pool.worker_count() == size && pool.workers_live()
                && pool.ids_in_order() && pool.spec_queue().len() == 0,
    {
        if size == 0 {
            return Err(PoolCreationError);
        }
        let mut workers: Vec<Worker<H>> = Vec::with_capacity(size);
        let mut id: usize = 0;
        while id < size
            invariant
                id <= size,
                workers@.len() == id,
                forall|k: int|
                    0 <= k < id ==> (#[trigger] workers@[k]).spec_id() == k && workers@[k].spec_state()
                        == WorkerState::Waiting && workers@[k].handle_present(),
                forall|j: usize| j < size ==> spawner.requires((j,)),
            decreases size - id,
        {
            let handle = spawner(id);
            workers.push(Worker::new(id, handle));
            id = id + 1;
        }
        Ok(ThreadPool { workers, queue: JobQueue::new() })
    }

    /// How many workers the pool has.
    pub fn size(&self) -> (n: usize)
        ensures
            n == self.worker_count(),
    {
        self.workers.len()
    }

    /// How many messages are queued and not yet delivered.
    pub fn pending(&self) -> (n: usize)
        ensures
            n == self.spec_queue().len(),
    {
        self.queue.len()
    }

    /// A look at one worker.
    pub fn worker_at(&self, i: usize) -> (w: &Worker<H>)
        requires
            i < self.worker_count(),
        ensures
            *w == self.spec_workers()[i as int],
    {
        &self.workers[i]
    }

    /// Empty one worker's handle slot, handing its thread handle out the
    /// first time and nothing every time after, so the surrounding program
    /// can join the thread — and can never join it twice.
    pub fn take_worker_handle(&mut self, i: usize) -> (r: Option<H>)
        requires
            i < old(self).worker_count(),
        ensures
            final(self).worker_count() == old(self).worker_count(),
            r == old(self).spec_workers()[i as int].spec_handle(),
            !final(self).spec_workers()[i as int].handle_present(),
            final(self).spec_workers()[i as int].spec_id() == old(self).spec_workers()[i as int].spec_id(),
            final(self).spec_workers()[i as int].spec_state() == old(self).spec_workers()[i as int].spec_state(),
            forall|k: int|
                0 <= k < old(self).spec_workers().len() && k != i ==> final(self).spec_workers()[k]
                    == old(self).spec_workers()[k],
            final(self).spec_queue() == old(self).spec_queue(),
    {
        let mut worker = self.workers.remove(i);
        let r = worker.take_handle();
        self.workers.insert(i, worker);
        r
    }

    /// Hand one job to the pool: it is appended to the queue at once — the
    /// caller never blocks and nothing already queued is lost, duplicated or
    /// reordered — and will be delivered to exactly one worker. Nothing is
    /// reported back.
    pub fn execute(&mut self, job: J)
        ensures
            final(self).spec_workers() == old(self).spec_workers(),
            final(self).spec_queue() == old(self).spec_queue().push(Message::Work(job)),
    {
        self.queue.send(Message::Work(job));
    }

    /// Run every job now pending, oldest first, on the calling thread. Each
    /// is taken out of the queue before it runs, so each runs exactly once;
    /// the count of jobs run is returned and the workers are untouched.
    pub fn run_pending(&mut self) -> (n: usize)
        ensures
            n == leading_work(old(self).spec_queue()),
            final(self).spec_queue() == old(self).spec_queue().skip(n as int),
            final(self).spec_workers() == old(self).spec_workers(),
    {
        let total = self.queue.len();
        let mut n: usize = 0;
        while self.queue.front_is_work()
            invariant
                total == old(self).spec_queue().len(),
                n + self.spec_queue().len() == total,
                self.spec_queue() == old(self).spec_queue().skip(n as int),
                leading_work(old(self).spec_queue()) == n + leading_work(self.spec_queue()),
                self.spec_workers() == old(self).spec_workers(),
            decreases self.spec_queue().len(),
        {
            let ghost before = self.spec_queue();
            let msg = self.queue.receive();
            proof {
                assert(before.len() > 0);
                assert(n < old(self).spec_queue().len());
                assert(before.drop_first() =~= before.skip(1));
                old(self).spec_queue().lemma_seq_skip_skip(n as int);
                assert(self.spec_queue() =~= old(self).spec_queue().skip(n as int + 1));
            }
            match msg {
                Some(Message::Work(job)) => job.run(),
                Some(Message::Shutdown) => unreached(),
                None => unreached(),
            }
            n = n + 1;
        }
        n
    }

    /// Wind the pool down. First everything still queued is delivered — every
    /// pending job completes before any teardown step; then exactly one
    /// shutdown signal per worker is queued, all of them before any join, so
    /// no worker is left waiting forever; then each worker in turn observes
    /// exactly one of those signals, terminates, and has its thread handle
    /// consumed — once and never again: a worker whose handle is already gone
    /// is left exactly as it was, so running the teardown twice changes
    /// nothing the second time.
    pub fn shutdown(&mut self)
        ensures
            final(self).worker_count() == old(self).worker_count(),
            final(self).spec_queue().len() == 0,
            old(self).no_worker_executing() ==> final(self).workers_joined(),
            forall|k: int|
                0 <= k < old(self).spec_workers().len() ==> (#[trigger] final(self).spec_workers()[k]).spec_id()
                    == old(self).spec_workers()[k].spec_id(),
            old(self).workers_joined() ==> final(self).spec_workers() == old(self).spec_workers(),
    {
        // deliver everything still queued: pending jobs run to completion
        let _pending = self.run_pending();
        let mut leftover = self.queue.len();
        while leftover > 0
            invariant
                leftover == self.spec_queue().len(),
                self.spec_workers() == old(self).spec_workers(),
            decreases leftover,
        {
            let msg = self.queue.receive();
            match msg {
                Some(Message::Work(job)) => job.run(),
                Some(Message::Shutdown) => {},
                None => unreached(),
            }
            leftover = leftover - 1;
        }

        let n = self.workers.len();
        let ghost entry_workers = self.spec_workers();

        // phase one: exactly one shutdown signal per worker, all sent before
        // any join
        let mut i: usize = 0;
        while i < n
            invariant
                i <= n,
                n == self.spec_workers().len(),
                self.spec_workers() == entry_workers,
                self.spec_queue().len() == i,
                forall|k: int| 0 <= k < i ==> (#[trigger] self.spec_queue()[k]) is Shutdown,
            decreases n - i,
        {
            self.queue.send(Message::Shutdown);
            i = i + 1;
        }

        // phase two: each worker observes one signal, terminates, and its
        // handle leaves its slot at most once
        let mut joined: Vec<Worker<H>> = Vec::with_capacity(n);
        while self.workers.len() > 0
            invariant
                joined@.len() + self.workers@.len() == n,
                n == entry_workers.len(),
                entry_workers == old(self).spec_workers(),
                self.spec_queue().len() == self.workers@.len(),
                forall|k: int|
                    0 <= k < self.spec_queue().len() ==> (#[trigger] self.spec_queue()[k]) is Shutdown,
                forall|k: int|
                    0 <= k < self.workers@.len() ==> #[trigger] self.workers@[k] == entry_workers[
                        joined@.len() + k
                    ],
                forall|k: int|
                    0 <= k < joined@.len() ==> !(#[trigger] joined@[k]).handle_present()
                        && joined@[k].spec_id() == entry_workers[k].spec_id(),
                forall|k: int|
                    0 <= k < joined@.len() && entry_workers[k].spec_state()
                        != WorkerState::Executing ==> (#[trigger] joined@[k]).spec_state()
                        == WorkerState::Terminated,
                forall|k: int|
                    0 <= k < joined@.len() && entry_workers[k].spec_state()
                        == WorkerState::Terminated && !entry_workers[k].handle_present()
                        ==> #[trigger] joined@[k] == entry_workers[k],
            decreases self.workers@.len(),
        {
            let _signal = self.queue.receive();
            let mut worker = self.workers.remove(0);
            worker.on_event(WorkerEvent::GotShutdown);
            match worker.take_handle() {
                Some(handle) => {
                    // the surrounding program joins the thread behind this
                    // handle here; the pool's part is to hand it out once
                    let _ = handle;
                },
                None => {},
            }
            joined.push(worker);
        }
        self.workers = joined;

        proof {
            if old(self).workers_joined() {
                assert(self.spec_workers() =~= old(self).spec_workers());
            }
        }
    }
}

/// Law: a pool whose workers are all still waiting — as a freshly built pool
/// is — has no worker mid-job, so winding it down terminates and joins every
/// worker.
pub proof fn lemma_live_pool_shuts_down_clean<H, J: Task>(p: ThreadPool<H, J>)
    requires
        p.workers_live(),
    ensures
        p.no_worker_executing(),
{
}

} // verus!
