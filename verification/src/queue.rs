use vstd::prelude::*;
use std::collections::VecDeque;

verus! {

/// A unit of work: a single-use callable with no arguments and no result. It
/// is transferred (never shared) from the submitter into the queue and from
/// the queue into exactly one worker, so it is invoked at most once. A
/// program with jobs of many shapes implements this for one carrier type of
/// its own (an enum of its job forms, or a type erasing them) and gives the
/// pool that type.
pub trait Task: Send {
    fn run(self);
}

/// Adapter turning an `FnOnce` closure into a [`Task`].
pub struct ClosureTask<F: FnOnce() + Send + 'static> {
    f: F,
}

#[verifier::type_invariant]
spec fn closure_task_inv<F: FnOnce() + Send + 'static>(t: ClosureTask<F>) -> bool {
    t.f.requires(())
}

impl<F: FnOnce() + Send + 'static> ClosureTask<F> {
    pub fn new(f: F) -> ClosureTask<F>
        requires
            f.requires(()),
    {
        ClosureTask { f }
    }
}

impl<F: FnOnce() + Send + 'static> Task for ClosureTask<F> {
    fn run(self) {
        proof {
            use_type_invariant(&self);
        }
        (self.f)()
    }
}

/// What travels through the queue: either one job or one shutdown signal.
/// Each message is consumed by exactly one receiver.
pub enum Message<J> {
    Work(J),
    Shutdown,
}

/// The job queue: an ordered conduit of [`Message`]s from producers to
/// consumers. Sending appends at the back and never blocks; receiving removes
/// the oldest message and hands it to that one caller, so a message is
/// delivered exactly once, in the order sent. In the running system the
/// receiving end sits behind a lock so only one worker is ever mid-receive.
pub struct JobQueue<J> {
    items: VecDeque<Message<J>>,
}

impl<J> View for JobQueue<J> {
    type V = Seq<Message<J>>;

    closed spec fn view(&self) -> Seq<Message<J>> {
        self.items@
    }
}

impl<J> JobQueue<J> {
    /// A fresh queue holding nothing.
    pub fn new() -> (q: JobQueue<J>)
        ensures
            q@ == Seq::<Message<J>>::empty(),
    {
        JobQueue { items: VecDeque::new() }
    }

    /// How many messages are waiting.
    pub fn len(&self) -> (n: usize)
        ensures
            n == self@.len(),
    {
        self.items.len()
    }

    /// Enqueue one message at the back: nothing already queued is lost,
    /// duplicated or reordered, and the producer never blocks.
    pub fn send(&mut self, m: Message<J>)
        ensures
            final(self)@ == old(self)@.push(m),
    {
        self.items.push_back(m);
    }

    /// Remove and return the oldest message, or nothing if the queue is
    /// empty. The message returned is taken out of the queue, so no later
    /// receive can see it again: each message goes to exactly one caller.
    pub fn receive(&mut self) -> (r: Option<Message<J>>)
        ensures
            old(self)@.len() == 0 ==> r is None && final(self)@ == old(self)@,
            old(self)@.len() > 0 ==> r == Some(old(self)@[0]) && final(self)@
                == old(self)@.drop_first(),
    {
        self.items.pop_front()
    }

    /// Whether the oldest message is a job (and not a shutdown signal).
    pub fn front_is_work(&self) -> (b: bool)
        ensures
            b == (self@.len() > 0 && self@[0] is Work),
    {
        if self.items.len() > 0 {
            matches!(&self.items[0], Message::Work(_))
        } else {
            false
        }
    }
}

/// Law: the queue linearizes concurrent submissions. However two sends racing
/// for the back of the queue are ordered, the delivered messages are the
/// same: every message queued before is still there, and each of the two new
/// messages is delivered exactly once.
pub proof fn lemma_sends_linearize<J>(q: Seq<Message<J>>, a: Message<J>, b: Message<J>)
    ensures
        q.push(a).push(b).to_multiset() == q.push(b).push(a).to_multiset(),
        q.push(a).push(b).to_multiset() == q.to_multiset().insert(a).insert(b),
{
    q.push(a).to_multiset_ensures();
    q.push(b).to_multiset_ensures();
    q.to_multiset_ensures();
    assert(q.push(a).push(b).to_multiset() == q.to_multiset().insert(a).insert(b));
    assert(q.push(b).push(a).to_multiset() == q.to_multiset().insert(b).insert(a));
    assert(q.to_multiset().insert(b).insert(a) == q.to_multiset().insert(a).insert(b));
}

} // verus!
