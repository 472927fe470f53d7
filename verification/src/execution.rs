//! The priority task queue and the dispatch round that drains it.
//!
//! The queue is kept sorted, highest priority first, by every insertion, so
//! that taking the most urgent task is a removal at the front. Tasks of the
//! same priority leave in the order in which they came; callers should rely
//! on the order by priority only.
//!
//! Every operation takes the queue by exclusive reference and leaves it
//! sorted, so no one ever sees a queue that is half sorted. Producers and
//! workers that share a queue put it behind a lock and hold the lock for one
//! operation at a time, never while a task is processed; the operations then
//! take effect one after another, in the order in which the lock was won.

use vstd::prelude::*;

verus! {

/// Priorities never increase from the front of the queue to its back.
pub open spec fn sorted_by_priority(q: Seq<(u8, Seq<char>)>) -> bool {
    forall|i: int, j: int| 0 <= i <= j < q.len() ==> q[i].0 >= q[j].0
}

/// Where a task of the given priority enters the queue: behind every entry at
/// the front whose priority is at least its own.
pub open spec fn insertion_point(q: Seq<(u8, Seq<char>)>, priority: u8) -> int
    decreases q.len(),
{
    if q.len() == 0 || q[0].0 < priority {
        0
    } else {
        1 + insertion_point(q.drop_first(), priority)
    }
}

/// The queue after one insertion.
pub open spec fn enqueue(q: Seq<(u8, Seq<char>)>, task: (u8, Seq<char>)) -> Seq<(u8, Seq<char>)> {
    q.insert(insertion_point(q, task.0), task)
}

/// The queue after a series of insertions, made in the order given.
pub open spec fn enqueue_all(q: Seq<(u8, Seq<char>)>, tasks: Seq<(u8, Seq<char>)>) -> Seq<
    (u8, Seq<char>),
>
    decreases tasks.len(),
{
    if tasks.len() == 0 {
        q
    } else {
        enqueue(enqueue_all(q, tasks.drop_last()), tasks.last())
    }
}

/// What a dispatch round of the given number of workers takes from the
/// queue, in the order in which it is taken: the whole queue, front to back,
/// and nothing where there is no worker.
pub open spec fn round_output(q: Seq<(u8, Seq<char>)>, workers: nat) -> Seq<(u8, Seq<char>)> {
    if workers == 0 {
        Seq::empty()
    } else {
        q
    }
}

/// What a dispatch round of the given number of workers leaves in the queue.
pub open spec fn round_rest(q: Seq<(u8, Seq<char>)>, workers: nat) -> Seq<(u8, Seq<char>)> {
    if workers == 0 {
        q
    } else {
        Seq::empty()
    }
}

/// What the contracts read of a stored task: its priority and the characters
/// of its payload.
pub open spec fn task_view(task: (u8, String)) -> (u8, Seq<char>) {
    (task.0, task.1@)
}

/// The views of a sequence of stored tasks, in the same order.
pub open spec fn tasks_view(tasks: Seq<(u8, String)>) -> Seq<(u8, Seq<char>)> {
    tasks.map_values(|t: (u8, String)| task_view(t))
}

/// A queue of tasks, each a priority and a payload, and the number of workers
/// that drain it in a dispatch round.
pub struct ExecutionFlow {
    task_queue: Vec<(u8, String)>,
    num_threads: usize,
}

impl View for ExecutionFlow {
    type V = Seq<(u8, Seq<char>)>;

    /// The queued tasks, front first.
    closed spec fn view(&self) -> Seq<(u8, Seq<char>)> {
        tasks_view(self.task_queue@)
    }
}

impl ExecutionFlow {
    #[verifier::type_invariant]
    spec fn queue_is_sorted(&self) -> bool {
        sorted_by_priority(tasks_view(self.task_queue@))
    }

    /// The number of workers of a dispatch round, fixed at construction.
    pub closed spec fn workers(&self) -> nat {
        self.num_threads as nat
    }

    /// An empty queue that `num_threads` workers will drain.
    pub fn new(num_threads: usize) -> (flow: Self)
        ensures
            flow@ == Seq::<(u8, Seq<char>)>::empty(),
            flow.workers() == num_threads,
    {
        let flow = ExecutionFlow { task_queue: Vec::new(), num_threads };
        assert(flow@ =~= Seq::<(u8, Seq<char>)>::empty());
        flow
    }

    /// Inserts a task behind the queued tasks of the same or a higher
    /// priority, so that the queue stays sorted.
    pub fn add_task(&mut self, priority: u8, task_data: String)
        ensures
            final(self)@ == enqueue(old(self)@, (priority, task_data@)),
            sorted_by_priority(final(self)@),
            final(self)@.len() == old(self)@.len() + 1,
            final(self)@.to_multiset() == old(self)@.to_multiset().insert((priority, task_data@)),
            final(self).workers() == old(self).workers(),
    {
        proof {
            use_type_invariant(&*self);
            lemma_enqueue_sorted(self@, (priority, task_data@));
        }
        // The queue is moved out while it changes, so that `self` holds a
        // sorted queue at every step.
        let mut queue: Vec<(u8, String)> = Vec::new();
        std::mem::swap(&mut self.task_queue, &mut queue);
        insert_by_priority(&mut queue, priority, task_data);
        std::mem::swap(&mut self.task_queue, &mut queue);
    }

    /// Removes and returns the task at the front of the queue, which no
    /// queued task exceeds in priority, or returns `None` and leaves the
    /// queue as it is when nothing is queued.
    pub fn dequeue_highest(&mut self) -> (task: Option<(u8, String)>)
        ensures
            match task {
                Some(t) => old(self)@.len() > 0 && task_view(t) == old(self)@[0] && final(self)@
                    == old(self)@.drop_first() && forall|i: int|
                    0 <= i < old(self)@.len() ==> old(self)@[i].0 <= t.0,
                None => old(self)@.len() == 0 && final(self)@ == old(self)@,
            },
            sorted_by_priority(final(self)@),
            final(self).workers() == old(self).workers(),
    {
        proof {
            use_type_invariant(&*self);
        }
        if self.task_queue.len() == 0 {
            return None;
        }
        let mut queue: Vec<(u8, String)> = Vec::new();
        std::mem::swap(&mut self.task_queue, &mut queue);
        let ghost before = queue@;
        let task = queue.remove(0);
        proof {
            assert(tasks_view(before.remove(0)) =~= tasks_view(before).drop_first());
            assert(task_view(task) == tasks_view(before)[0]);
        }
        std::mem::swap(&mut self.task_queue, &mut queue);
        Some(task)
    }

    /// The number of queued tasks.
    pub fn len(&self) -> (n: usize)
        ensures
            n == self@.len(),
    {
        self.task_queue.len()
    }

    /// Whether nothing is queued.
    pub fn is_empty(&self) -> (empty: bool)
        ensures
            empty <==> self@.len() == 0,
    {
        self.task_queue.len() == 0
    }

    /// The number of workers of a dispatch round.
    pub fn num_threads(&self) -> (n: usize)
        ensures
            n == self.workers(),
    {
        self.num_threads
    }

    /// Runs one dispatch round on the calling thread and returns the tasks
    /// in the order in which they were taken.
    ///
    /// Each worker in turn takes tasks from the front of the queue until it
    /// finds the queue empty, and the round ends when the last worker has.
    /// So the first worker drains the queue, highest priority first, and a
    /// round without workers takes nothing. A round over an empty queue
    /// takes nothing either.
    pub fn manage_flow(&mut self) -> (processed: Vec<(u8, String)>)
        ensures
            tasks_view(processed@) == round_output(old(self)@, old(self).workers()),
            final(self)@ == round_rest(old(self)@, old(self).workers()),
            old(self)@.len() == 0 ==> processed@.len() == 0 && final(self)@ == old(self)@,
            sorted_by_priority(tasks_view(processed@)),
            sorted_by_priority(final(self)@),
            final(self).workers() == old(self).workers(),
    {
        proof {
            use_type_invariant(&*self);
        }
        let ghost before = self@;
        let num_threads = self.num_threads;
        let mut processed: Vec<(u8, String)> = Vec::new();
        let mut worker: usize = 0;
        assert(tasks_view(processed@) + self@ =~= before);
        while worker < num_threads
            invariant
                worker <= num_threads,
                num_threads == self.workers(),
                tasks_view(processed@) + self@ == before,
                worker > 0 ==> self@.len() == 0,
                worker == 0 ==> processed@.len() == 0,
            decreases num_threads - worker,
        {
            loop
                invariant
                    num_threads == self.workers(),
                    tasks_view(processed@) + self@ == before,
                ensures
                    self@.len() == 0,
                decreases self@.len(),
            {
                let ghost taken = tasks_view(processed@);
                let ghost queued = self@;
                match self.dequeue_highest() {
                    Some(task) => {
                        processed.push(task);
                        assert(tasks_view(processed@) =~= taken.push(queued[0]));
                        assert(taken.push(queued[0]) + queued.drop_first() =~= taken + queued);
                    },
                    None => {
                        break ;
                    },
                }
            }
            worker += 1;
        }
        proof {
            use_type_invariant(&*self);
            assert(self@.len() == 0 ==> tasks_view(processed@) =~= before);
            assert(processed@.len() == 0 ==> self@ =~= before);
        }
        processed
    }
}

/// Inserts the task at its insertion point.
fn insert_by_priority(queue: &mut Vec<(u8, String)>, priority: u8, task_data: String)
    ensures
        tasks_view(final(queue)@) == enqueue(tasks_view(old(queue)@), (priority, task_data@)),
{
    let ghost before = queue@;
    let mut at: usize = 0;
    while at < queue.len() && queue[at].0 >= priority
        invariant
            queue@ == before,
            at <= before.len(),
            forall|i: int| 0 <= i < at ==> tasks_view(before)[i].0 >= priority,
        decreases before.len() - at,
    {
        at += 1;
    }
    proof {
        lemma_insertion_point_unique(tasks_view(before), priority, at as int);
        assert(tasks_view(before.insert(at as int, (priority, task_data)))
            =~= tasks_view(before).insert(at as int, (priority, task_data@)));
    }
    queue.insert(at, (priority, task_data));
}

/// The insertion point splits the queue: in front of it every priority is at
/// least `priority`, and the entry at it, if there is one, is lower.
pub proof fn lemma_insertion_point(q: Seq<(u8, Seq<char>)>, priority: u8)
    ensures
        0 <= insertion_point(q, priority) <= q.len(),
        forall|i: int| 0 <= i < insertion_point(q, priority) ==> q[i].0 >= priority,
        insertion_point(q, priority) < q.len() ==> q[insertion_point(q, priority)].0 < priority,
    decreases q.len(),
{
    if q.len() == 0 || q[0].0 < priority {
    } else {
        let rest = q.drop_first();
        lemma_insertion_point(rest, priority);
        let k = insertion_point(rest, priority);
        assert forall|i: int| 0 <= i < k + 1 implies q[i].0 >= priority by {
            if i > 0 {
                assert(q[i] == rest[i - 1]);
            }
        }
        if k < rest.len() {
            assert(q[k + 1] == rest[k]);
        }
    }
}

/// An index that splits the queue as the insertion point does is the
/// insertion point.
pub proof fn lemma_insertion_point_unique(q: Seq<(u8, Seq<char>)>, priority: u8, k: int)
    requires
        0 <= k <= q.len(),
        forall|i: int| 0 <= i < k ==> q[i].0 >= priority,
        k < q.len() ==> q[k].0 < priority,
    ensures
        insertion_point(q, priority) == k,
    decreases q.len(),
{
    if q.len() == 0 || q[0].0 < priority {
        if k > 0 {
            assert(q[0].0 >= priority);
        }
    } else {
        let rest = q.drop_first();
        assert forall|i: int| 0 <= i < k - 1 implies rest[i].0 >= priority by {
            assert(rest[i] == q[i + 1]);
        }
        if k - 1 < rest.len() {
            assert(rest[k - 1] == q[k]);
        }
        lemma_insertion_point_unique(rest, priority, k - 1);
    }
}

/// An insertion keeps a sorted queue sorted, and adds the task and nothing
/// else.
pub proof fn lemma_enqueue_sorted(q: Seq<(u8, Seq<char>)>, task: (u8, Seq<char>))
    requires
        sorted_by_priority(q),
    ensures
        sorted_by_priority(enqueue(q, task)),
        enqueue(q, task).len() == q.len() + 1,
        enqueue(q, task).to_multiset() == q.to_multiset().insert(task),
{
    lemma_insertion_point(q, task.0);
    let k = insertion_point(q, task.0);
    let r = enqueue(q, task);
    assert forall|i: int, j: int| 0 <= i <= j < r.len() implies r[i].0 >= r[j].0 by {
        if j < k {
            assert(r[i] == q[i] && r[j] == q[j]);
        } else if j == k {
            if i < k {
                assert(r[i] == q[i]);
            }
        } else {
            assert(r[j] == q[j - 1]);
            assert(q[k].0 >= q[j - 1].0);
            if i < k {
                assert(r[i] == q[i]);
            } else if i > k {
                assert(r[i] == q[i - 1]);
            }
        }
    }
    vstd::seq_lib::to_multiset_insert(q, k, task);
}

/// Whatever tasks are inserted, and in whatever order, the queue is sorted
/// after each insertion.
pub proof fn lemma_sorted_after_each_insertion(
    q: Seq<(u8, Seq<char>)>,
    tasks: Seq<(u8, Seq<char>)>,
)
    requires
        sorted_by_priority(q),
    ensures
        forall|n: int|
            0 <= n <= tasks.len() ==> sorted_by_priority(#[trigger] enqueue_all(q, tasks.take(n))),
    decreases tasks.len(),
{
    assert forall|n: int| 0 <= n <= tasks.len() implies sorted_by_priority(
        #[trigger] enqueue_all(q, tasks.take(n)),
    ) by {
        if n == tasks.len() {
            assert(tasks.take(n) =~= tasks);
            if tasks.len() > 0 {
                let front = tasks.drop_last();
                lemma_sorted_after_each_insertion(q, front);
                assert(front.take(front.len() as int) =~= front);
                lemma_enqueue_sorted(enqueue_all(q, front), tasks.last());
            }
        } else {
            let front = tasks.drop_last();
            lemma_sorted_after_each_insertion(q, front);
            assert(front.take(n) =~= tasks.take(n));
        }
    }
}

/// A series of insertions loses no task and makes none twice: the queue
/// then holds what it held before and each inserted task, as often as it
/// was inserted, and it is sorted.
pub proof fn lemma_insertions_conserve_tasks(q: Seq<(u8, Seq<char>)>, tasks: Seq<(u8, Seq<char>)>)
    requires
        sorted_by_priority(q),
    ensures
        enqueue_all(q, tasks).len() == q.len() + tasks.len(),
        enqueue_all(q, tasks).to_multiset() == q.to_multiset().add(tasks.to_multiset()),
        sorted_by_priority(enqueue_all(q, tasks)),
    decreases tasks.len(),
{
    if tasks.len() == 0 {
        assert(tasks.to_multiset() =~= vstd::multiset::Multiset::empty()) by {
            tasks.to_multiset_ensures();
        }
        assert(q.to_multiset().add(tasks.to_multiset()) =~= q.to_multiset());
    } else {
        let front = tasks.drop_last();
        lemma_insertions_conserve_tasks(q, front);
        lemma_enqueue_sorted(enqueue_all(q, front), tasks.last());
        assert(tasks =~= front.push(tasks.last()));
        vstd::seq_lib::to_multiset_build(front, tasks.last());
        assert(q.to_multiset().add(front.to_multiset()).insert(tasks.last()) =~= q.to_multiset().add(
            front.to_multiset().insert(tasks.last()),
        ));
    }
}

/// Insertions followed by a dispatch round lose no task and make none twice:
/// with at least one worker, the round takes each inserted task as often as
/// it was inserted, and nothing else, highest priority first. The order in
/// which the insertions arrive, from one producer or from many, changes
/// nothing in that.
pub proof fn lemma_round_conserves_tasks(tasks: Seq<(u8, Seq<char>)>, workers: nat)
    requires
        workers > 0,
    ensures
        round_output(enqueue_all(Seq::empty(), tasks), workers).len() == tasks.len(),
        round_output(enqueue_all(Seq::empty(), tasks), workers).to_multiset()
            == tasks.to_multiset(),
        sorted_by_priority(round_output(enqueue_all(Seq::empty(), tasks), workers)),
        round_rest(enqueue_all(Seq::empty(), tasks), workers).len() == 0,
{
    let empty = Seq::<(u8, Seq<char>)>::empty();
    lemma_insertions_conserve_tasks(empty, tasks);
    assert(empty.to_multiset() =~= vstd::multiset::Multiset::empty()) by {
        empty.to_multiset_ensures();
    }
    assert(empty.to_multiset().add(tasks.to_multiset()) =~= tasks.to_multiset());
}

} // verus!
