use vstd::prelude::*;

use vstd::hash_map::HashMapWithView;

verus! {

broadcast use vstd::std_specs::hash::axiom_u64_obeys_hash_table_key_model;

/// The ids of `queue` that have a bound script object in `bounds`, in queue order.
pub open spec fn bound_ids<B>(queue: Seq<u64>, bounds: Map<u64, B>) -> Seq<u64>
    decreases queue.len(),
{
    if queue.len() == 0 {
        Seq::empty()
    } else if bounds.contains_key(queue.last()) {
        bound_ids(queue.drop_last(), bounds).push(queue.last())
    } else {
        bound_ids(queue.drop_last(), bounds)
    }
}

/// Holds of the ids whose node has a bound script object.
pub open spec fn is_bound<B>(bounds: Map<u64, B>) -> spec_fn(u64) -> bool {
    |x: u64| bounds.contains_key(x)
}

/// The process calls of a frame go to exactly the queued requests whose node
/// is bound, in the order the requests were queued: the queue with the
/// requests of unbound nodes left out.
pub proof fn law_frame_targets_are_bound_requests_in_order<B>(queue: Seq<u64>, bounds: Map<u64, B>)
    ensures
        bound_ids(queue, bounds) == queue.filter(is_bound(bounds)),
    decreases queue.len(),
{
    reveal(Seq::filter);
    if queue.len() > 0 {
        law_frame_targets_are_bound_requests_in_order(queue.drop_last(), bounds);
    }
}

/// Requests queued earlier are served earlier: the targets of two batches of
/// requests queued one after the other are the targets of the first batch
/// followed by those of the second.
pub proof fn law_frame_targets_of_concatenation<B>(q1: Seq<u64>, q2: Seq<u64>, bounds: Map<u64, B>)
    ensures
        bound_ids(q1 + q2, bounds) == bound_ids(q1, bounds) + bound_ids(q2, bounds),
    decreases q2.len(),
{
    if q2.len() == 0 {
        assert(q1 + q2 =~= q1);
        assert(bound_ids(q1, bounds) + bound_ids(q2, bounds) =~= bound_ids(q1, bounds));
    } else {
        law_frame_targets_of_concatenation(q1, q2.drop_last(), bounds);
        assert((q1 + q2).drop_last() =~= q1 + q2.drop_last());
        assert((q1 + q2).last() == q2.last());
        let a = bound_ids(q1, bounds);
        let b = bound_ids(q2.drop_last(), bounds);
        assert((a + b).push(q2.last()) =~= a + b.push(q2.last()));
    }
}

/// A node without a bound script object never gets a process call, and
/// every node that gets one asked for it and is bound.
pub proof fn law_only_bound_nodes_processed<B>(queue: Seq<u64>, bounds: Map<u64, B>, id: u64)
    ensures
        bound_ids(queue, bounds).contains(id) <==> (queue.contains(id) && bounds.contains_key(id)),
    decreases queue.len(),
{
    if queue.len() > 0 {
        let init = queue.drop_last();
        law_only_bound_nodes_processed(init, bounds, id);
        assert(queue =~= init.push(queue.last()));
        if queue.contains(id) && id != queue.last() {
            let k = choose|k: int| 0 <= k < queue.len() && queue[k] == id;
            assert(init[k] == id);
        }
        if init.contains(id) {
            let k = choose|k: int| 0 <= k < init.len() && init[k] == id;
            assert(queue[k] == id);
        }
        if bounds.contains_key(queue.last()) {
            let r = bound_ids(init, bounds);
            if r.contains(id) {
                let k = choose|k: int| 0 <= k < r.len() && r[k] == id;
                assert(r.push(queue.last())[k] == id);
            }
            if r.push(queue.last()).contains(id) && id != queue.last() {
                let k = choose|k: int| 0 <= k < r.len() + 1 && r.push(queue.last())[k] == id;
                assert(r[k] == id);
            }
            assert(r.push(queue.last())[r.len() as int] == queue.last());
        }
    }
}

/// The scheduling state of the script runtime: the script object bound to
/// each live script node (by instance id), the nodes that asked to be
/// processed this frame, the nodes registered but not yet told they are
/// ready (`N`), and the script objects of removed nodes that still have to be
/// told they are destroyed (`B`).
#[verifier::reject_recursive_types(B)]
pub struct JsRuntimeManager<B, N> {
    bounds: HashMapWithView<u64, B>,
    process_queue: Vec<u64>,
    ready_queue: Vec<N>,
    free_queue: Vec<B>,
}

impl<B, N> JsRuntimeManager<B, N> {
    /// The script object bound to each node, by instance id.
    pub closed spec fn bounds(&self) -> Map<u64, B> {
        self.bounds@
    }

    /// The nodes that asked to be processed this frame, in order.
    pub closed spec fn process_queue(&self) -> Seq<u64> {
        self.process_queue@
    }

    /// The nodes waiting for their ready call; the last one is taken first.
    pub closed spec fn ready_queue(&self) -> Seq<N> {
        self.ready_queue@
    }

    /// The script objects waiting for their destroy call; the last one is taken first.
    pub closed spec fn free_queue(&self) -> Seq<B> {
        self.free_queue@
    }

    /// A runtime with nothing bound and nothing queued.
    pub fn new() -> (m: Self)
        ensures
            m.bounds() == Map::<u64, B>::empty(),
            m.process_queue() == Seq::<u64>::empty(),
            m.ready_queue() == Seq::<N>::empty(),
            m.free_queue() == Seq::<B>::empty(),
    {
        JsRuntimeManager {
            bounds: HashMapWithView::new(),
            process_queue: Vec::with_capacity(100),
            ready_queue: Vec::new(),
            free_queue: Vec::new(),
        }
    }

    /// Binds the script object created for the node `id`.
    pub fn bind(&mut self, id: u64, bound: B)
        ensures
            final(self).bounds() == old(self).bounds().insert(id, bound),
            final(self).process_queue() == old(self).process_queue(),
            final(self).ready_queue() == old(self).ready_queue(),
            final(self).free_queue() == old(self).free_queue(),
    {
        self.bounds.insert(id, bound);
    }

    /// Queues a registered node for its ready call.
    pub fn push_ready(&mut self, node: N)
        ensures
            final(self).ready_queue() == old(self).ready_queue().push(node),
            final(self).bounds() == old(self).bounds(),
            final(self).process_queue() == old(self).process_queue(),
            final(self).free_queue() == old(self).free_queue(),
    {
        self.ready_queue.push(node);
    }

    /// Unbinds the node `id`: its script object, if it had one, moves to the
    /// queue of objects to be told they are destroyed.
    pub fn unregister_js_node(&mut self, id: u64)
        ensures
            final(self).bounds() == old(self).bounds().remove(id),
            old(self).bounds().contains_key(id) ==> final(self).free_queue() == old(
                self,
            ).free_queue().push(old(self).bounds()[id]),
            !old(self).bounds().contains_key(id) ==> final(self).free_queue() == old(
                self,
            ).free_queue(),
            final(self).process_queue() == old(self).process_queue(),
            final(self).ready_queue() == old(self).ready_queue(),
    {
        match self.bounds.remove(&id) {
            Some(bound) => self.free_queue.push(bound),
            None => {
                assert(old(self).bounds().remove(id) =~= old(self).bounds());
            },
        }
    }

    /// Asks for the node `id` to be processed this frame.
    pub fn enqueue_process(&mut self, id: u64)
        ensures
            final(self).process_queue() == old(self).process_queue().push(id),
            final(self).bounds() == old(self).bounds(),
            final(self).ready_queue() == old(self).ready_queue(),
            final(self).free_queue() == old(self).free_queue(),
    {
        self.process_queue.push(id);
    }

    /// Takes the most recently queued script object to be told it is destroyed.
    pub fn pop_free(&mut self) -> (r: Option<B>)
        ensures
            old(self).free_queue().len() == 0 ==> r is None && final(self).free_queue() == old(
                self,
            ).free_queue(),
            old(self).free_queue().len() > 0 ==> r == Some(old(self).free_queue().last())
                && final(self).free_queue() == old(self).free_queue().drop_last(),
            final(self).bounds() == old(self).bounds(),
            final(self).process_queue() == old(self).process_queue(),
            final(self).ready_queue() == old(self).ready_queue(),
    {
        self.free_queue.pop()
    }

    /// Takes the most recently registered node waiting for its ready call.
    pub fn pop_ready(&mut self) -> (r: Option<N>)
        ensures
            old(self).ready_queue().len() == 0 ==> r is None && final(self).ready_queue() == old(
                self,
            ).ready_queue(),
            old(self).ready_queue().len() > 0 ==> r == Some(old(self).ready_queue().last())
                && final(self).ready_queue() == old(self).ready_queue().drop_last(),
            final(self).bounds() == old(self).bounds(),
            final(self).process_queue() == old(self).process_queue(),
            final(self).free_queue() == old(self).free_queue(),
    {
        self.ready_queue.pop()
    }

    /// The script object bound to the node `id`, if any.
    pub fn bound(&self, id: u64) -> (r: Option<&B>)
        ensures
            match r {
                Some(b) => self.bounds().contains_key(id) && *b == self.bounds()[id],
                None => !self.bounds().contains_key(id),
            },
    {
        self.bounds.get(&id)
    }

    /// How many nodes have a bound script object.
    pub fn node_count(&self) -> (n: usize)
        ensures
            n == self.bounds().len(),
    {
        self.bounds.len()
    }

    /// How many process requests are queued this frame.
    pub fn process_queue_len(&self) -> (n: usize)
        ensures
            n == self.process_queue().len(),
    {
        self.process_queue.len()
    }

    /// The nodes whose script objects get their process call this frame: the
    /// queued requests whose node is bound, in the order they were queued.
    pub fn frame_targets(&self) -> (r: Vec<u64>)
        ensures
            r@ == bound_ids(self.process_queue(), self.bounds()),
            r@ == self.process_queue().filter(is_bound(self.bounds())),
    {
        let mut r: Vec<u64> = Vec::new();
        let mut i: usize = 0;
        while i < self.process_queue.len()
            invariant
                i <= self.process_queue@.len(),
                r@ == bound_ids(self.process_queue@.take(i as int), self.bounds@),
            decreases self.process_queue@.len() - i,
        {
            let id = self.process_queue[i];
            assert(self.process_queue@.take(i + 1).drop_last() =~= self.process_queue@.take(i as int));
            if self.bounds.contains_key(&id) {
                r.push(id);
            }
            i = i + 1;
        }
        assert(self.process_queue@.take(self.process_queue@.len() as int) =~= self.process_queue@);
        proof {
            law_frame_targets_are_bound_requests_in_order(self.process_queue(), self.bounds());
        }
        r
    }

    /// Ends a frame: the process requests are dropped.
    pub fn finish_frame(&mut self)
        ensures
            final(self).process_queue() == Seq::<u64>::empty(),
            final(self).bounds() == old(self).bounds(),
            final(self).ready_queue() == old(self).ready_queue(),
            final(self).free_queue() == old(self).free_queue(),
    {
        self.process_queue.clear();
    }

    /// Leaving the scene tree: every binding and every queue is dropped.
    pub fn exit_tree(&mut self)
        ensures
            final(self).bounds() == Map::<u64, B>::empty(),
            final(self).process_queue() == Seq::<u64>::empty(),
            final(self).ready_queue() == Seq::<N>::empty(),
            final(self).free_queue() == Seq::<B>::empty(),
    {
        self.process_queue.clear();
        self.ready_queue.clear();
        self.free_queue.clear();
        self.bounds.clear();
    }
}

/// When the script running now has to be interrupted: the moment set by the
/// guard of the current run, in milliseconds of the runtime's clock, or
/// `None` when no run is limited.
#[derive(Clone, Copy)]
pub struct ExecutionDeadline {
    pub at_ms: Option<u64>,
}

impl ExecutionDeadline {
    /// No deadline set.
    pub fn unset() -> (d: Self)
        ensures
            d.at_ms is None,
    {
        ExecutionDeadline { at_ms: None }
    }

    /// A deadline is set and `now_ms` has reached it.
    pub open spec fn passed(self, now_ms: u64) -> bool {
        match self.at_ms {
            Some(at) => at <= now_ms,
            None => false,
        }
    }

    /// A running script has overrun its deadline at `now_ms` when a deadline
    /// is set and `now_ms` has reached it.
    pub fn expired(&self, now_ms: u64) -> (b: bool)
        ensures
            b == self.passed(now_ms),
    {
        match self.at_ms {
            Some(at) => at <= now_ms,
            None => false,
        }
    }
}

/// Bounds one frame's script execution: creating it sets the deadline (when
/// a limit is configured), releasing it clears the deadline again.
pub struct DeadlineGuard {
    pub limit_ms: u64,
}

impl DeadlineGuard {
    /// Starts a limited run at `now_ms`: with a positive `limit` (in
    /// milliseconds) the deadline becomes `now_ms + limit`; with no limit (0)
    /// the deadline is left as it is.
    pub fn new(deadline: &mut ExecutionDeadline, now_ms: u64, limit: u64) -> (g: Self)
        requires
            now_ms + limit <= u64::MAX,
        ensures
            limit > 0 ==> final(deadline).at_ms == Some((now_ms + limit) as u64),
            limit == 0 ==> *final(deadline) == *old(deadline),
            g.limit_ms == limit,
    {
        if limit > 0 {
            deadline.at_ms = Some(now_ms + limit);
        }
        DeadlineGuard { limit_ms: limit }
    }

    /// A run started at `start_ms` with a positive limit is interrupted at
    /// `now_ms` exactly when `limit` milliseconds have passed; once its guard
    /// is released it is never interrupted.
    pub proof fn law_deadline(start_ms: u64, limit: u64, now_ms: u64)
        requires
            limit > 0,
            start_ms + limit <= u64::MAX,
        ensures
            (ExecutionDeadline { at_ms: Some((start_ms + limit) as u64) }).passed(now_ms) <==> now_ms
                >= start_ms + limit,
            !(ExecutionDeadline { at_ms: None }).passed(now_ms),
    {
    }

    /// Ends the run: the deadline is cleared.
    pub fn release(self, deadline: &mut ExecutionDeadline)
        ensures
            final(deadline).at_ms is None,
    {
        deadline.at_ms = None;
    }
}

} // verus!
