use vstd::prelude::*;

use std::collections::VecDeque;
use vstd::hash_map::HashMapWithView;

verus! {

broadcast use vstd::std_specs::hash::axiom_u64_obeys_hash_table_key_model;

/// A signal that fired on the Godot side and waits to be handed to its
/// JavaScript callback, with the arguments it fired with.
pub struct FiredSignal<A> {
    pub id: u64,
    pub arguments: Vec<A>,
}

/// One dispatch step over a queue of fired signals: the oldest signal is
/// taken off; it is handed out when a callback is registered for its id and
/// dropped otherwise. Nothing happens to an empty queue.
pub open spec fn dispatch_step<M, A>(queue: Seq<FiredSignal<A>>, registry: Map<u64, M>) -> (
    Option<FiredSignal<A>>,
    Seq<FiredSignal<A>>,
) {
    if queue.len() == 0 {
        (None, queue)
    } else if registry.contains_key(queue[0].id) {
        (Some(queue[0]), queue.drop_first())
    } else {
        (None, queue.drop_first())
    }
}

/// A dispatch round: steps are taken until one hands out nothing. The
/// result is the signals handed out, in order, and the queue left behind.
pub open spec fn dispatch_round<M, A>(queue: Seq<FiredSignal<A>>, registry: Map<u64, M>) -> (
    Seq<FiredSignal<A>>,
    Seq<FiredSignal<A>>,
)
    decreases queue.len(),
{
    match dispatch_step(queue, registry) {
        (Some(s), rest) => {
            let (handed, left) = dispatch_round(rest, registry);
            (seq![s] + handed, left)
        },
        (None, rest) => (Seq::empty(), rest),
    }
}

/// Signals are handed out in the order they fired: a dispatch round hands
/// out a prefix of the queue, each of them with a registered callback; when
/// the round stops before the queue is empty, the signal that stopped it is
/// dropped and the ones after it stay queued.
pub proof fn law_dispatch_round_in_order<M, A>(queue: Seq<FiredSignal<A>>, registry: Map<u64, M>)
    ensures
        ({
            let (handed, left) = dispatch_round(queue, registry);
            &&& handed.len() <= queue.len()
            &&& handed == queue.take(handed.len() as int)
            &&& forall|i: int| 0 <= i < handed.len() ==> registry.contains_key(#[trigger] handed[i].id)
            &&& handed.len() < queue.len() ==> left == queue.skip(handed.len() as int + 1)
                && !registry.contains_key(queue[handed.len() as int].id)
            &&& handed.len() == queue.len() ==> left.len() == 0
        }),
    decreases queue.len(),
{
    if queue.len() > 0 && registry.contains_key(queue[0].id) {
        let rest = queue.drop_first();
        law_dispatch_round_in_order(rest, registry);
        let (h2, l2) = dispatch_round(rest, registry);
        let handed = seq![queue[0]] + h2;
        assert(handed =~= queue.take(handed.len() as int));
        assert forall|i: int| 0 <= i < handed.len() implies registry.contains_key(
            #[trigger] handed[i].id,
        ) by {
            if i > 0 {
                assert(handed[i] == h2[i - 1]);
            }
        }
        if h2.len() < rest.len() {
            assert(rest.skip(h2.len() as int + 1) =~= queue.skip(handed.len() as int + 1));
            assert(rest[h2.len() as int] == queue[handed.len() as int]);
        }
    } else if queue.len() > 0 {
        assert(queue.take(0) =~= Seq::<FiredSignal<A>>::empty());
        assert(queue.drop_first() =~= queue.skip(1));
    } else {
        assert(queue.take(0) =~= Seq::<FiredSignal<A>>::empty());
    }
}

/// Bookkeeping for JavaScript callbacks connected to Godot signals: the
/// callback ids handed out, the callbacks registered under them (`M`, one
/// record per connection), and the signals fired but not yet dispatched, in
/// firing order (`A` is the type of a signal argument).
#[verifier::reject_recursive_types(M)]
#[verifier::reject_recursive_types(A)]
pub struct JsManagerContext<M, A> {
    last_id: u64,
    signal_registry: HashMapWithView<u64, M>,
    signal_queue: VecDeque<FiredSignal<A>>,
}

impl<M, A> JsManagerContext<M, A> {
    /// The last callback id handed out (0 when none has been).
    pub closed spec fn last_id(&self) -> u64 {
        self.last_id
    }

    /// The registered callbacks, by id.
    pub closed spec fn registry(&self) -> Map<u64, M> {
        self.signal_registry@
    }

    /// The fired signals waiting for dispatch, oldest first.
    pub closed spec fn queue(&self) -> Seq<FiredSignal<A>> {
        self.signal_queue@
    }

    /// An empty context: no ids handed out, no callbacks, no pending signals.
    pub fn new() -> (c: Self)
        ensures
            c.last_id() == 0,
            c.registry() == Map::<u64, M>::empty(),
            c.queue() == Seq::<FiredSignal<A>>::empty(),
    {
        JsManagerContext {
            last_id: 0,
            signal_registry: HashMapWithView::new(),
            signal_queue: VecDeque::new(),
        }
    }

    /// Forgets every callback and pending signal and starts ids over.
    pub fn clear(&mut self)
        ensures
            final(self).last_id() == 0,
            final(self).registry() == Map::<u64, M>::empty(),
            final(self).queue() == Seq::<FiredSignal<A>>::empty(),
    {
        self.last_id = 0;
        self.signal_registry.clear();
        self.signal_queue.clear();
    }

    /// The last callback id handed out (0 when none has been).
    pub fn last_callback_id(&self) -> (id: u64)
        ensures
            id == self.last_id(),
    {
        self.last_id
    }

    /// Callback ids handed out one after another, with no `clear` between,
    /// strictly increase; so no id is handed out twice.
    pub proof fn law_callback_ids_increase(c0: Self, c1: Self, c2: Self, id1: u64, id2: u64)
        requires
            id1 == c0.last_id() + 1,
            c1.last_id() == id1,
            id2 == c1.last_id() + 1,
            c2.last_id() == id2,
        ensures
            id1 < id2,
            c0.last_id() < id1,
    {
    }

    /// Hands out the next callback id: one more than the last one.
    pub fn next_callback_id(&mut self) -> (id: u64)
        requires
            old(self).last_id() < u64::MAX,
        ensures
            id == old(self).last_id() + 1,
            final(self).last_id() == id,
            final(self).registry() == old(self).registry(),
            final(self).queue() == old(self).queue(),
    {
        self.last_id = self.last_id + 1;
        self.last_id
    }

    /// Registers `meta` as the callback for `id`, replacing any earlier one.
    pub fn save_callback(&mut self, id: u64, meta: M)
        ensures
            final(self).registry() == old(self).registry().insert(id, meta),
            final(self).last_id() == old(self).last_id(),
            final(self).queue() == old(self).queue(),
    {
        self.signal_registry.insert(id, meta);
    }

    /// Unregisters the callback for `id` and returns it (`None` when there is none).
    pub fn drop_callback(&mut self, id: u64) -> (r: Option<M>)
        ensures
            match r {
                Some(m) => old(self).registry().contains_key(id) && m == old(self).registry()[id],
                None => !old(self).registry().contains_key(id),
            },
            final(self).registry() == old(self).registry().remove(id),
            final(self).last_id() == old(self).last_id(),
            final(self).queue() == old(self).queue(),
    {
        let r = self.signal_registry.remove(&id);
        proof {
            if r is None {
                assert(old(self).registry().remove(id) =~= old(self).registry());
            }
        }
        r
    }

    /// Unregisters the callback for `id`, if any.
    pub fn remove_callback(&mut self, id: u64)
        ensures
            final(self).registry() == old(self).registry().remove(id),
            final(self).last_id() == old(self).last_id(),
            final(self).queue() == old(self).queue(),
    {
        let _ = self.drop_callback(id);
    }

    /// Records that the signal connected under `id` fired with `arguments`.
    pub fn enqueue(&mut self, id: u64, arguments: Vec<A>)
        ensures
            final(self).queue() == old(self).queue().push(FiredSignal { id, arguments }),
            final(self).registry() == old(self).registry(),
            final(self).last_id() == old(self).last_id(),
    {
        self.signal_queue.push_back(FiredSignal { id, arguments });
    }

    /// No fired signal is waiting.
    pub fn queue_is_empty(&self) -> (b: bool)
        ensures
            b == (self.queue().len() == 0),
    {
        self.signal_queue.len() == 0
    }

    /// How many fired signals are waiting.
    pub fn queue_size(&self) -> (n: usize)
        ensures
            n == self.queue().len(),
    {
        self.signal_queue.len()
    }

    /// The callback registered for `id`, if any.
    pub fn get_meta(&self, id: u64) -> (r: Option<&M>)
        ensures
            match r {
                Some(m) => self.registry().contains_key(id) && *m == self.registry()[id],
                None => !self.registry().contains_key(id),
            },
    {
        self.signal_registry.get(&id)
    }

    /// Takes the oldest fired signal off the queue, if any.
    pub fn pop_signal(&mut self) -> (r: Option<FiredSignal<A>>)
        ensures
            old(self).queue().len() == 0 ==> r is None && final(self).queue() == old(self).queue(),
            old(self).queue().len() > 0 ==> r == Some(old(self).queue()[0]) && final(self).queue()
                == old(self).queue().drop_first(),
            final(self).registry() == old(self).registry(),
            final(self).last_id() == old(self).last_id(),
    {
        let r = self.signal_queue.pop_front();
        proof {
            if old(self).queue().len() > 0 {
                assert(old(self).queue().subrange(1, old(self).queue().len() as int)
                    =~= old(self).queue().drop_first());
            }
        }
        r
    }

    /// One dispatch step: takes the oldest fired signal off the queue and
    /// returns it when a callback is registered for its id. A signal whose
    /// callback is gone is dropped and `None` is returned, which ends the
    /// dispatch round; so does an empty queue.
    pub fn take_dispatchable(&mut self) -> (r: Option<FiredSignal<A>>)
        ensures
            (r, final(self).queue()) == dispatch_step(old(self).queue(), old(self).registry()),
            final(self).registry() == old(self).registry(),
            final(self).last_id() == old(self).last_id(),
    {
        match self.pop_signal() {
            Some(s) => {
                if self.signal_registry.contains_key(&s.id) {
                    Some(s)
                } else {
                    None
                }
            },
            None => None,
        }
    }
}

} // verus!
