//! Fan-out of change notifications to the live-update subscribers. Each
//! subscriber has a bounded queue; when it is full the oldest notification
//! is dropped, and a subscriber that falls behind recovers by reading all
//! sessions again.
use vstd::prelude::*;

verus! {

/// A subscriber's queue of date keys, oldest first.
pub open spec fn queue_view(q: Vec<String>) -> Seq<Seq<char>> {
    q@.map_values(|s: String| s@)
}

/// A queue after `key` arrives: appended, and the oldest dropped when the
/// queue already held `capacity` keys.
pub open spec fn enqueue(q: Seq<Seq<char>>, key: Seq<char>, capacity: nat) -> Seq<Seq<char>> {
    if q.len() < capacity {
        q.push(key)
    } else {
        q.drop_first().push(key)
    }
}

/// Every open subscriber's queue after `key` is published.
pub open spec fn published(subs: Seq<Option<Seq<Seq<char>>>>, key: Seq<char>, capacity: nat) -> Seq<Option<Seq<Seq<char>>>> {
    subs.map_values(|s: Option<Seq<Seq<char>>>| match s {
        Some(q) => Some(enqueue(q, key, capacity)),
        None => None,
    })
}

/// The subscribers after a new one joins, with nothing queued.
pub open spec fn subscribed(subs: Seq<Option<Seq<Seq<char>>>>) -> Seq<Option<Seq<Seq<char>>>> {
    subs.push(Some(Seq::empty()))
}

/// A notification published after a client subscribed reaches it exactly
/// once; one published before it subscribed never does.
pub proof fn lemma_notification_reaches_current_subscribers(
    subs: Seq<Option<Seq<Seq<char>>>>,
    key: Seq<char>,
    capacity: nat,
)
    requires
        capacity >= 1,
    ensures
        published(subscribed(subs), key, capacity)[subs.len() as int] == Some(seq![key]),
        subscribed(published(subs, key, capacity))[subs.len() as int] == Some(Seq::<Seq<char>>::empty()),
{
    assert(Seq::<Seq<char>>::empty().push(key) =~= seq![key]);
}

pub struct UpdateHub {
    open: Vec<bool>,
    queues: Vec<Vec<String>>,
    capacity: usize,
}

impl UpdateHub {
    pub closed spec fn wf(&self) -> bool {
        &&& self.open@.len() == self.queues@.len()
        &&& self.capacity >= 1
    }

    pub closed spec fn capacity(&self) -> nat {
        self.capacity as nat
    }

    /// Each subscriber by id: its queue while subscribed, `None` once gone.
    pub closed spec fn view(&self) -> Seq<Option<Seq<Seq<char>>>> {
        Seq::new(
            self.open@.len(),
            |i: int| if self.open@[i] { Some(queue_view(self.queues@[i])) } else { None },
        )
    }

    /// A hub whose subscribers each hold at most `capacity` notifications.
    pub fn new(capacity: usize) -> (r: UpdateHub)
        requires
            capacity >= 1,
        ensures
            r.wf(),
            r@ == Seq::<Option<Seq<Seq<char>>>>::empty(),
            r.capacity() == capacity,
    {
        let r = UpdateHub { open: Vec::new(), queues: Vec::new(), capacity };
        assert(r@ =~= Seq::<Option<Seq<Seq<char>>>>::empty());
        r
    }

    /// Adds a subscriber and returns its id.
    pub fn subscribe(&mut self) -> (id: usize)
        requires
            old(self).wf(),
        ensures
            final(self).wf(),
            final(self)@ == subscribed(old(self)@),
            final(self).capacity() == old(self).capacity(),
            id == old(self)@.len(),
    {
        let id = self.open.len();
        self.open.push(true);
        self.queues.push(Vec::new());
        proof {
            assert(queue_view(self.queues@[id as int]) =~= Seq::<Seq<char>>::empty());
            assert(self@ =~= subscribed(old(self)@));
        }
        id
    }

    /// Queues `key` for every current subscriber.
    pub fn publish(&mut self, key: &str)
        requires
            old(self).wf(),
        ensures
            final(self).wf(),
            final(self)@ == published(old(self)@, key@, old(self).capacity()),
            final(self).capacity() == old(self).capacity(),
    {
        let ghost before = self@;
        let mut i: usize = 0;
        while i < self.queues.len()
            invariant
                self.wf(),
                self.capacity() == old(self).capacity(),
                self@.len() == before.len(),
                i <= self@.len(),
                forall|j: int| 0 <= j < i ==> #[trigger] self@[j] == published(before, key@, self.capacity())[j],
                forall|j: int| i <= j < self@.len() ==> #[trigger] self@[j] == before[j],
            decreases self.queues@.len() - i,
        {
            let ghost pre = self@;
            let ghost pre_queues = self.queues@;
            if self.open[i] {
                let ghost q = queue_view(self.queues@[i as int]);
                if self.queues[i].len() >= self.capacity {
                    self.queues[i].remove(0);
                }
                self.queues[i].push(key.to_owned());
                proof {
                    assert(queue_view(self.queues@[i as int]) =~= enqueue(q, key@, self.capacity()));
                }
            }
            proof {
                assert forall|j: int| 0 <= j < self@.len() && j != i implies #[trigger] self@[j] == pre[j] by {
                    assert(self.queues@[j] == pre_queues[j]);
                }
                assert(pre[i as int] == before[i as int]);
                assert(published(before, key@, self.capacity())[i as int] == match before[i as int] {
                    Some(q) => Some(enqueue(q, key@, self.capacity())),
                    None => None::<Seq<Seq<char>>>,
                });
                assert(self@[i as int] == published(before, key@, self.capacity())[i as int]);
            }
            i = i + 1;
        }
        proof {
            assert(self@ =~= published(before, key@, self.capacity()));
        }
    }

    /// Takes the notifications queued for subscriber `id`, oldest first.
    pub fn take(&mut self, id: usize) -> (r: Vec<String>)
        requires
            old(self).wf(),
        ensures
            final(self).wf(),
            final(self).capacity() == old(self).capacity(),
            id < old(self)@.len() && old(self)@[id as int] is Some ==> (
                queue_view(r) == old(self)@[id as int]->Some_0
                && final(self)@ == old(self)@.update(id as int, Some(Seq::<Seq<char>>::empty()))
            ),
            !(id < old(self)@.len() && old(self)@[id as int] is Some) ==> (
                r@.len() == 0 && final(self)@ == old(self)@
            ),
    {
        if id < self.open.len() && self.open[id] {
            let mut out: Vec<String> = Vec::new();
            std::mem::swap(&mut out, &mut self.queues[id]);
            proof {
                assert(queue_view(self.queues@[id as int]) =~= Seq::<Seq<char>>::empty());
                assert(self@ =~= old(self)@.update(id as int, Some(Seq::<Seq<char>>::empty())));
            }
            out
        } else {
            Vec::new()
        }
    }

    /// Removes subscriber `id`; its queued notifications are dropped.
    pub fn unsubscribe(&mut self, id: usize)
        requires
            old(self).wf(),
        ensures
            final(self).wf(),
            final(self).capacity() == old(self).capacity(),
            id < old(self)@.len() ==> final(self)@ == old(self)@.update(id as int, None),
            id >= old(self)@.len() ==> final(self)@ == old(self)@,
    {
        if id < self.open.len() {
            self.open.set(id, false);
            self.queues.set(id, Vec::new());
            proof {
                assert(self@ =~= old(self)@.update(id as int, None));
            }
        }
    }
}

} // verus!
