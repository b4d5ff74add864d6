use vstd::prelude::*;

verus! {

/// The per-connection stream table and stream-id allocator: the ids of the
/// open streams and the next id to hand out. The writer half of each stream
/// is held by the caller, keyed by these ids; the table decides which ids
/// are live.
pub struct Session {
    streams: Vec<u64>,
    next_stream_id: u64,
}

impl Session {
    /// The ids of the streams that are open, in insertion order.
    pub closed spec fn ids(&self) -> Seq<u64> {
        self.streams@
    }

    pub open spec fn has_stream(&self, id: u64) -> bool {
        self.ids().contains(id)
    }

    pub closed spec fn next_id(&self) -> u64 {
        self.next_stream_id
    }

    /// Every open id was allocated (it lies between 1 and the counter,
    /// which starts at 1), and no id is listed twice.
    pub open spec fn wf(&self) -> bool {
        &&& 1 <= self.next_id()
        &&& forall|i: int|
            0 <= i < self.ids().len() ==> 1 <= #[trigger] self.ids()[i] < self.next_id()
        &&& forall|i: int, j: int|
            #![trigger self.ids()[i], self.ids()[j]]
            0 <= i < j < self.ids().len() ==> self.ids()[i] != self.ids()[j]
    }

    pub fn new() -> (s: Session)
        ensures
            s.wf(),
            s.ids() == Seq::<u64>::empty(),
            s.next_id() == 1,
    {
        Session { streams: Vec::new(), next_stream_id: 1 }
    }

    pub fn contains(&self, id: u64) -> (r: bool)
        ensures
            r == self.has_stream(id),
    {
        let mut i: usize = 0;
        while i < self.streams.len()
            invariant
                i <= self.ids().len(),
                forall|j: int| 0 <= j < i ==> self.ids()[j] != id,
            decreases self.ids().len() - i,
        {
            if self.streams[i] == id {
                proof {
                    assert(self.ids()[i as int] == id);
                }
                return true;
            }
            i = i + 1;
        }
        false
    }

    /// Whether the id counter can still advance. Callers check this before
    /// opening another stream; the counter never wraps.
    pub fn can_allocate(&self) -> (r: bool)
        ensures
            r == (self.next_id() < u64::MAX),
    {
        self.next_stream_id < u64::MAX
    }

    /// Whether `id` is an allocated id that is not open, so that it may be
    /// recorded as open.
    pub fn may_insert(&self, id: u64) -> (r: bool)
        ensures
            r == (1 <= id && id < self.next_id() && !self.has_stream(id)),
    {
        1 <= id && id < self.next_stream_id && !self.contains(id)
    }

    /// Hand out the next stream id and advance the counter.
    pub fn allocate_id(&mut self) -> (id: u64)
        requires
            old(self).wf(),
            old(self).next_id() < u64::MAX,
        ensures
            final(self).wf(),
            id == old(self).next_id(),
            final(self).next_id() == old(self).next_id() + 1,
            final(self).ids() == old(self).ids(),
            !old(self).has_stream(id),
    {
        let id = self.next_stream_id;
        self.next_stream_id = self.next_stream_id + 1;
        proof {
            if old(self).ids().contains(id) {
                let k = choose|k: int|
                    0 <= k < old(self).ids().len() && old(self).ids()[k] == id;
                assert(old(self).ids()[k] < id);
            }
        }
        id
    }

    /// Record an allocated id as open.
    pub fn insert(&mut self, id: u64)
        requires
            old(self).wf(),
            !old(self).has_stream(id),
            1 <= id < old(self).next_id(),
        ensures
            final(self).wf(),
            final(self).next_id() == old(self).next_id(),
            final(self).ids() == old(self).ids().push(id),
            forall|x: u64|
                #[trigger] final(self).has_stream(x) == (old(self).has_stream(x) || x == id),
    {
        self.streams.push(id);
        proof {
            let pre = old(self).ids();
            let post = self.ids();
            assert forall|x: u64| #[trigger] post.contains(x) implies (pre.contains(x) || x
                == id) by {
                let k = choose|k: int| 0 <= k < post.len() && post[k] == x;
                if k < pre.len() {
                    assert(pre[k] == x);
                }
            }
            assert forall|x: u64| pre.contains(x) || x == id implies #[trigger] post.contains(
                x,
            ) by {
                if pre.contains(x) {
                    let k = choose|k: int| 0 <= k < pre.len() && pre[k] == x;
                    assert(post[k] == x);
                } else {
                    assert(post[post.len() - 1] == x);
                }
            }
        }
    }

    /// Drop an id from the table. Removing an id that is not open leaves
    /// the table unchanged, so a close for an already-closed stream is
    /// harmless.
    pub fn remove(&mut self, id: u64)
        requires
            old(self).wf(),
        ensures
            final(self).wf(),
            final(self).next_id() == old(self).next_id(),
            !final(self).has_stream(id),
            forall|x: u64|
                x != id ==> #[trigger] final(self).has_stream(x) == old(self).has_stream(x),
    {
        let mut i: usize = 0;
        while i < self.streams.len()
            invariant
                old(self).wf(),
                *self == *old(self),
                i <= self.ids().len(),
                forall|j: int| 0 <= j < i ==> self.ids()[j] != id,
            decreases self.ids().len() - i,
        {
            if self.streams[i] == id {
                let ghost pre = self.ids();
                let ghost k = i as int;
                proof {
                    assert(pre[k] == id);
                }
                self.streams.remove(i);
                proof {
                    let post = self.ids();
                    assert(post =~= pre.subrange(0, k) + pre.subrange(k + 1, pre.len() as int));
                    assert forall|m: int| 0 <= m < post.len() implies #[trigger] post[m] == (
                    if m < k {
                        pre[m]
                    } else {
                        pre[m + 1]
                    }) by {}
                    assert forall|a: int, b: int|
                        #![trigger post[a], post[b]]
                        0 <= a < b < post.len() implies post[a] != post[b] by {
                        let a2 = if a < k {
                            a
                        } else {
                            a + 1
                        };
                        let b2 = if b < k {
                            b
                        } else {
                            b + 1
                        };
                        assert(post[a] == pre[a2]);
                        assert(post[b] == pre[b2]);
                        assert(old(self).ids()[a2] == pre[a2]);
                        assert(old(self).ids()[b2] == pre[b2]);
                        assert(old(self).ids()[a2] != old(self).ids()[b2]);
                        assert(pre[a2] != pre[b2]);
                    }
                    assert forall|m: int| 0 <= m < post.len() implies 1 <= #[trigger] post[m]
                        < self.next_id() by {
                        let m2 = if m < k {
                            m
                        } else {
                            m + 1
                        };
                        assert(post[m] == pre[m2]);
                        assert(old(self).ids()[m2] == pre[m2]);
                    }
                    assert(self.next_id() == old(self).next_id());
                    if post.contains(id) {
                        let m = choose|m: int| 0 <= m < post.len() && post[m] == id;
                        if m < k {
                            assert(old(self).ids()[m] == pre[m]);
                            assert(old(self).ids()[k] == pre[k]);
                            assert(pre[m] == id && pre[k] == id && m != k);
                        } else {
                            assert(old(self).ids()[m + 1] == pre[m + 1]);
                            assert(old(self).ids()[k] == pre[k]);
                            assert(pre[m + 1] == id && pre[k] == id && m + 1 != k);
                        }
                    }
                    assert forall|x: u64| x != id implies #[trigger] post.contains(x)
                        == pre.contains(x) by {
                        if post.contains(x) {
                            let m = choose|m: int| 0 <= m < post.len() && post[m] == x;
                            if m < k {
                                assert(pre[m] == x);
                            } else {
                                assert(pre[m + 1] == x);
                            }
                        }
                        if pre.contains(x) {
                            let m = choose|m: int| 0 <= m < pre.len() && pre[m] == x;
                            if m < k {
                                assert(post[m] == x);
                            } else {
                                assert(m != k);
                                assert(post[m - 1] == x);
                            }
                        }
                    }
                }
                return;
            }
            i = i + 1;
        }
    }
}

/// What one call of `allocate_id` does to a session, at the level of the
/// specification: the returned id is the counter's value and the counter
/// moves up by one, while the open streams stay as they are.
pub open spec fn allocates(pre: Session, post: Session, id: u64) -> bool {
    &&& pre.wf()
    &&& post.wf()
    &&& id == pre.next_id()
    &&& post.next_id() == id + 1
    &&& post.ids() == pre.ids()
}

/// What removing `id` does to a session, at the level of the
/// specification, whether the client closed the stream or its reader saw
/// the end of it: the id is no longer open, every other stream is as it
/// was, and the counter does not move.
pub open spec fn removes(pre: Session, post: Session, id: u64) -> bool {
    &&& pre.wf()
    &&& post.wf()
    &&& post.next_id() == pre.next_id()
    &&& !post.has_stream(id)
    &&& forall|x: u64| x != id ==> post.has_stream(x) == pre.has_stream(x)
}

/// Law: removal of a stream is terminal and happens effectively once. A
/// second removal of the same id, as when the reader sees the end of a
/// stream the client already closed, leaves the open streams exactly as
/// they are.
pub proof fn lemma_remove_is_idempotent(a: Session, b: Session, c: Session, id: u64)
    requires
        removes(a, b, id),
        removes(b, c, id),
    ensures
        forall|x: u64| c.has_stream(x) == b.has_stream(x),
{
    assert forall|x: u64| c.has_stream(x) == b.has_stream(x) by {
        if x != id {
            assert(c.has_stream(x) == b.has_stream(x));
        }
    }
}

/// Law: stream ids within a session are handed out strictly increasing and
/// are never reused: a later allocation yields a strictly larger id, and an
/// allocated id is never one that is still open.
pub proof fn lemma_stream_ids_monotonic(s1: Session, s2: Session, s3: Session, id1: u64, id2: u64)
    requires
        allocates(s1, s2, id1),
        allocates(s2, s3, id2),
    ensures
        id2 > id1,
        !s1.has_stream(id1),
        !s2.has_stream(id2),
{
    if s1.ids().contains(id1) {
        let k = choose|k: int| 0 <= k < s1.ids().len() && s1.ids()[k] == id1;
        assert(s1.ids()[k] < id1);
    }
    if s2.ids().contains(id2) {
        let k = choose|k: int| 0 <= k < s2.ids().len() && s2.ids()[k] == id2;
        assert(s2.ids()[k] < id2);
    }
}

} // verus!
