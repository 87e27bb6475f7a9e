//! Routing of file descriptors received over the shared connection.
//!
//! Descriptors arrive on a process's connection socket tagged with the
//! id of the logical thread they are meant for (tag zero stands for the
//! receiving context itself).  The demultiplexer queues each arrival
//! under its tag; a thread drains its own queue first-in first-out, so
//! every consumer sees exactly the descriptors tagged for it, in the
//! order they were sent.

use vstd::prelude::*;

verus! {

/// One received descriptor: the number the sending peer passed along
/// for correlation, and the number the descriptor got in this process.
#[derive(Clone, Copy, PartialEq, Eq, Structural, Debug)]
pub struct FdPair {
    pub client: i32,
    pub server: i32,
}

/// Carrying the tag `t`.
pub open spec fn tag_pred(t: u32) -> spec_fn((u32, FdPair)) -> bool {
    |e: (u32, FdPair)| e.0 == t
}

/// The descriptors tagged `t` among `events`, in arrival order.
pub open spec fn routed_to(events: Seq<(u32, FdPair)>, t: u32) -> Seq<FdPair> {
    events.filter(tag_pred(t)).map_values(|e: (u32, FdPair)| e.1)
}

/// The per-tag queues of a process with nothing pending.
pub open spec fn spec_no_pending() -> Map<u32, Seq<FdPair>> {
    Map::new(|t: u32| true, |t: u32| Seq::<FdPair>::empty())
}

/// The queues after one descriptor tagged `tid` arrives.
pub open spec fn spec_route(m: Map<u32, Seq<FdPair>>, tid: u32, p: FdPair) -> Map<
    u32,
    Seq<FdPair>,
> {
    m.insert(tid, m[tid].push(p))
}

/// The queues after every event of `events` arrived, oldest first.
pub open spec fn spec_route_all(events: Seq<(u32, FdPair)>) -> Map<u32, Seq<FdPair>>
    decreases events.len(),
{
    if events.len() == 0 {
        spec_no_pending()
    } else {
        spec_route(spec_route_all(events.drop_last()), events.last().0, events.last().1)
    }
}

/// Queueing a burst of tagged descriptors leaves, under every tag,
/// exactly the descriptors sent with that tag, in the order sent.
pub proof fn lemma_fifo_routing(events: Seq<(u32, FdPair)>, t: u32)
    ensures
        spec_route_all(events)[t] == routed_to(events, t),
    decreases events.len(),
{
    reveal(Seq::filter);
    if events.len() == 0 {
        assert(routed_to(events, t) =~= Seq::<FdPair>::empty());
    } else {
        let rest = events.drop_last();
        lemma_fifo_routing(rest, t);
        if events.last().0 == t {
            assert(routed_to(events, t) =~= routed_to(rest, t).push(events.last().1));
        } else {
            assert(routed_to(events, t) =~= routed_to(rest, t));
        }
    }
}

/// The descriptors received for each logical thread of one process and
/// not yet claimed by it.
pub struct PendingFds {
    pending: Vec<(u32, FdPair)>,
}

impl View for PendingFds {
    type V = Map<u32, Seq<FdPair>>;

    closed spec fn view(&self) -> Map<u32, Seq<FdPair>> {
        Map::new(|t: u32| true, |t: u32| routed_to(self.pending@, t))
    }
}

/// No element of `s` carries the tag `t`.
spec fn none_tagged(s: Seq<(u32, FdPair)>, t: u32) -> bool {
    forall|j: int| 0 <= j < s.len() ==> (#[trigger] s[j]).0 != t
}

/// Filtering for a tag that nothing carries yields nothing.
proof fn lemma_filter_none(s: Seq<(u32, FdPair)>, t: u32)
    requires
        none_tagged(s, t),
    ensures
        s.filter(tag_pred(t)) == Seq::<(u32, FdPair)>::empty(),
    decreases s.len(),
{
    reveal(Seq::filter);
    if s.len() > 0 {
        let sd = s.drop_last();
        assert(forall|j: int| 0 <= j < sd.len() ==> #[trigger] sd[j] == s[j]);
        lemma_filter_none(sd, t);
        assert(s[s.len() - 1].0 != t);
    }
}

impl PendingFds {
    /// A demultiplexer with nothing pending.
    pub fn new() -> (q: PendingFds)
        ensures
            q@ == spec_no_pending(),
    {
        let q = PendingFds { pending: Vec::new() };
        proof {
            reveal(Seq::filter);
            assert forall|t: u32| #[trigger] q@[t] == spec_no_pending()[t] by {
                assert(routed_to(q.pending@, t) =~= Seq::<FdPair>::empty());
            }
            assert(q@ =~= spec_no_pending());
        }
        q
    }

    /// Queue one descriptor under its tag.
    pub fn push(&mut self, tid: u32, pair: FdPair)
        ensures
            final(self)@ == spec_route(old(self)@, tid, pair),
    {
        self.pending.push((tid, pair));
        proof {
            reveal(Seq::filter);
            let s0 = old(self).pending@;
            assert(self.pending@.drop_last() =~= s0);
            assert forall|t: u32| #[trigger] self@[t] == spec_route(old(self)@, tid, pair)[t] by {
                if t == tid {
                    assert(routed_to(self.pending@, t) =~= routed_to(s0, t).push(pair));
                } else {
                    assert(routed_to(self.pending@, t) =~= routed_to(s0, t));
                }
            }
            assert(self@ =~= spec_route(old(self)@, tid, pair));
        }
    }

    /// Claim the oldest descriptor queued under `tid`, if any.
    pub fn take(&mut self, tid: u32) -> (r: Option<FdPair>)
        ensures
            match r {
                Some(p) => {
                    &&& old(self)@[tid].len() > 0
                    &&& p == old(self)@[tid][0]
                    &&& final(self)@ == old(self)@.insert(
                        tid,
                        old(self)@[tid].subrange(1, old(self)@[tid].len() as int),
                    )
                },
                None => {
                    &&& old(self)@[tid].len() == 0
                    &&& final(self)@ == old(self)@
                },
            },
    {
        let n = self.pending.len();
        let mut j: usize = 0;
        while j < n
            invariant
                self.pending@ == old(self).pending@,
                n == self.pending@.len(),
                0 <= j <= n,
                forall|k: int| 0 <= k < j ==> (#[trigger] self.pending@[k]).0 != tid,
            decreases n - j,
        {
            if self.pending[j].0 == tid {
                let (_, pair) = self.pending.remove(j);
                proof {
                    reveal(Seq::filter);
                    let s0 = old(self).pending@;
                    let a = s0.subrange(0, j as int);
                    let e = s0[j as int];
                    let b = s0.subrange(j as int + 1, n as int);
                    assert(s0 =~= a + seq![e] + b);
                    assert(self.pending@ =~= a + b);
                    lemma_filter_none(a, tid);
                    assert(seq![e].drop_last() =~= Seq::<(u32, FdPair)>::empty());
                    assert forall|t: u32| true implies #[trigger] routed_to(self.pending@, t)
                        == (if t == tid {
                        routed_to(s0, t).subrange(1, routed_to(s0, t).len() as int)
                    } else {
                        routed_to(s0, t)
                    }) by {
                        let pred = tag_pred(t);
                        Seq::filter_distributes_over_add(a, b, pred);
                        Seq::filter_distributes_over_add(a + seq![e], b, pred);
                        Seq::filter_distributes_over_add(a, seq![e], pred);
                        if t == tid {
                            assert(seq![e].filter(pred) =~= seq![e]);
                            assert(a.filter(pred) =~= Seq::<(u32, FdPair)>::empty());
                            assert(s0.filter(pred) =~= seq![e] + b.filter(pred));
                            assert(self.pending@.filter(pred) =~= b.filter(pred));
                            assert forall|ii: int|
                                0 <= ii < routed_to(self.pending@, t).len() implies routed_to(
                                self.pending@,
                                t,
                            )[ii] == routed_to(s0, t)[ii + 1] by {
                                assert(s0.filter(pred)[ii + 1] == b.filter(pred)[ii]);
                            }
                            assert(routed_to(self.pending@, t) =~= routed_to(s0, t).subrange(
                                1,
                                routed_to(s0, t).len() as int,
                            ));
                        } else {
                            assert(seq![e].filter(pred) =~= Seq::<(u32, FdPair)>::empty());
                            assert(s0.filter(pred) =~= a.filter(pred) + b.filter(pred));
                            assert(self.pending@.filter(pred) =~= a.filter(pred) + b.filter(pred));
                            assert(routed_to(self.pending@, t) =~= routed_to(s0, t));
                        }
                    }
                    assert(routed_to(s0, tid)[0] == e.1) by {
                        let pred = tag_pred(tid);
                        Seq::filter_distributes_over_add(a, seq![e], pred);
                        Seq::filter_distributes_over_add(a + seq![e], b, pred);
                        lemma_filter_none(a, tid);
                        assert(seq![e].filter(pred) =~= seq![e]);
                        assert(s0.filter(pred) =~= seq![e] + b.filter(pred));
                    }
                    assert(final(self)@ =~= old(self)@.insert(
                        tid,
                        old(self)@[tid].subrange(1, old(self)@[tid].len() as int),
                    ));
                }
                return Some(pair);
            }
            j = j + 1;
        }
        proof {
            lemma_filter_none(self.pending@, tid);
            assert(old(self)@[tid] =~= Seq::<FdPair>::empty());
        }
        None
    }

    /// Route one arrival for a context waiting on `want`: a descriptor
    /// tagged zero is handed straight to the caller; any other tag is
    /// queued, and the caller gets the oldest descriptor of its own tag
    /// when the arrival completes one.
    pub fn route(&mut self, want: u32, dst: u32, pair: FdPair) -> (r: Option<FdPair>)
        requires
            want != 0,
        ensures
            dst == 0 ==> r == Some(pair) && final(self)@ == old(self)@,
            dst != 0 && dst != want ==> r is None && final(self)@ == spec_route(
                old(self)@,
                dst,
                pair,
            ),
            dst != 0 && dst == want ==> {
                let q = spec_route(old(self)@, dst, pair);
                &&& r == Some(q[want][0])
                &&& final(self)@ == q.insert(want, q[want].subrange(1, q[want].len() as int))
            },
    {
        if dst == 0 {
            return Some(pair);
        }
        self.push(dst, pair);
        if dst == want {
            let r = self.take(want);
            proof {
                assert(spec_route(old(self)@, dst, pair)[want].len() > 0);
            }
            r
        } else {
            None
        }
    }
}

} // verus!
