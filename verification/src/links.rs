//! The edge table: the single, process-wide record of every directed
//! link in the topology, held by the shared [`crate::Runtime`] context —
//! the engine owns the links, not the bricks.
//!
//! A directed edge runs west → east and is identified by the two brick
//! names, as bricks are within a graph.  An edge occupies one east-side
//! slot of its west endpoint and one west-side slot of its east endpoint;
//! creating it fails when either slot is missing or when the same
//! directed edge already exists.  Because the table is central, severing
//! a brick removes every edge touching it, both directions, in one step.

use vstd::prelude::*;

verus! {

/// Abstract state of one directed edge: the names of its two endpoints.
#[verifier::ext_equal]
pub struct EdgeView {
    pub west: Seq<char>,
    pub east: Seq<char>,
}

/// One directed edge of the table.
pub struct Edge {
    pub(crate) west: String,
    pub(crate) east: String,
}

impl View for Edge {
    type V = EdgeView;

    open(crate) spec fn view(&self) -> EdgeView {
        EdgeView { west: self.west@, east: self.east@ }
    }
}

/// The table, abstractly.
pub open spec fn edge_views(s: Seq<Edge>) -> Seq<EdgeView> {
    s.map_values(|d: Edge| d@)
}

/// Whether the directed edge `w` → `e` is recorded.
pub open spec fn contains_edge(t: Seq<EdgeView>, w: Seq<char>, e: Seq<char>) -> bool {
    exists|i: int| 0 <= i < t.len() && t[i].west == w && t[i].east == e
}

/// No directed edge is recorded twice.
pub open spec fn edge_distinct(t: Seq<EdgeView>) -> bool {
    forall|i: int, j: int|
        0 <= i < j < t.len() ==> !(t[i].west == t[j].west && t[i].east == t[j].east)
}

/// How many east-side slots of the brick named `n` are taken: one per
/// edge leaving it eastwards.
pub open spec fn east_degree(t: Seq<EdgeView>, n: Seq<char>) -> nat
    decreases t.len(),
{
    if t.len() == 0 {
        0
    } else {
        east_degree(t.drop_last(), n) + (if t.last().west == n {
            1nat
        } else {
            0nat
        })
    }
}

/// How many west-side slots of the brick named `n` are taken: one per
/// edge arriving at it from the west.
pub open spec fn west_degree(t: Seq<EdgeView>, n: Seq<char>) -> nat
    decreases t.len(),
{
    if t.len() == 0 {
        0
    } else {
        west_degree(t.drop_last(), n) + (if t.last().east == n {
            1nat
        } else {
            0nat
        })
    }
}

/// Whether a directed edge `w` → `e` can be created, with the given side
/// bounds of its endpoints: a free east-side slot on `w`, a free
/// west-side slot on `e`, and no record of this exact edge.
pub open spec fn can_attach(
    t: Seq<EdgeView>,
    w: Seq<char>,
    w_east_max: nat,
    e: Seq<char>,
    e_west_max: nat,
) -> bool {
    &&& east_degree(t, w) < w_east_max
    &&& west_degree(t, e) < e_west_max
    &&& !contains_edge(t, w, e)
}

/// The position of the edge `w` → `e` in the table; meaningful when the
/// table records it and, being free of duplicates, records it once.
pub open spec fn edge_index(t: Seq<EdgeView>, w: Seq<char>, e: Seq<char>) -> int {
    choose|i: int| 0 <= i < t.len() && t[i].west == w && t[i].east == e
}

/// The table without the edge `w` → `e`, or unchanged when no such edge
/// is recorded.
pub open spec fn remove_edge(t: Seq<EdgeView>, w: Seq<char>, e: Seq<char>) -> Seq<EdgeView> {
    if contains_edge(t, w, e) {
        t.remove(edge_index(t, w, e))
    } else {
        t
    }
}

/// The table without every edge touching the brick named `n`, in either
/// direction and in either role.
pub open spec fn unlink_all(t: Seq<EdgeView>, n: Seq<char>) -> Seq<EdgeView>
    decreases t.len(),
{
    if t.len() == 0 {
        Seq::empty()
    } else {
        let rest = unlink_all(t.drop_last(), n);
        if t.last().west == n || t.last().east == n {
            rest
        } else {
            rest.push(t.last())
        }
    }
}

/// Removing one entry lowers the degree of a name exactly when the entry
/// held one of its slots.
pub proof fn lemma_degree_remove(t: Seq<EdgeView>, n: Seq<char>, i: int)
    requires
        0 <= i < t.len(),
    ensures
        east_degree(t, n) == east_degree(t.remove(i), n) + (if t[i].west == n {
            1nat
        } else {
            0nat
        }),
        west_degree(t, n) == west_degree(t.remove(i), n) + (if t[i].east == n {
            1nat
        } else {
            0nat
        }),
    decreases t.len(),
{
    if i == t.len() - 1 {
        assert(t.remove(i) =~= t.drop_last());
    } else {
        lemma_degree_remove(t.drop_last(), n, i);
        assert(t.remove(i).drop_last() =~= t.drop_last().remove(i));
        assert(t.remove(i).last() == t.last());
    }
}

/// In a duplicate-free table, the recorded edge `w` → `e` sits at exactly
/// one position, and removing it leaves no record of it.
pub proof fn lemma_remove_edge_unique(t: Seq<EdgeView>, w: Seq<char>, e: Seq<char>)
    requires
        edge_distinct(t),
        contains_edge(t, w, e),
    ensures
        0 <= edge_index(t, w, e) < t.len(),
        t[edge_index(t, w, e)].west == w && t[edge_index(t, w, e)].east == e,
        forall|i: int|
            0 <= i < t.len() && t[i].west == w && t[i].east == e ==> i == edge_index(t, w, e),
        !contains_edge(remove_edge(t, w, e), w, e),
        edge_distinct(remove_edge(t, w, e)),
        remove_edge(t, w, e).len() == t.len() - 1,
{
    let x = edge_index(t, w, e);
    let s = t.remove(x);
    t.remove_ensures(x);
    assert forall|i: int| 0 <= i < t.len() && t[i].west == w && t[i].east == e implies i
        == x by {
        if i != x {
            assert(!(t[i].west == t[x].west && t[i].east == t[x].east) || !(t[x].west == t[i].west
                && t[x].east == t[i].east));
        }
    }
    assert forall|p: int| 0 <= p < s.len() implies !(s[p].west == w && s[p].east == e) by {
        assert(s[p] == (if p < x {
            t[p]
        } else {
            t[p + 1]
        }));
    }
    if contains_edge(s, w, e) {
        let p = choose|p: int| 0 <= p < s.len() && s[p].west == w && s[p].east == e;
        assert(!(s[p].west == w && s[p].east == e));
    }
    assert forall|p: int, q: int| 0 <= p < q < s.len() implies !(s[p].west == s[q].west && s[p].east
        == s[q].east) by {
        assert(s[p] == (if p < x {
            t[p]
        } else {
            t[p + 1]
        }));
        assert(s[q] == (if q < x {
            t[q]
        } else {
            t[q + 1]
        }));
    }
}

/// A recorded edge holds one east-side slot of its west endpoint and one
/// west-side slot of its east endpoint.
pub proof fn lemma_contains_degree(t: Seq<EdgeView>, w: Seq<char>, e: Seq<char>)
    requires
        contains_edge(t, w, e),
    ensures
        east_degree(t, w) >= 1,
        west_degree(t, e) >= 1,
    decreases t.len(),
{
    let i = choose|i: int| 0 <= i < t.len() && t[i].west == w && t[i].east == e;
    if i < t.len() - 1 {
        assert(t.drop_last()[i].west == w && t.drop_last()[i].east == e);
        assert(contains_edge(t.drop_last(), w, e));
        lemma_contains_degree(t.drop_last(), w, e);
    }
}

/// What severing a brick does to the table: every edge touching the name
/// is gone, both of the name's sides are fully free again, every edge
/// between other bricks is kept, no edge appears from nowhere, and no
/// duplicate appears.
pub proof fn lemma_unlink_all_props(t: Seq<EdgeView>, n: Seq<char>)
    ensures
        forall|i: int|
            0 <= i < unlink_all(t, n).len() ==> (#[trigger] unlink_all(t, n)[i]).west != n
                && unlink_all(t, n)[i].east != n,
        east_degree(unlink_all(t, n), n) == 0,
        west_degree(unlink_all(t, n), n) == 0,
        forall|w: Seq<char>, e: Seq<char>|
            #[trigger] contains_edge(unlink_all(t, n), w, e) ==> contains_edge(t, w, e),
        forall|w: Seq<char>, e: Seq<char>|
            contains_edge(t, w, e) && w != n && e != n ==> #[trigger] contains_edge(
                unlink_all(t, n),
                w,
                e,
            ),
        edge_distinct(t) ==> edge_distinct(unlink_all(t, n)),
        forall|m: Seq<char>| #[trigger] east_degree(unlink_all(t, n), m) <= east_degree(t, m),
        forall|m: Seq<char>| #[trigger] west_degree(unlink_all(t, n), m) <= west_degree(t, m),
    decreases t.len(),
{
    if t.len() > 0 {
        lemma_unlink_all_props(t.drop_last(), n);
        let d = t.drop_last();
        let rest = unlink_all(d, n);
        let u = unlink_all(t, n);
        let last = t.last();
        if !(last.west == n || last.east == n) {
            assert(u == rest.push(last));
            assert(u.drop_last() =~= rest);
            assert(u.last() == last);
        }
        // whatever u records, t records: a witness in `rest` lifts through
        // d into t, and a pushed last entry is t's own last entry
        assert forall|w: Seq<char>, e: Seq<char>| #[trigger]
            contains_edge(u, w, e) implies contains_edge(t, w, e) by {
            let i = choose|i: int| 0 <= i < u.len() && u[i].west == w && u[i].east == e;
            if i < rest.len() {
                assert(contains_edge(rest, w, e));
                assert(contains_edge(d, w, e));
                let j = choose|j: int| 0 <= j < d.len() && d[j].west == w && d[j].east == e;
                assert(t[j].west == w && t[j].east == e);
            } else {
                assert(u[i] == last);
                assert(t[t.len() - 1].west == w && t[t.len() - 1].east == e);
            }
        }
        // whatever t records away from n, u keeps
        assert forall|w: Seq<char>, e: Seq<char>|
            contains_edge(t, w, e) && w != n && e != n implies #[trigger] contains_edge(
            u,
            w,
            e,
        ) by {
            let i = choose|i: int| 0 <= i < t.len() && t[i].west == w && t[i].east == e;
            if i < t.len() - 1 {
                assert(d[i].west == w && d[i].east == e);
                assert(contains_edge(d, w, e));
                assert(contains_edge(rest, w, e));
                let j = choose|j: int| 0 <= j < rest.len() && rest[j].west == w && rest[j].east == e;
                assert(u[j].west == w && u[j].east == e);
            } else {
                // the last entry does not touch n, so it was pushed
                assert(u[u.len() - 1].west == w && u[u.len() - 1].east == e);
            }
        }
        assert forall|m: Seq<char>| #[trigger] east_degree(u, m) <= east_degree(t, m) by {
            if last.west == n || last.east == n {
                assert(u == rest);
            } else {
                assert(u.drop_last() =~= rest);
                assert(east_degree(u, m) == east_degree(rest, m) + (if last.west == m {
                    1nat
                } else {
                    0nat
                }));
            }
            assert(east_degree(t, m) == east_degree(d, m) + (if last.west == m {
                1nat
            } else {
                0nat
            }));
        }
        assert forall|m: Seq<char>| #[trigger] west_degree(u, m) <= west_degree(t, m) by {
            if last.west == n || last.east == n {
                assert(u == rest);
            } else {
                assert(u.drop_last() =~= rest);
                assert(west_degree(u, m) == west_degree(rest, m) + (if last.east == m {
                    1nat
                } else {
                    0nat
                }));
            }
            assert(west_degree(t, m) == west_degree(d, m) + (if last.east == m {
                1nat
            } else {
                0nat
            }));
        }
        if edge_distinct(t) {
            assert(edge_distinct(d));
            assert forall|p: int, q: int| 0 <= p < q < u.len() implies !(u[p].west == u[q].west
                && u[p].east == u[q].east) by {
                if q == u.len() - 1 && !(last.west == n || last.east == n) {
                    if u[p].west == last.west && u[p].east == last.east {
                        assert(contains_edge(rest, last.west, last.east));
                        assert(contains_edge(d, last.west, last.east));
                        let j = choose|j: int|
                            0 <= j < d.len() && d[j].west == last.west && d[j].east == last.east;
                        assert(t[j].west == t[t.len() - 1].west && t[j].east == t[t.len() - 1].east);
                    }
                }
            }
        }
    }
}

/// The exec edge table.
pub struct Links {
    pub(crate) table: Vec<Edge>,
}

impl View for Links {
    type V = Seq<EdgeView>;

    open(crate) spec fn view(&self) -> Seq<EdgeView> {
        edge_views(self.table@)
    }
}

impl Links {
    /// An empty table.
    pub(crate) fn new() -> (r: Links)
        ensures
            r@ == Seq::<EdgeView>::empty(),
    {
        let r = Links { table: Vec::new() };
        proof {
            assert(edge_views(r.table@) =~= Seq::<EdgeView>::empty());
        }
        r
    }

    /// How many east-side slots of `n` are taken.
    fn east_degree_of(&self, n: &String) -> (r: usize)
        ensures
            r == east_degree(self@, n@),
    {
        let mut i: usize = 0;
        let mut r: usize = 0;
        while i < self.table.len()
            invariant
                i <= self.table@.len(),
                r <= i,
                r == east_degree(self@.take(i as int), n@),
            decreases self.table@.len() - i,
        {
            proof {
                assert(self@.take(i + 1).drop_last() =~= self@.take(i as int));
                assert(self@.take(i + 1).last() == self@[i as int]);
                assert(self@[i as int] == self.table@[i as int]@);
            }
            if self.table[i].west == *n {
                r = r + 1;
            }
            i += 1;
        }
        proof {
            assert(self@.take(self@.len() as int) =~= self@);
        }
        r
    }

    /// How many west-side slots of `n` are taken.
    fn west_degree_of(&self, n: &String) -> (r: usize)
        ensures
            r == west_degree(self@, n@),
    {
        let mut i: usize = 0;
        let mut r: usize = 0;
        while i < self.table.len()
            invariant
                i <= self.table@.len(),
                r <= i,
                r == west_degree(self@.take(i as int), n@),
            decreases self.table@.len() - i,
        {
            proof {
                assert(self@.take(i + 1).drop_last() =~= self@.take(i as int));
                assert(self@.take(i + 1).last() == self@[i as int]);
                assert(self@[i as int] == self.table@[i as int]@);
            }
            if self.table[i].east == *n {
                r = r + 1;
            }
            i += 1;
        }
        proof {
            assert(self@.take(self@.len() as int) =~= self@);
        }
        r
    }

    /// The position of the edge `w` → `e`, when it is recorded.
    fn find_edge(&self, w: &String, e: &String) -> (r: Option<usize>)
        ensures
            match r {
                Some(i) => i < self@.len() && self@[i as int].west == w@ && self@[i as int].east
                    == e@,
                None => !contains_edge(self@, w@, e@),
            },
    {
        let mut i: usize = 0;
        while i < self.table.len()
            invariant
                i <= self.table@.len(),
                forall|k: int| 0 <= k < i ==> !(self@[k].west == w@ && self@[k].east == e@),
            decreases self.table@.len() - i,
        {
            proof {
                assert(self@[i as int] == self.table@[i as int]@);
            }
            if self.table[i].west == *w && self.table[i].east == *e {
                return Some(i);
            }
            i += 1;
        }
        proof {
            if contains_edge(self@, w@, e@) {
                let k = choose|k: int|
                    0 <= k < self@.len() && self@[k].west == w@ && self@[k].east == e@;
                assert(!(self@[k].west == w@ && self@[k].east == e@));
            }
        }
        None
    }

    /// Records the directed edge `w` → `e` when both slots are free and
    /// the edge is not recorded yet; otherwise changes nothing.
    pub(crate) fn attach(
        &mut self,
        w: &String,
        w_east_max: usize,
        e: &String,
        e_west_max: usize,
    ) -> (r: bool)
        requires
            edge_distinct(old(self)@),
        ensures
            r == can_attach(old(self)@, w@, w_east_max as nat, e@, e_west_max as nat),
            r ==> final(self)@ == old(self)@.push(EdgeView { west: w@, east: e@ }),
            !r ==> final(self)@ == old(self)@,
            edge_distinct(final(self)@),
    {
        let room = self.east_degree_of(w) < w_east_max && self.west_degree_of(e) < e_west_max;
        if room && self.find_edge(w, e).is_none() {
            let ghost t = self@;
            self.table.push(Edge { west: w.clone(), east: e.clone() });
            proof {
                assert(edge_views(self.table@) =~= t.push(EdgeView { west: w@, east: e@ }));
                assert forall|p: int, q: int| 0 <= p < q < self@.len() implies !(self@[p].west
                    == self@[q].west && self@[p].east == self@[q].east) by {
                    if q == self@.len() - 1 {
                        assert(!(t[p].west == w@ && t[p].east == e@));
                    }
                }
            }
            true
        } else {
            false
        }
    }

    /// Removes the directed edge `w` → `e` when it is recorded, freeing
    /// the slot it took on each endpoint; otherwise changes nothing.
    pub(crate) fn detach(&mut self, w: &String, e: &String) -> (r: bool)
        requires
            edge_distinct(old(self)@),
        ensures
            r == contains_edge(old(self)@, w@, e@),
            final(self)@ == remove_edge(old(self)@, w@, e@),
            edge_distinct(final(self)@),
            r ==> east_degree(final(self)@, w@) == east_degree(old(self)@, w@) - 1
                && west_degree(final(self)@, e@) == west_degree(old(self)@, e@) - 1,
    {
        let ghost t = self@;
        match self.find_edge(w, e) {
            Some(i) => {
                proof {
                    assert(contains_edge(t, w@, e@));
                    lemma_remove_edge_unique(t, w@, e@);
                    assert(edge_index(t, w@, e@) == i as int);
                    lemma_degree_remove(t, w@, i as int);
                    lemma_degree_remove(t, e@, i as int);
                }
                self.table.remove(i);
                proof {
                    assert(edge_views(self.table@) =~= t.remove(i as int));
                }
                true
            },
            None => {
                false
            },
        }
    }

    /// Removes every edge touching the brick named `n`, both sides and
    /// both directions, in one sweep.
    pub(crate) fn sever(&mut self, n: &String)
        ensures
            final(self)@ == unlink_all(old(self)@, n@),
    {
        let ghost t = self@;
        let mut kept: Vec<Edge> = Vec::new();
        let mut i: usize = 0;
        proof {
            assert(edge_views(kept@) =~= Seq::<EdgeView>::empty());
            assert(t.take(0) =~= Seq::<EdgeView>::empty());
        }
        while i < self.table.len()
            invariant
                i <= self.table@.len(),
                t == edge_views(self.table@),
                self.table@.len() == t.len(),
                edge_views(kept@) == unlink_all(t.take(i as int), n@),
            decreases self.table@.len() - i,
        {
            proof {
                assert(t.take(i + 1).drop_last() =~= t.take(i as int));
                assert(t.take(i + 1).last() == t[i as int]);
                assert(t[i as int] == self.table@[i as int]@);
            }
            let keep = !(self.table[i].west == *n || self.table[i].east == *n);
            if keep {
                let ghost kv = edge_views(kept@);
                let d = Edge {
                    west: self.table[i].west.clone(),
                    east: self.table[i].east.clone(),
                };
                proof {
                    assert(d@ == t[i as int]);
                }
                kept.push(d);
                proof {
                    assert(edge_views(kept@) =~= kv.push(t[i as int]));
                }
            }
            i += 1;
        }
        proof {
            assert(t.take(t.len() as int) =~= t);
        }
        self.table = kept;
    }
}

} // verus!
