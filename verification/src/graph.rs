//! The graph: a named registry of bricks.  It owns every brick added to
//! it, keeps names unique — adding under a used name drops and releases
//! the previous entry — and drives the whole topology with one poll
//! sweep.

use vstd::prelude::*;

use crate::brick::{is_pollable, Brick, NodeView};
use crate::error::Error;
use vstd::std_specs::vec::vec_index_mut;
use vstd::string::StringExecFns;

verus! {

/// The registry, abstractly.
pub open spec fn brick_views(s: Seq<Brick>) -> Seq<NodeView> {
    s.map_values(|b: Brick| b@)
}

/// The names of the registered bricks, in registry order.
pub open spec fn brick_names(s: Seq<NodeView>) -> Seq<Seq<char>> {
    s.map_values(|v: NodeView| v.name)
}

/// Abstract state of a graph: its name and its registered bricks, in
/// registry order.
pub struct GraphView {
    pub name: Seq<char>,
    pub bricks: Seq<NodeView>,
}

impl GraphView {
    /// Every registered brick is well formed and no two share a name.
    pub open spec fn wf(self) -> bool {
        &&& forall|i: int| 0 <= i < self.bricks.len() ==> (#[trigger] self.bricks[i]).wf()
        &&& forall|i: int, j: int|
            0 <= i < j < self.bricks.len() ==> self.bricks[i].name != self.bricks[j].name
    }
}

/// The registry without its first brick named `name`, or unchanged when
/// none carries that name.
pub open spec fn remove_named(s: Seq<NodeView>, name: Seq<char>) -> Seq<NodeView> {
    match brick_names(s).index_of_first(name) {
        Some(i) => s.remove(i),
        None => s,
    }
}

/// What [`Graph::add`] does: the previous brick under the same name, if
/// any, is dropped, and the new brick is registered.
pub open spec fn graph_add(g: GraphView, b: NodeView) -> GraphView {
    GraphView { bricks: remove_named(g.bricks, b.name).push(b), ..g }
}

/// The counts a poll sweep reports: one entry per pollable brick, in
/// registry order, each the brick's pending work.
pub open spec fn poll_counts(s: Seq<NodeView>) -> Seq<nat>
    decreases s.len(),
{
    if s.len() == 0 {
        Seq::empty()
    } else {
        poll_counts(s.drop_last()) + (if is_pollable(s.last().kind) {
            seq![s.last().pending]
        } else {
            Seq::<nat>::empty()
        })
    }
}

/// How many registered bricks are pollable.
pub open spec fn count_pollable(s: Seq<NodeView>) -> nat
    decreases s.len(),
{
    if s.len() == 0 {
        0
    } else {
        count_pollable(s.drop_last()) + (if is_pollable(s.last().kind) {
            1nat
        } else {
            0nat
        })
    }
}

/// A poll sweep reports exactly one outcome per pollable member: no more,
/// no fewer, whatever the non-pollable members in between.
pub proof fn lemma_poll_counts_len(s: Seq<NodeView>)
    ensures
        poll_counts(s).len() == count_pollable(s),
    decreases s.len(),
{
    if s.len() > 0 {
        lemma_poll_counts_len(s.drop_last());
    }
}

/// The registry after a poll sweep: every brick's pending work consumed,
/// everything else untouched.
pub open spec fn drained(s: Seq<NodeView>) -> Seq<NodeView> {
    s.map_values(|v: NodeView| NodeView { pending: 0, ..v })
}

/// Replacing one brick replaces one entry of the abstract registry.
broadcast proof fn lemma_brick_views_update(s: Seq<Brick>, i: int, b: Brick)
    requires
        0 <= i < s.len(),
    ensures
        #[trigger] brick_views(s.update(i, b)) == brick_views(s).update(i, b@),
{
    assert(brick_views(s.update(i, b)) =~= brick_views(s).update(i, b@));
}

/// The member names of a topology description, in registry order, each
/// preceded by one space.
pub open spec fn member_list(s: Seq<NodeView>) -> Seq<char>
    decreases s.len(),
{
    if s.len() == 0 {
        Seq::empty()
    } else {
        member_list(s.drop_last()) + " "@ + s.last().name
    }
}

/// The topology description [`Graph::dot`] produces: the graph's name and
/// every member's, space-separated.
pub open spec fn dot_text(g: GraphView) -> Seq<char> {
    "graph "@ + g.name + member_list(g.bricks)
}

/// A topology description is never empty: it opens with its fixed header,
/// whatever the graph holds.
pub proof fn lemma_dot_text_nonempty(g: GraphView)
    ensures
        dot_text(g).len() > 0,
{
    reveal_strlit("graph ");
}

/// A named registry of bricks.
pub struct Graph {
    pub name: String,
    pub(crate) bricks: Vec<Brick>,
}

impl View for Graph {
    type V = GraphView;

    open(crate) spec fn view(&self) -> GraphView {
        GraphView { name: self.name@, bricks: brick_views(self.bricks@) }
    }
}

/// The position of the first brick carrying `name`, if any.
fn find_index(bricks: &Vec<Brick>, name: &String) -> (r: Option<usize>)
    ensures
        match r {
            Some(i) => i < bricks@.len() && brick_views(bricks@)[i as int].name == name@
                && (forall|k: int| 0 <= k < i ==> brick_views(bricks@)[k].name != name@),
            None => forall|k: int| 0 <= k < bricks@.len()
                ==> brick_views(bricks@)[k].name != name@,
        },
{
    let mut i: usize = 0;
    while i < bricks.len()
        invariant
            i <= bricks@.len(),
            forall|k: int| 0 <= k < i ==> brick_views(bricks@)[k].name != name@,
        decreases bricks@.len() - i,
    {
        let bn = bricks[i].name();
        if bn == *name {
            return Some(i);
        }
        i += 1;
    }
    None
}

impl Graph {
    /// A fresh, empty graph.
    pub fn new(name: &str) -> (r: Graph)
        ensures
            r@ == (GraphView { name: name@, bricks: Seq::empty() }),
            r@.wf(),
    {
        let g = Graph { name: name.to_owned(), bricks: Vec::new() };
        proof {
            assert(brick_views(g.bricks@) =~= Seq::<NodeView>::empty());
        }
        g
    }

    /// How many bricks are registered.
    pub fn len(&self) -> (r: usize)
        ensures
            r == self@.bricks.len(),
    {
        self.bricks.len()
    }

    /// Registers a brick under its name, taking ownership.  A brick
    /// already registered under the same name is dropped and released:
    /// registration is an upsert.  Returns the graph itself, so
    /// insertions chain.
    pub fn add(&mut self, brick: Brick) -> (g: &mut Graph)
        requires
            old(self)@.wf(),
            brick@.wf(),
        ensures
            (*g)@ == graph_add(old(self)@, brick@),
            (*g)@.wf(),
            final(self)@ == final(g)@,
    {
        let name = brick.name();
        let ghost orig = brick_views(self.bricks@);
        match find_index(&self.bricks, &name) {
            Some(i) => {
                self.bricks.remove(i);
                proof {
                    brick_names(orig).index_of_first_ensures(brick@.name);
                    assert(brick_names(orig)[i as int] == brick@.name);
                    assert(brick_names(orig).index_of_first(brick@.name) == Some(i as int)) by {
                        let j = brick_names(orig).index_of_first(brick@.name).unwrap();
                        assert(brick_names(orig)[j] == brick@.name);
                    }
                    assert(brick_views(self.bricks@) =~= orig.remove(i as int));
                    assert(remove_named(orig, brick@.name) == orig.remove(i as int));
                }
            },
            None => {
                proof {
                    brick_names(orig).index_of_first_ensures(brick@.name);
                    if brick_names(orig).contains(brick@.name) {
                        let w = choose|k: int|
                            0 <= k < brick_names(orig).len() && brick_names(orig)[k] == brick@.name;
                        assert(brick_views(self.bricks@)[w].name == brick@.name);
                    }
                    assert(remove_named(orig, brick@.name) == orig);
                }
            },
        }
        let ghost kept = brick_views(self.bricks@);
        self.bricks.push(brick);
        proof {
            assert(brick_views(self.bricks@) =~= kept.push(brick@));
            let out = remove_named(orig, brick@.name).push(brick@);
            assert(brick_views(self.bricks@) == out);
            // names stay unique: the only brick that carried the new name
            // is gone, and dropping an entry keeps the others distinct
            assert forall|p: int, q: int| 0 <= p < q < out.len() implies out[p].name
                != out[q].name by {
                brick_names(orig).index_of_first_ensures(brick@.name);
                if q < out.len() - 1 {
                    match brick_names(orig).index_of_first(brick@.name) {
                        Some(i) => {
                            orig.remove_ensures(i);
                            assert(out[p] == (if p < i { orig[p] } else { orig[p + 1] }));
                            assert(out[q] == (if q < i { orig[q] } else { orig[q + 1] }));
                        },
                        None => {},
                    }
                } else {
                    // the new brick's name occurs nowhere among the kept ones
                    match brick_names(orig).index_of_first(brick@.name) {
                        Some(i) => {
                            orig.remove_ensures(i);
                            assert(out[p] == (if p < i { orig[p] } else { orig[p + 1] }));
                            assert(brick_names(orig)[i] == orig[i].name);
                            if out[p].name == brick@.name {
                                let pi: int = if p < i { p } else { p + 1 };
                                assert(brick_names(orig)[pi] == brick@.name);
                                assert(orig[pi].name == orig[i].name);
                            }
                        },
                        None => {
                            if out[p].name == brick@.name {
                                assert(brick_names(orig)[p] == brick@.name);
                                assert(brick_names(orig).contains(brick@.name));
                            }
                        },
                    }
                }
            }
        }
        self
    }

    /// The registered brick carrying `name`, for in-place use, when one
    /// exists.
    pub fn get_brick(&mut self, name: &str) -> (r: Option<&mut Brick>)
        ensures
            r.is_some() <==> (exists|k: int|
                0 <= k < old(self)@.bricks.len() && (#[trigger] old(self)@.bricks[k]).name
                    == name@),
            r.is_some() ==> exists|k: int|
                0 <= k < old(self)@.bricks.len() && (#[trigger] old(self)@.bricks[k]).name
                    == name@ && (*r.unwrap())@ == old(self)@.bricks[k] && final(self)@
                    == (GraphView {
                    bricks: old(self)@.bricks.update(k, (*final(r.unwrap()))@),
                    ..old(self)@
                }),
            r.is_none() ==> final(self)@ == old(self)@,
    {
        broadcast use lemma_brick_views_update;

        let owned = name.to_owned();
        match find_index(&self.bricks, &owned) {
            Some(i) => Some(vec_index_mut(&mut self.bricks, i)),
            None => None,
        }
    }

    /// Polls every pollable member once, in registry order, and returns
    /// one outcome per pollable member; the others are not contacted.  A
    /// failing member would not keep the rest of the sweep from running —
    /// every outcome is returned for the caller to inspect.
    pub fn poll(&mut self) -> (results: Vec<Result<usize, Error>>)
        requires
            old(self)@.wf(),
        ensures
            final(self)@.name == old(self)@.name,
            final(self)@.bricks == drained(old(self)@.bricks),
            final(self)@.wf(),
            results@.len() == poll_counts(old(self)@.bricks).len(),
            forall|k: int| 0 <= k < results@.len() ==> (#[trigger] results@[k]) is Ok
                && results@[k]->Ok_0 == poll_counts(old(self)@.bricks)[k],
    {
        broadcast use lemma_brick_views_update;

        let ghost orig = brick_views(self.bricks@);
        let mut results: Vec<Result<usize, Error>> = Vec::new();
        let mut i: usize = 0;
        while i < self.bricks.len()
            invariant
                i <= self.bricks@.len(),
                self.bricks@.len() == orig.len(),
                self.name@ == old(self)@.name,
                old(self)@.bricks == orig,
                old(self)@.wf(),
                forall|k: int| 0 <= k < i ==> (#[trigger] brick_views(self.bricks@)[k])
                    == (NodeView { pending: 0, ..orig[k] }),
                forall|k: int| i <= k < orig.len() ==> (#[trigger] brick_views(
                    self.bricks@,
                )[k]) == orig[k],
                results@.len() == poll_counts(orig.take(i as int)).len(),
                forall|k: int| 0 <= k < results@.len() ==> (#[trigger] results@[k]) is Ok
                    && results@[k]->Ok_0 == poll_counts(orig.take(i as int))[k],
            decreases self.bricks@.len() - i,
        {
            let ghost prev_vec = self.bricks@;
            let mut b = self.bricks.remove(i);
            proof {
                assert(brick_views(prev_vec)[i as int] == prev_vec[i as int]@);
                assert(b@ == orig[i as int]);
            }
            if b.pollable() {
                let one = b.poll();
                results.push(one);
            }
            let ghost bfin = b@;
            proof {
                prev_vec.remove_ensures(i as int);
                prev_vec.remove(i as int).insert_ensures(i as int, b);
                if is_pollable(orig[i as int].kind) {
                    assert(bfin == (NodeView { pending: 0, ..orig[i as int] }));
                }
            }
            self.bricks.insert(i, b);
            i += 1;
            proof {
                assert(self.bricks@[i - 1]@ == bfin);
                assert(self.bricks@ =~= prev_vec.update(i - 1, self.bricks@[i - 1]));
                assert(brick_views(self.bricks@) =~= brick_views(prev_vec).update(i - 1, bfin));
                assert(orig.take(i as int).drop_last() =~= orig.take(i - 1));
                assert(orig.take(i as int).last() == orig[i - 1]);
                if !is_pollable(orig[i - 1].kind) {
                    // a non-pollable brick holds no pending work, so
                    // leaving it alone is the same as draining it
                    assert(orig[i - 1].pending == 0);
                    assert(bfin == orig[i - 1]);
                    assert(bfin =~= (NodeView { pending: 0, ..orig[i - 1] }));
                    assert(poll_counts(orig.take(i as int)) =~= poll_counts(orig.take(i - 1)));
                } else {
                    assert(poll_counts(orig.take(i as int)) =~= poll_counts(orig.take(i - 1))
                        + seq![orig[i - 1].pending]);
                }
            }
        }
        proof {
            assert(orig.take(orig.len() as int) =~= orig);
            assert(brick_views(self.bricks@) =~= drained(orig));
        }
        results
    }

    /// A textual description of the registered topology: the graph's name
    /// and every member's, in registry order.  Fails, touching nothing,
    /// when the graph has no members — there is nothing to describe.
    pub fn dot(&mut self) -> (r: Result<String, Error>)
        ensures
            final(self)@ == old(self)@,
            old(self)@.bricks.len() == 0 ==> r is Err && r->Err_0@.engine is None
                && r->Err_0@.comment == "no brick available in graph"@,
            old(self)@.bricks.len() > 0 ==> r is Ok && r->Ok_0@ == dot_text(old(self)@)
                && r->Ok_0@.len() > 0,
    {
        if self.bricks.is_empty() {
            let mut e = Error::new();
            e.set("no brick available in graph");
            return Err(e);
        }
        let mut s = "graph ".to_owned();
        s.append(self.name.as_str());
        proof {
            assert(brick_views(self.bricks@).take(0) =~= Seq::<NodeView>::empty());
            assert(s@ =~= "graph "@ + self.name@ + member_list(
                brick_views(self.bricks@).take(0),
            ));
        }
        let mut i: usize = 0;
        while i < self.bricks.len()
            invariant
                i <= self.bricks@.len(),
                self.bricks@ == old(self).bricks@,
                self.name@ == old(self).name@,
                s@ == "graph "@ + self.name@ + member_list(brick_views(self.bricks@).take(
                    i as int,
                )),
            decreases self.bricks@.len() - i,
        {
            let member = self.bricks[i].name();
            s.append(" ");
            s.append(member.as_str());
            i += 1;
            proof {
                let vs = brick_views(self.bricks@);
                assert(vs.take(i as int).drop_last() =~= vs.take(i - 1));
                assert(vs.take(i as int).last() == vs[i - 1]);
                assert(vs[i - 1] == self.bricks@[i - 1]@);
                assert(s@ =~= "graph "@ + self.name@ + member_list(vs.take(i as int)));
            }
        }
        proof {
            let vs = brick_views(self.bricks@);
            assert(vs.take(vs.len() as int) =~= vs);
            lemma_dot_text_nonempty(self@);
        }
        Ok(s)
    }
}

} // verus!
