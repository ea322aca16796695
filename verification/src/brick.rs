//! The brick dispatcher: a closed tagged union over the seven concrete
//! node kinds, exposing the uniform contract — link, unlink, poll,
//! pollable, name — regardless of kind, plus one capability-checked
//! accessor per kind for the kind-specific operations.
//!
//! A brick carries its name, its per-side capacity bounds and its
//! kind-specific state; the edges themselves live in the shared
//! [`Runtime`] context's table, so linking operations take the context
//! and the bricks' own state never changes under them.

use vstd::prelude::*;

use crate::Side;
use crate::error::Error;
use crate::firewall::{Firewall, RuleView};
use crate::hub::Hub;
use crate::links::{
    can_attach, contains_edge, east_degree, remove_edge, unlink_all, west_degree, EdgeView,
};
use crate::nic::Nic;
use crate::nop::Nop;
use crate::switch::Switch;
use crate::tap::Tap;
use crate::vhost::Vhost;
use crate::{Runtime, RuntimeView};

verus! {

/// The tag of a brick, carrying the kind-specific state: the staged rule
/// set of a firewall, the output side of a switch, the feature-flag
/// bitmask of a vhost-user interface.
pub enum KindView {
    Nop,
    Firewall { rules: Seq<RuleView> },
    Tap,
    Switch { output: Side },
    Nic,
    Hub,
    Vhost { flags: u64 },
}

/// The interface kinds that perform I/O of their own — tap, NIC and
/// vhost-user — are pollable; the pure forwarding and filtering kinds —
/// pass-through, switch, hub and firewall — are not.
pub open spec fn is_pollable(k: KindView) -> bool {
    k is Tap || k is Nic || k is Vhost
}

/// Abstract state of one brick: its name, its kind, its per-side
/// capacity bounds, and the units of pending work an interface brick
/// will report on its next poll.
#[verifier::ext_equal]
pub struct NodeView {
    pub name: Seq<char>,
    pub kind: KindView,
    pub west_max: nat,
    pub east_max: nat,
    pub pending: nat,
}

impl NodeView {
    /// Only pollable kinds hold pending work, and every kind other than
    /// switch and hub has exactly one slot per side.
    pub open spec fn wf(self) -> bool {
        &&& !is_pollable(self.kind) ==> self.pending == 0
        &&& match self.kind {
            KindView::Switch { .. } | KindView::Hub => true,
            _ => self.west_max == 1 && self.east_max == 1,
        }
    }
}

/// Whether `w.link(e)` succeeds against the table `t`: a free east-side
/// slot on `w`, a free west-side slot on `e`, and no record of this
/// exact directed edge.
pub open spec fn brick_can_link(t: Seq<EdgeView>, w: NodeView, e: NodeView) -> bool {
    can_attach(t, w.name, w.east_max, e.name, e.west_max)
}

/// The table after a successful link.
pub open spec fn brick_linked(t: Seq<EdgeView>, w: NodeView, e: NodeView) -> Seq<EdgeView> {
    t.push(EdgeView { west: w.name, east: e.name })
}

/// Whether `w.unlink_from(e)` succeeds against the table `t`: the table
/// records the directed edge `w` → `e`.
pub open spec fn brick_can_unlink(t: Seq<EdgeView>, w: NodeView, e: NodeView) -> bool {
    contains_edge(t, w.name, e.name)
}

/// The table after a successful unlink.
pub open spec fn brick_unlinked(t: Seq<EdgeView>, w: NodeView, e: NodeView) -> Seq<EdgeView> {
    remove_edge(t, w.name, e.name)
}

/// One packet-processing node of any of the seven kinds.
pub enum Brick {
    Nop(Nop),
    Firewall(Firewall),
    Tap(Tap),
    Switch(Switch),
    Nic(Nic),
    Hub(Hub),
    Vhost(Vhost),
}

impl View for Brick {
    type V = NodeView;

    open(crate) spec fn view(&self) -> NodeView {
        match self {
            Brick::Nop(b) => b@,
            Brick::Firewall(b) => b@,
            Brick::Tap(b) => b@,
            Brick::Switch(b) => b@,
            Brick::Nic(b) => b@,
            Brick::Hub(b) => b@,
            Brick::Vhost(b) => b@,
        }
    }
}

impl Brick {
    /// The brick's name, stable for its lifetime.
    pub fn name(&self) -> (r: String)
        ensures
            r@ == self@.name,
    {
        match self {
            Brick::Nop(b) => b.name.clone(),
            Brick::Firewall(b) => b.name.clone(),
            Brick::Tap(b) => b.name.clone(),
            Brick::Switch(b) => b.name.clone(),
            Brick::Nic(b) => b.name.clone(),
            Brick::Hub(b) => b.name.clone(),
            Brick::Vhost(b) => b.name.clone(),
        }
    }

    /// The brick's west-side capacity bound.
    pub fn west_max(&self) -> (r: usize)
        ensures
            r == self@.west_max,
    {
        match self {
            Brick::Nop(b) => b.west_max,
            Brick::Firewall(b) => b.west_max,
            Brick::Tap(b) => b.west_max,
            Brick::Switch(b) => b.west_max,
            Brick::Nic(b) => b.west_max,
            Brick::Hub(b) => b.west_max,
            Brick::Vhost(b) => b.west_max,
        }
    }

    /// The brick's east-side capacity bound.
    pub fn east_max(&self) -> (r: usize)
        ensures
            r == self@.east_max,
    {
        match self {
            Brick::Nop(b) => b.east_max,
            Brick::Firewall(b) => b.east_max,
            Brick::Tap(b) => b.east_max,
            Brick::Switch(b) => b.east_max,
            Brick::Nic(b) => b.east_max,
            Brick::Hub(b) => b.east_max,
            Brick::Vhost(b) => b.east_max,
        }
    }

    /// Whether the brick performs I/O of its own when polled.
    pub fn pollable(&self) -> (r: bool)
        ensures
            r == is_pollable(self@.kind),
    {
        match self {
            Brick::Nop(b) => b.pollable(),
            Brick::Firewall(b) => b.pollable(),
            Brick::Tap(b) => b.pollable(),
            Brick::Switch(b) => b.pollable(),
            Brick::Nic(b) => b.pollable(),
            Brick::Hub(b) => b.pollable(),
            Brick::Vhost(b) => b.pollable(),
        }
    }

    /// Creates the directed edge `self` → `east` in the shared context's
    /// table.  Succeeds exactly when both ends have a free slot on the
    /// facing side and this edge does not already exist; a refused
    /// attempt changes nothing.
    pub fn link(&mut self, east: &mut Brick, rt: &mut Runtime) -> (r: Result<(), Error>)
        requires
            old(rt)@.wf(),
        ensures
            final(self)@ == old(self)@,
            final(east)@ == old(east)@,
            final(rt)@.wf(),
            if brick_can_link(old(rt)@.edges, old(self)@, old(east)@) {
                &&& r is Ok
                &&& final(rt)@ == (RuntimeView {
                    edges: brick_linked(old(rt)@.edges, old(self)@, old(east)@),
                    ..old(rt)@
                })
            } else {
                &&& r is Err
                &&& r->Err_0@.engine is Some
                &&& final(rt)@ == old(rt)@
            },
    {
        let w_name = self.name();
        let e_name = east.name();
        let w_east_max = self.east_max();
        let e_west_max = east.west_max();
        if rt.attach(&w_name, w_east_max, &e_name, e_west_max) {
            Ok(())
        } else {
            Err(Error::engine_report("cannot link bricks: no free slot or edge already exists"))
        }
    }

    /// Removes the directed edge `self` → `east` from the shared
    /// context's table.  Succeeds exactly when that edge exists,
    /// releasing the slot it held on each end; a refused attempt changes
    /// nothing.
    pub fn unlink_from(&mut self, east: &mut Brick, rt: &mut Runtime) -> (r: Result<(), Error>)
        requires
            old(rt)@.wf(),
        ensures
            final(self)@ == old(self)@,
            final(east)@ == old(east)@,
            final(rt)@.wf(),
            if brick_can_unlink(old(rt)@.edges, old(self)@, old(east)@) {
                &&& r is Ok
                &&& final(rt)@ == (RuntimeView {
                    edges: brick_unlinked(old(rt)@.edges, old(self)@, old(east)@),
                    ..old(rt)@
                })
            } else {
                &&& r is Err
                &&& r->Err_0@.engine is Some
                &&& final(rt)@ == old(rt)@
            },
    {
        let w_name = self.name();
        let e_name = east.name();
        if rt.detach(&w_name, &e_name) {
            Ok(())
        } else {
            Err(Error::engine_report("cannot unlink bricks: no such edge"))
        }
    }

    /// Removes every edge touching this brick from the shared context's
    /// table — any number, either direction, either role — so both of
    /// its sides are fully free again.  Infallible: an engine-reported
    /// failure here counts as a broken invariant, fatal and never
    /// returned.
    pub fn unlink(&mut self, rt: &mut Runtime)
        requires
            old(rt)@.wf(),
        ensures
            final(self)@ == old(self)@,
            final(rt)@ == (RuntimeView {
                edges: unlink_all(old(rt)@.edges, old(self)@.name),
                ..old(rt)@
            }),
            final(rt)@.wf(),
            forall|w: Seq<char>, e: Seq<char>|
                #[trigger] contains_edge(final(rt)@.edges, w, e) ==> w != old(self)@.name && e
                    != old(self)@.name,
            east_degree(final(rt)@.edges, old(self)@.name) == 0,
            west_degree(final(rt)@.edges, old(self)@.name) == 0,
    {
        let name = self.name();
        let ghost t = rt@.edges;
        rt.sever(&name);
        proof {
            crate::links::lemma_unlink_all_props(t, name@);
            let u = unlink_all(t, name@);
            assert forall|w: Seq<char>, e: Seq<char>| #[trigger]
                contains_edge(u, w, e) implies w != name@ && e != name@ by {
                let i = choose|i: int| 0 <= i < u.len() && u[i].west == w && u[i].east == e;
                assert(u[i].west != name@ && u[i].east != name@);
            }
        }
    }

    /// Processes the brick's pending work and reports how many units were
    /// handled.  Fails immediately, touching nothing, when the brick is
    /// not pollable.
    pub fn poll(&mut self) -> (r: Result<usize, Error>)
        ensures
            is_pollable(old(self)@.kind) ==> r is Ok && r->Ok_0 == old(self)@.pending
                && final(self)@ == (NodeView { pending: 0, ..old(self)@ }),
            !is_pollable(old(self)@.kind) ==> r is Err && final(self)@ == old(self)@
                && r->Err_0@.engine is None && r->Err_0@.comment == "Brick is not pollable"@,
    {
        match self {
            Brick::Tap(b) => {
                let n = b.pending;
                b.pending = 0;
                Ok(n)
            },
            Brick::Nic(b) => {
                let n = b.pending;
                b.pending = 0;
                Ok(n)
            },
            Brick::Vhost(b) => {
                let n = b.pending;
                b.pending = 0;
                Ok(n)
            },
            _ => {
                let mut err = Error::new();
                err.set("Brick is not pollable");
                Err(err)
            },
        }
    }

    /// The wrapped firewall, when this brick is one.
    pub fn firewall(&mut self) -> (r: Option<&mut Firewall>)
        ensures
            old(self)@.kind is Firewall ==> r.is_some() && (*r.unwrap())@ == old(self)@
                && final(self)@ == (*final(r.unwrap()))@,
            !(old(self)@.kind is Firewall) ==> r.is_none() && final(self)@ == old(self)@,
    {
        match self {
            Brick::Firewall(b) => Some(b),
            _ => None,
        }
    }

    /// The wrapped pass-through, when this brick is one.
    pub fn nop(&mut self) -> (r: Option<&mut Nop>)
        ensures
            old(self)@.kind is Nop ==> r.is_some() && (*r.unwrap())@ == old(self)@
                && final(self)@ == (*final(r.unwrap()))@,
            !(old(self)@.kind is Nop) ==> r.is_none() && final(self)@ == old(self)@,
    {
        match self {
            Brick::Nop(b) => Some(b),
            _ => None,
        }
    }

    /// The wrapped tap interface, when this brick is one.
    pub fn tap(&mut self) -> (r: Option<&mut Tap>)
        ensures
            old(self)@.kind is Tap ==> r.is_some() && (*r.unwrap())@ == old(self)@
                && final(self)@ == (*final(r.unwrap()))@,
            !(old(self)@.kind is Tap) ==> r.is_none() && final(self)@ == old(self)@,
    {
        match self {
            Brick::Tap(b) => Some(b),
            _ => None,
        }
    }

    /// The wrapped switch, when this brick is one.
    pub fn switch(&mut self) -> (r: Option<&mut Switch>)
        ensures
            old(self)@.kind is Switch ==> r.is_some() && (*r.unwrap())@ == old(self)@
                && final(self)@ == (*final(r.unwrap()))@,
            !(old(self)@.kind is Switch) ==> r.is_none() && final(self)@ == old(self)@,
    {
        match self {
            Brick::Switch(b) => Some(b),
            _ => None,
        }
    }

    /// The wrapped NIC, when this brick is one.
    pub fn nic(&mut self) -> (r: Option<&mut Nic>)
        ensures
            old(self)@.kind is Nic ==> r.is_some() && (*r.unwrap())@ == old(self)@
                && final(self)@ == (*final(r.unwrap()))@,
            !(old(self)@.kind is Nic) ==> r.is_none() && final(self)@ == old(self)@,
    {
        match self {
            Brick::Nic(b) => Some(b),
            _ => None,
        }
    }

    /// The wrapped hub, when this brick is one.
    pub fn hub(&mut self) -> (r: Option<&mut Hub>)
        ensures
            old(self)@.kind is Hub ==> r.is_some() && (*r.unwrap())@ == old(self)@
                && final(self)@ == (*final(r.unwrap()))@,
            !(old(self)@.kind is Hub) ==> r.is_none() && final(self)@ == old(self)@,
    {
        match self {
            Brick::Hub(b) => Some(b),
            _ => None,
        }
    }

    /// The wrapped vhost-user interface, when this brick is one.
    pub fn vhost(&mut self) -> (r: Option<&mut Vhost>)
        ensures
            old(self)@.kind is Vhost ==> r.is_some() && (*r.unwrap())@ == old(self)@
                && final(self)@ == (*final(r.unwrap()))@,
            !(old(self)@.kind is Vhost) ==> r.is_none() && final(self)@ == old(self)@,
    {
        match self {
            Brick::Vhost(b) => Some(b),
            _ => None,
        }
    }
}

/// Two freshly constructed bricks with a slot on the facing sides can
/// always be linked: neither takes any slot yet and no edge exists
/// between them.
pub proof fn lemma_fresh_bricks_can_link(t: Seq<EdgeView>, w: NodeView, e: NodeView)
    requires
        east_degree(t, w.name) == 0,
        west_degree(t, e.name) == 0,
        w.east_max > 0,
        e.west_max > 0,
    ensures
        brick_can_link(t, w, e),
{
    if contains_edge(t, w.name, e.name) {
        crate::links::lemma_contains_degree(t, w.name, e.name);
    }
}

/// For any two bricks with a free slot on the facing sides and no edge
/// between them yet, a link succeeds exactly once: repeating the same
/// link immediately afterwards is refused, because the edge now exists.
pub proof fn lemma_brick_link_exactly_once(t: Seq<EdgeView>, w: NodeView, e: NodeView)
    requires
        brick_can_link(t, w, e),
    ensures
        !brick_can_link(brick_linked(t, w, e), w, e),
{
    let u = brick_linked(t, w, e);
    assert(u[u.len() - 1].west == w.name && u[u.len() - 1].east == e.name);
    assert(contains_edge(u, w.name, e.name));
}

/// A brick accepts at most its side bound's worth of simultaneous links:
/// an attempt on a full side is refused, and removing one link frees
/// exactly one slot on each end it joined.
pub proof fn lemma_brick_capacity(t: Seq<EdgeView>, w: NodeView, e: NodeView)
    ensures
        east_degree(t, w.name) >= w.east_max ==> !brick_can_link(t, w, e),
        west_degree(t, e.name) >= e.west_max ==> !brick_can_link(t, w, e),
        brick_can_unlink(t, w, e) ==> east_degree(brick_unlinked(t, w, e), w.name)
            == east_degree(t, w.name) - 1 && west_degree(brick_unlinked(t, w, e), e.name)
            == west_degree(t, e.name) - 1,
{
    if brick_can_unlink(t, w, e) {
        let i = crate::links::edge_index(t, w.name, e.name);
        assert(0 <= i < t.len() && t[i].west == w.name && t[i].east == e.name);
        crate::links::lemma_degree_remove(t, w.name, i);
        crate::links::lemma_degree_remove(t, e.name, i);
    }
}

/// After an unlink succeeds, repeating it is refused — the edge is gone —
/// and linking the same two bricks succeeds again: the removal restored
/// the capacity the edge held on both ends.
pub proof fn lemma_brick_unlink_then_relink(t: Seq<EdgeView>, w: NodeView, e: NodeView)
    requires
        crate::links::edge_distinct(t),
        brick_can_unlink(t, w, e),
        east_degree(t, w.name) <= w.east_max,
        west_degree(t, e.name) <= e.west_max,
    ensures
        !brick_can_unlink(brick_unlinked(t, w, e), w, e),
        brick_can_link(brick_unlinked(t, w, e), w, e),
{
    crate::links::lemma_remove_edge_unique(t, w.name, e.name);
    crate::links::lemma_contains_degree(t, w.name, e.name);
    lemma_brick_capacity(t, w, e);
}

/// Severing a brick removes every edge touching it — any number, either
/// direction — frees both of its sides entirely, and keeps every edge
/// between other bricks.
pub proof fn lemma_brick_unlink_severs(t: Seq<EdgeView>, n: Seq<char>)
    ensures
        forall|m: Seq<char>| !(#[trigger] contains_edge(unlink_all(t, n), n, m)),
        forall|m: Seq<char>| !(#[trigger] contains_edge(unlink_all(t, n), m, n)),
        east_degree(unlink_all(t, n), n) == 0,
        west_degree(unlink_all(t, n), n) == 0,
        forall|w: Seq<char>, e: Seq<char>|
            contains_edge(t, w, e) && w != n && e != n ==> #[trigger] contains_edge(
                unlink_all(t, n),
                w,
                e,
            ),
{
    crate::links::lemma_unlink_all_props(t, n);
    let u = unlink_all(t, n);
    assert forall|m: Seq<char>| !(#[trigger] contains_edge(u, n, m)) by {
        if contains_edge(u, n, m) {
            let i = choose|i: int| 0 <= i < u.len() && u[i].west == n && u[i].east == m;
            assert(u[i].west != n);
        }
    }
    assert forall|m: Seq<char>| !(#[trigger] contains_edge(u, m, n)) by {
        if contains_edge(u, m, n) {
            let i = choose|i: int| 0 <= i < u.len() && u[i].west == m && u[i].east == n;
            assert(u[i].east != n);
        }
    }
}

} // verus!
