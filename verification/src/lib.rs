//! A typed layer for composing a directed graph of packet-processing
//! bricks — interfaces, filters and forwarding elements — into a running
//! dataflow topology, and for driving that topology with a polling sweep.
//!
//! The crate keeps an explicit ledger of the topology: each brick carries
//! its name, its per-side port capacities and its kind-specific state,
//! while the shared runtime context holds the one table of every directed
//! edge — the links belong to the engine, not to the bricks — and every
//! linking decision (capacity checks, duplicate edges, missing edges) is
//! made and verified here.  The data plane itself — what happens to a
//! packet once a pollable brick reports it — is the embedding
//! application's affair: it deposits pending work on the interface bricks
//! and consumes the outcomes of each poll sweep.

use vstd::prelude::*;

use crate::links::{
    can_attach, contains_edge, east_degree, edge_distinct, remove_edge, unlink_all, west_degree,
    EdgeView, Links,
};

pub mod brick;
pub mod error;
pub mod firewall;
pub mod graph;
pub mod hub;
pub mod links;
pub mod nic;
pub mod nop;
pub mod switch;
pub mod tap;
pub mod vhost;

pub use brick::Brick;
pub use error::Error;
pub use firewall::Firewall;
pub use graph::Graph;
pub use hub::Hub;
pub use nic::Nic;
pub use nop::Nop;
pub use switch::Switch;
pub use tap::Tap;
pub use vhost::Vhost;

verus! {

/// One of the two duplex port groups of a brick.  Links are oriented
/// west → east; side-specific behaviour (such as firewall rules) is keyed
/// by the side it applies to.
#[derive(Clone, Copy, Debug, PartialEq, Eq, Structural)]
pub enum Side {
    West,
    East,
}

/// Abstract state of the process-wide runtime context: the engine start
/// options, the two one-time startup flags, ghost counters recording how
/// often each startup routine actually ran and how many serialized
/// firewall rule mutations have taken place, and the table of every
/// directed edge in the topology — the engine owns the links.
pub struct RuntimeView {
    pub dpdk_params: Seq<char>,
    pub started: bool,
    pub starts: nat,
    pub vhost_started: bool,
    pub vhost_starts: nat,
    pub fw_ops: nat,
    pub edges: Seq<EdgeView>,
}

impl RuntimeView {
    /// Each one-time startup routine has run exactly once when its flag is
    /// set and never before that, and no directed edge is recorded twice.
    pub open spec fn wf(self) -> bool {
        &&& self.starts == (if self.started { 1nat } else { 0nat })
        &&& self.vhost_starts == (if self.vhost_started { 1nat } else { 0nat })
        &&& edge_distinct(self.edges)
    }
}

/// What a call to [`init`] does to the runtime state: the first call marks
/// the engine started and performs the underlying startup once; every later
/// call leaves the state untouched.
pub open spec fn init_view(v: RuntimeView) -> RuntimeView {
    if v.started {
        v
    } else {
        RuntimeView { started: true, starts: (v.starts + 1) as nat, ..v }
    }
}

/// What the one-time transport startup inside [`Vhost::new`] does to the
/// runtime state.
pub open spec fn vhost_start_view(v: RuntimeView) -> RuntimeView {
    if v.vhost_started {
        v
    } else {
        RuntimeView { vhost_started: true, vhost_starts: (v.vhost_starts + 1) as nat, ..v }
    }
}

/// The engine start options a fresh runtime context carries before
/// [`set_dpdk_params`] overrides them.
pub open spec fn default_dpdk_params() -> Seq<char> {
    "-c1 -n1 --no-huge --no-shconf --lcores 0,1 -l 0,1"@
}

/// The shared, process-wide context.
///
/// This state is process-wide by nature: one lock that every firewall
/// instance serializes its rule mutations through, and one "already done"
/// flag per one-time startup routine.  Rather than globals, the context is
/// an explicitly constructed value handed to the operations that need it;
/// holding `&mut Runtime` is the exclusive access the shared lock would
/// grant, so every serialized operation claims the whole context for the
/// duration of the call.
pub struct Runtime {
    dpdk_params: String,
    started: bool,
    starts: Ghost<nat>,
    vhost_started: bool,
    vhost_starts: Ghost<nat>,
    fw_ops: Ghost<nat>,
    links: Links,
}

impl View for Runtime {
    type V = RuntimeView;

    closed spec fn view(&self) -> RuntimeView {
        RuntimeView {
            dpdk_params: self.dpdk_params@,
            started: self.started,
            starts: self.starts@,
            vhost_started: self.vhost_started,
            vhost_starts: self.vhost_starts@,
            fw_ops: self.fw_ops@,
            edges: self.links@,
        }
    }
}

impl Runtime {
    /// A fresh context: nothing started yet, default engine options.
    pub fn new() -> (r: Runtime)
        ensures
            r@ == (RuntimeView {
                dpdk_params: default_dpdk_params(),
                started: false,
                starts: 0,
                vhost_started: false,
                vhost_starts: 0,
                fw_ops: 0,
                edges: Seq::empty(),
            }),
            r@.wf(),
    {
        Runtime {
            dpdk_params: "-c1 -n1 --no-huge --no-shconf --lcores 0,1 -l 0,1".to_owned(),
            started: false,
            starts: Ghost(0),
            vhost_started: false,
            vhost_starts: Ghost(0),
            fw_ops: Ghost(0),
            links: Links::new(),
        }
    }

    /// Whether the engine startup has run.
    pub fn started(&self) -> (r: bool)
        ensures
            r == self@.started,
    {
        self.started
    }

    /// Whether the vhost-user transport startup has run.
    pub fn vhost_started(&self) -> (r: bool)
        ensures
            r == self@.vhost_started,
    {
        self.vhost_started
    }

    /// The engine start options currently configured.
    pub fn dpdk_params(&self) -> (r: String)
        ensures
            r@ == self@.dpdk_params,
    {
        self.dpdk_params.clone()
    }

    /// Records one serialized firewall mutation; every rule operation and
    /// every firewall constructor passes through here while it holds the
    /// context exclusively.
    pub(crate) fn claim_firewall_lock(&mut self)
        ensures
            final(self)@ == (RuntimeView { fw_ops: old(self)@.fw_ops + 1, ..old(self)@ }),
    {
        proof {
            self.fw_ops@ = self.fw_ops@ + 1;
        }
    }

    /// Runs the one-time vhost-user transport startup unless it already
    /// ran; called while the first vhost-user brick is constructed.
    pub(crate) fn ensure_vhost_started(&mut self)
        ensures
            final(self)@ == vhost_start_view(old(self)@),
    {
        if !self.vhost_started {
            self.vhost_started = true;
            proof {
                self.vhost_starts@ = self.vhost_starts@ + 1;
            }
        }
    }

    /// Records the directed edge `w` → `e` when both endpoints, under the
    /// given side bounds, have a free slot and the edge does not exist
    /// yet; otherwise changes nothing.
    pub(crate) fn attach(
        &mut self,
        w: &String,
        w_east_max: usize,
        e: &String,
        e_west_max: usize,
    ) -> (r: bool)
        requires
            old(self)@.wf(),
        ensures
            r == can_attach(old(self)@.edges, w@, w_east_max as nat, e@, e_west_max as nat),
            r ==> final(self)@ == (RuntimeView {
                edges: old(self)@.edges.push(EdgeView { west: w@, east: e@ }),
                ..old(self)@
            }),
            !r ==> final(self)@ == old(self)@,
            final(self)@.wf(),
    {
        self.links.attach(w, w_east_max, e, e_west_max)
    }

    /// Removes the directed edge `w` → `e` when it exists, freeing the
    /// slot it took on each endpoint; otherwise changes nothing.
    pub(crate) fn detach(&mut self, w: &String, e: &String) -> (r: bool)
        requires
            old(self)@.wf(),
        ensures
            r == contains_edge(old(self)@.edges, w@, e@),
            final(self)@ == (RuntimeView {
                edges: remove_edge(old(self)@.edges, w@, e@),
                ..old(self)@
            }),
            final(self)@.wf(),
            r ==> east_degree(final(self)@.edges, w@) == east_degree(old(self)@.edges, w@) - 1
                && west_degree(final(self)@.edges, e@) == west_degree(old(self)@.edges, e@) - 1,
    {
        self.links.detach(w, e)
    }

    /// Removes every edge touching the brick named `n`, both sides and
    /// both directions.
    pub(crate) fn sever(&mut self, n: &String)
        requires
            old(self)@.wf(),
        ensures
            final(self)@ == (RuntimeView {
                edges: unlink_all(old(self)@.edges, n@),
                ..old(self)@
            }),
            final(self)@.wf(),
    {
        proof {
            crate::links::lemma_unlink_all_props(self@.edges, n@);
        }
        self.links.sever(n)
    }
}

/// Replaces the options string handed to the engine startup.  The string is
/// an opaque configuration blob (core affinity, memory behaviour) passed
/// through unmodified; it only matters before the first call to [`init`].
pub fn set_dpdk_params(rt: &mut Runtime, params: &str)
    ensures
        final(rt)@ == (RuntimeView { dpdk_params: params@, ..old(rt)@ }),
{
    rt.dpdk_params = params.to_owned();
}

/// The one-time engine startup.  The first call per context performs the
/// underlying startup with the configured options; every later call
/// observes "already done" and changes nothing.  An engine-reported
/// startup failure is fatal to the process, never returned to the caller.
pub fn init(rt: &mut Runtime)
    ensures
        final(rt)@ == init_view(old(rt)@),
{
    if !rt.started {
        rt.started = true;
        proof {
            rt.starts@ = rt.starts@ + 1;
        }
    }
}

/// The engine startup runs exactly once: the first call performs it, and
/// any call on an already-started context is a no-op, so any number of
/// calls from any call sites leaves a single performed startup.
pub proof fn lemma_init_once(v: RuntimeView)
    requires
        v.wf(),
    ensures
        init_view(v).wf(),
        init_view(v).started,
        init_view(v).starts == 1,
        init_view(init_view(v)) == init_view(v),
{
}

/// The vhost-user transport startup runs exactly once, in the same way.
pub proof fn lemma_vhost_start_once(v: RuntimeView)
    requires
        v.wf(),
    ensures
        vhost_start_view(v).wf(),
        vhost_start_view(v).vhost_started,
        vhost_start_view(v).vhost_starts == 1,
        vhost_start_view(vhost_start_view(v)) == vhost_start_view(v),
{
}

} // verus!
