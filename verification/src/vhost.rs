//! The vhost-user interface brick: a pollable endpoint backed by a
//! vhost-user transport.  The transport needs a one-time process-wide
//! startup before the first such brick exists; the shared [`Runtime`]
//! context guards it so it runs at most once.

use vstd::prelude::*;

use crate::{vhost_start_view, Runtime};
use crate::brick::{is_pollable, KindView, NodeView};
use crate::error::Error;


verus! {

/// Run the transport in client mode rather than server mode.
pub const VHOST_USER_CLIENT: u64 = 1;

/// Do not reconnect after the transport peer goes away.
pub const VHOST_USER_NO_RECONNECT: u64 = 2;

/// Dequeue without copying packet payloads.
pub const VHOST_USER_DEQUEUE_ZERO_COPY: u64 = 4;

/// A vhost-user interface node.
pub struct Vhost {
    pub name: String,
    pub(crate) west_max: usize,
    pub(crate) east_max: usize,
    pub(crate) pending: usize,
    pub(crate) flags: u64,
}

impl View for Vhost {
    type V = NodeView;

    open(crate) spec fn view(&self) -> NodeView {
        NodeView {
            name: self.name@,
            kind: KindView::Vhost { flags: self.flags },
            west_max: self.west_max as nat,
            east_max: self.east_max as nat,
            pending: self.pending as nat,
        }
    }
}

impl Vhost {
    /// A fresh, unlinked vhost-user brick carrying the given feature-flag
    /// bitmask, fixed for its lifetime.  The first construction per
    /// context performs the one-time transport startup; every later one
    /// observes it already done.  Construction is fallible — a full
    /// embedding lets the transport startup or the engine refuse — so the
    /// result keeps that shape.
    pub fn new(name: &str, flags: u64, rt: &mut Runtime) -> (r: Result<Vhost, Error>)
        ensures
            final(rt)@ == vhost_start_view(old(rt)@),
            r is Ok,
            r->Ok_0@ == (NodeView {
                name: name@,
                kind: KindView::Vhost { flags },
                west_max: 1,
                east_max: 1,
                pending: 0,
            }),
            r->Ok_0@.wf(),
    {
        rt.ensure_vhost_started();
        Ok(Vhost { name: name.to_owned(), west_max: 1, east_max: 1, pending: 0, flags })
    }

    /// An interface brick performs I/O of its own: always pollable.
    pub fn pollable(&self) -> (r: bool)
        ensures
            r == is_pollable(self@.kind),
            r,
    {
        true
    }

    /// The feature-flag bitmask fixed at construction.
    pub fn flags(&self) -> (r: u64)
        ensures
            self@.kind matches KindView::Vhost { flags } ==> r == flags,
    {
        self.flags
    }


    /// The units of pending work the next poll will report.
    pub fn pending(&self) -> (r: usize)
        ensures
            r == self@.pending,
    {
        self.pending
    }

    /// Deposits `count` more units of pending work for the next poll —
    /// the model of the transport-side arrivals the engine would find.
    pub fn deliver(&mut self, count: usize)
        requires
            old(self)@.pending + count <= usize::MAX,
        ensures
            final(self)@ == (NodeView { pending: (old(self)@.pending + count) as nat, ..old(self)@ }),
    {
        self.pending = self.pending + count;
    }
}

} // verus!
