//! The tap interface brick: a pollable endpoint standing for a host tap
//! device.  The device's arrivals are the pending work the embedding
//! application deposits with [`Tap::deliver`].

use vstd::prelude::*;

use crate::brick::{is_pollable, KindView, NodeView};


verus! {

/// A tap interface node.
pub struct Tap {
    pub name: String,
    pub(crate) west_max: usize,
    pub(crate) east_max: usize,
    pub(crate) pending: usize,
}

impl View for Tap {
    type V = NodeView;

    open(crate) spec fn view(&self) -> NodeView {
        NodeView {
            name: self.name@,
            kind: KindView::Tap,
            west_max: self.west_max as nat,
            east_max: self.east_max as nat,
            pending: self.pending as nat,
        }
    }
}

impl Tap {
    /// A fresh, unlinked tap brick with no pending work.  Construction is
    /// infallible: an engine-reported failure here counts as a broken
    /// contract, not a recoverable outcome.
    pub fn new(name: &str) -> (r: Tap)
        ensures
            r@ == (NodeView {
                name: name@,
                kind: KindView::Tap,
                west_max: 1,
                east_max: 1,
                pending: 0,
            }),
            r@.wf(),
    {
        Tap { name: name.to_owned(), west_max: 1, east_max: 1, pending: 0 }
    }

    /// An interface brick performs I/O of its own: always pollable.
    pub fn pollable(&self) -> (r: bool)
        ensures
            r == is_pollable(self@.kind),
            r,
    {
        true
    }


    /// The units of pending work the next poll will report.
    pub fn pending(&self) -> (r: usize)
        ensures
            r == self@.pending,
    {
        self.pending
    }

    /// Deposits `count` more units of pending work for the next poll —
    /// the model of the device-side arrivals the engine would find.
    pub fn deliver(&mut self, count: usize)
        requires
            old(self)@.pending + count <= usize::MAX,
        ensures
            final(self)@ == (NodeView { pending: (old(self)@.pending + count) as nat, ..old(self)@ }),
    {
        self.pending = self.pending + count;
    }
}

} // verus!
