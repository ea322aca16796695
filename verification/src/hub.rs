//! The hub brick: a forwarding element that repeats traffic to every
//! attached peer, with a per-side port capacity chosen at construction.

use vstd::prelude::*;

use crate::brick::{is_pollable, KindView, NodeView};


verus! {

/// A hub node.
pub struct Hub {
    pub name: String,
    pub(crate) west_max: usize,
    pub(crate) east_max: usize,
}

impl View for Hub {
    type V = NodeView;

    open(crate) spec fn view(&self) -> NodeView {
        NodeView {
            name: self.name@,
            kind: KindView::Hub,
            west_max: self.west_max as nat,
            east_max: self.east_max as nat,
            pending: 0,
        }
    }
}

impl Hub {
    /// A fresh, unlinked hub brick with the given per-side capacity
    /// bounds.  Construction is infallible: an engine-reported failure
    /// here counts as a broken contract, not a recoverable outcome.
    pub fn new(name: &str, west_max: u32, east_max: u32) -> (r: Hub)
        ensures
            r@ == (NodeView {
                name: name@,
                kind: KindView::Hub,
                west_max: west_max as nat,
                east_max: east_max as nat,
                pending: 0,
            }),
            r@.wf(),
    {
        Hub {
            name: name.to_owned(),
            west_max: west_max as usize,
            east_max: east_max as usize,
        }
    }

    /// A hub only forwards what its interface peers carry: never
    /// pollable.
    pub fn pollable(&self) -> (r: bool)
        ensures
            r == is_pollable(self@.kind),
            !r,
    {
        false
    }
}

} // verus!
