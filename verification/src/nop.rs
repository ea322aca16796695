//! The pass-through brick: a pure forwarding element with one slot per
//! side and no behaviour of its own.

use vstd::prelude::*;

use crate::brick::{is_pollable, KindView, NodeView};


verus! {

/// A pass-through node.
pub struct Nop {
    pub name: String,
    pub(crate) west_max: usize,
    pub(crate) east_max: usize,
}

impl View for Nop {
    type V = NodeView;

    open(crate) spec fn view(&self) -> NodeView {
        NodeView {
            name: self.name@,
            kind: KindView::Nop,
            west_max: self.west_max as nat,
            east_max: self.east_max as nat,
            pending: 0,
        }
    }
}

impl Nop {
    /// A fresh, unlinked pass-through brick.  Construction is infallible:
    /// an engine-reported failure here counts as a broken contract, not a
    /// recoverable outcome.
    pub fn new(name: &str) -> (r: Nop)
        ensures
            r@ == (NodeView {
                name: name@,
                kind: KindView::Nop,
                west_max: 1,
                east_max: 1,
                pending: 0,
            }),
            r@.wf(),
    {
        Nop { name: name.to_owned(), west_max: 1, east_max: 1 }
    }

    /// A pass-through brick does no I/O of its own: never pollable.
    pub fn pollable(&self) -> (r: bool)
        ensures
            r == is_pollable(self@.kind),
            !r,
    {
        false
    }
}

} // verus!
