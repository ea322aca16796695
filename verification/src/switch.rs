//! The switch brick: a learning forwarding element with a per-side port
//! capacity and a designated output side, both chosen at construction.

use vstd::prelude::*;

use crate::Side;
use crate::brick::{is_pollable, KindView, NodeView};


verus! {

/// A switch node.
pub struct Switch {
    pub name: String,
    pub(crate) west_max: usize,
    pub(crate) east_max: usize,
    pub(crate) output: Side,
}

impl View for Switch {
    type V = NodeView;

    open(crate) spec fn view(&self) -> NodeView {
        NodeView {
            name: self.name@,
            kind: KindView::Switch { output: self.output },
            west_max: self.west_max as nat,
            east_max: self.east_max as nat,
            pending: 0,
        }
    }
}

impl Switch {
    /// A fresh, unlinked switch brick with the given per-side capacity
    /// bounds and output side.  Construction is infallible: an
    /// engine-reported failure here counts as a broken contract, not a
    /// recoverable outcome.
    pub fn new(name: &str, west_max: u32, east_max: u32, output: Side) -> (r: Switch)
        ensures
            r@ == (NodeView {
                name: name@,
                kind: KindView::Switch { output },
                west_max: west_max as nat,
                east_max: east_max as nat,
                pending: 0,
            }),
            r@.wf(),
    {
        Switch {
            name: name.to_owned(),
            west_max: west_max as usize,
            east_max: east_max as usize,
            output,
        }
    }

    /// A switch only forwards what its interface peers carry: never
    /// pollable.
    pub fn pollable(&self) -> (r: bool)
        ensures
            r == is_pollable(self@.kind),
            !r,
    {
        false
    }
}

} // verus!
