//! The NIC brick: a pollable endpoint bound to a hardware or virtual
//! device.  The device binding itself belongs to the engine; the ledger
//! state is the same for any device, and the device's arrivals are the
//! pending work the embedding application deposits with [`Nic::deliver`].

use vstd::prelude::*;

use crate::brick::{is_pollable, KindView, NodeView};
use crate::error::Error;


verus! {

/// A NIC node.
pub struct Nic {
    pub name: String,
    pub(crate) west_max: usize,
    pub(crate) east_max: usize,
    pub(crate) pending: usize,
}

impl View for Nic {
    type V = NodeView;

    open(crate) spec fn view(&self) -> NodeView {
        NodeView {
            name: self.name@,
            kind: KindView::Nic,
            west_max: self.west_max as nat,
            east_max: self.east_max as nat,
            pending: self.pending as nat,
        }
    }
}

impl Nic {
    /// A fresh, unlinked NIC brick bound to the device named `vdev`.
    /// Construction is fallible — a full embedding lets the engine
    /// reject the device — so the result keeps that shape; the binding
    /// itself is the engine's and leaves no trace in the ledger.
    pub fn new(name: &str, vdev: &str) -> (r: Result<Nic, Error>)
        ensures
            r is Ok,
            r->Ok_0@ == (NodeView {
                name: name@,
                kind: KindView::Nic,
                west_max: 1,
                east_max: 1,
                pending: 0,
            }),
            r->Ok_0@.wf(),
    {
        let _ = vdev;
        Ok(Nic { name: name.to_owned(), west_max: 1, east_max: 1, pending: 0 })
    }

    /// A fresh, unlinked NIC brick bound to the device at the given port
    /// index, under the same terms as [`Nic::new`].
    pub fn new_port(name: &str, port: u8) -> (r: Result<Nic, Error>)
        ensures
            r is Ok,
            r->Ok_0@ == (NodeView {
                name: name@,
                kind: KindView::Nic,
                west_max: 1,
                east_max: 1,
                pending: 0,
            }),
            r->Ok_0@.wf(),
    {
        let _ = port;
        Ok(Nic { name: name.to_owned(), west_max: 1, east_max: 1, pending: 0 })
    }

    /// An interface brick performs I/O of its own: always pollable.
    pub fn pollable(&self) -> (r: bool)
        ensures
            r == is_pollable(self@.kind),
            r,
    {
        true
    }


    /// The units of pending work the next poll will report.
    pub fn pending(&self) -> (r: usize)
        ensures
            r == self@.pending,
    {
        self.pending
    }

    /// Deposits `count` more units of pending work for the next poll —
    /// the model of the device-side arrivals the engine would find.
    pub fn deliver(&mut self, count: usize)
        requires
            old(self)@.pending + count <= usize::MAX,
        ensures
            final(self)@ == (NodeView { pending: (old(self)@.pending + count) as nat, ..old(self)@ }),
    {
        self.pending = self.pending + count;
    }
}

} // verus!
