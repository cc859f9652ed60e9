//! Handles by which layer 3 entities answer on the link they were reached on.

use std::collections::HashMap;
use vstd::prelude::*;

use crate::sap::{issi_address, TetraAddress};
use crate::tdma::TdmaTime;

verus! {

broadcast use vstd::std_specs::hash::group_hash_axioms;

/// Where a handle leads.
#[derive(Clone, Copy, Debug, PartialEq, Eq, Structural)]
pub struct MleConnState {
    pub handle: u32,
    pub addr: TetraAddress,
    pub link_id: u32,
    pub endpoint_id: u32,
    pub ts_created: TdmaTime,
    pub ts_last_used: TdmaTime,
}

/// The handles that have been given out, and where the known ones lead.
#[derive(Debug)]
pub struct MleRouter {
    pub states: HashMap<u32, MleConnState>,
    pub next_handle: u32,
}

/// The router as contracts speak of it.
#[verifier::ext_equal]
pub struct RouterView {
    pub states: Map<u32, MleConnState>,
    pub next_handle: u32,
}

impl View for MleRouter {
    type V = RouterView;

    open spec fn view(&self) -> RouterView {
        RouterView { states: self.states@, next_handle: self.next_handle }
    }
}

impl RouterView {
    /// A handle is given out; nothing is recorded behind it.
    pub open spec fn after_create(self) -> RouterView {
        RouterView { next_handle: (self.next_handle + 1) as u32, ..self }
    }

    /// Address, link and endpoint behind a handle; all zero for an unknown one.
    pub open spec fn route(self, handle: u32) -> (TetraAddress, u32, u32) {
        if self.states.contains_key(handle) {
            let c = self.states[handle];
            (c.addr, c.link_id, c.endpoint_id)
        } else {
            (issi_address(0), 0, 0)
        }
    }

    /// The use of a known handle is noted.
    pub open spec fn after_use(self, handle: u32, ts: TdmaTime) -> RouterView {
        if self.states.contains_key(handle) {
            RouterView {
                states: self.states.insert(
                    handle,
                    MleConnState { ts_last_used: ts, ..self.states[handle] },
                ),
                ..self
            }
        } else {
            self
        }
    }

    /// A handle is forgotten.
    pub open spec fn after_delete(self, handle: u32) -> RouterView {
        RouterView { states: self.states.remove(handle), ..self }
    }
}

impl MleRouter {
    /// A router that has given out no handle.
    pub fn new() -> (r: MleRouter)
        ensures
            r@ == (RouterView { states: Map::empty(), next_handle: 1 }),
    {
        MleRouter { states: HashMap::new(), next_handle: 1 }
    }

    /// Give out the next handle.
    pub fn create_handle(
        &mut self,
        _addr: TetraAddress,
        _link_id: u32,
        _endpoint_id: u32,
        _ts: TdmaTime,
    ) -> (r: u32)
        requires
            old(self)@.next_handle < u32::MAX,
        ensures
            r == old(self)@.next_handle,
            final(self)@ == old(self)@.after_create(),
    {
        let handle: u32 = self.next_handle;
        self.next_handle = self.next_handle + 1;
        handle
    }

    /// Where a handle leads; the use is noted.
    pub fn use_handle(&mut self, handle: u32, ts: TdmaTime) -> (r: (TetraAddress, u32, u32))
        ensures
            r == old(self)@.route(handle),
            final(self)@ == old(self)@.after_use(handle, ts),
    {
        let found: Option<MleConnState> = match self.states.get(&handle) {
            Some(conn) => Some(*conn),
            None => None,
        };
        match found {
            Some(mut conn) => {
                conn.ts_last_used = ts;
                self.states.insert(handle, conn);
                (conn.addr, conn.link_id, conn.endpoint_id)
            },
            None => (TetraAddress::issi(0), 0, 0),
        }
    }

    /// Forget a handle, and return what was behind it.
    pub fn delete_handle(&mut self, handle: u32) -> (r: Option<MleConnState>)
        ensures
            r == (if old(self)@.states.contains_key(handle) {
                Some(old(self)@.states[handle])
            } else {
                None
            }),
            final(self)@ == old(self)@.after_delete(handle),
    {
        self.states.remove(&handle)
    }
}

/// No two handles that are given out are equal.
pub proof fn law_handles_differ(v: RouterView)
    requires
        v.next_handle < u32::MAX,
    ensures
        v.after_create().next_handle > v.next_handle,
        forall|h: u32, ts: TdmaTime| #[trigger]
            v.after_use(h, ts).next_handle == v.next_handle,
        forall|h: u32| #[trigger] v.after_delete(h).next_handle == v.next_handle,
{
}

/// A use of a handle changes where no handle leads, and a deletion changes it
/// for the deleted handle alone, which then leads nowhere.
pub proof fn law_routes_are_kept(v: RouterView, h: u32, g: u32, ts: TdmaTime)
    ensures
        v.after_use(h, ts).route(g) == v.route(g),
        g != h ==> v.after_delete(h).route(g) == v.route(g),
        v.after_delete(h).route(h) == (issi_address(0), 0u32, 0u32),
{
}

} // verus!
