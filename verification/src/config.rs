//! The configuration that the entities read.

use vstd::prelude::*;

use crate::sap::StackMode;

verus! {

/// What a mobile station is configured with.
#[derive(Debug)]
pub struct MsConfig {
    /// Own individual identity.
    pub issi: u32,
    /// Own subscriber class, 1 to 16; any other value means that none is set.
    pub subscriber_class: u16,
    /// Groups to attach to at registration.
    pub attach_groups: Vec<u32>,
}

/// Configuration of the stack.
#[derive(Debug)]
pub struct StackConfig {
    pub stack_mode: StackMode,
    /// Home network.
    pub mcc: u16,
    pub mnc: u16,
    /// Networks allowed besides the home network.
    pub allowed_networks: Vec<(u16, u16)>,
    /// Candidate downlink carriers for cell selection, in Hz.
    pub scan_candidates: Vec<u32>,
    /// The mobile-station section, required in MS mode.
    pub ms: Option<MsConfig>,
}

impl StackConfig {
    /// Own individual identity, where one is configured.
    pub open spec fn own_issi(self) -> Option<u32> {
        match self.ms {
            Some(ms) => Some(ms.issi),
            None => None,
        }
    }

    /// The groups to attach to; none without a mobile-station section.
    pub open spec fn groups(self) -> Seq<u32> {
        match self.ms {
            Some(ms) => ms.attach_groups@,
            None => Seq::empty(),
        }
    }

    /// Whether the network may be used: the home network, or one on the list.
    pub open spec fn allows_network(self, mcc: u16, mnc: u16) -> bool {
        (mcc == self.mcc && mnc == self.mnc) || self.allowed_networks@.contains((mcc, mnc))
    }

    /// Whether the network may be used.
    pub fn is_network_allowed(&self, mcc: u16, mnc: u16) -> (r: bool)
        ensures
            r == self.allows_network(mcc, mnc),
    {
        if mcc == self.mcc && mnc == self.mnc {
            return true;
        }
        let mut i: usize = 0;
        while i < self.allowed_networks.len()
            invariant
                i <= self.allowed_networks@.len(),
                forall|j: int| 0 <= j < i ==> self.allowed_networks@[j] != (mcc, mnc),
            decreases self.allowed_networks@.len() - i,
        {
            let n: (u16, u16) = self.allowed_networks[i];
            if n.0 == mcc && n.1 == mnc {
                return true;
            }
            i = i + 1;
        }
        false
    }
}

/// A copy of a list of numbers.
pub fn copy_list(v: &Vec<u32>) -> (r: Vec<u32>)
    ensures
        r@ == v@,
{
    let mut r: Vec<u32> = Vec::new();
    let mut i: usize = 0;
    while i < v.len()
        invariant
            i <= v@.len(),
            r@ == v@.take(i as int),
        decreases v@.len() - i,
    {
        r.push(v[i]);
        i = i + 1;
    }
    assert(v@.take(i as int) == v@);
    r
}

} // verus!
