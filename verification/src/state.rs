//! The persistent state of the bridge: the singleton configuration, the two
//! per-namespace one-time action-flag tables, and the whitelist of remote NFT
//! contracts accepted as freeze sources.
//!
//! The store is an explicit value threaded through every operation. The host
//! is expected to commit it only when an invocation succeeds and to discard it
//! otherwise; the operations in `contract` therefore take the store by
//! reference and hand back the updated value only inside `Ok`.
use vstd::prelude::*;
use crate::util::{bytes_eq, contains_u128};

verus! {

/// The singleton configuration of the bridge.
#[derive(Clone, Copy)]
pub struct State {
    /// 32-byte public key of the validator quorum.
    pub group_key: [u8; 32],
    /// Monotonic counter; source of action ids for bridge-originated actions.
    pub event_cnt: u128,
    /// When set, every gated operation is refused.
    pub paused: bool,
    /// Identifier of this chain within the bridge topology.
    pub chain_nonce: u64,
}

/// The state store: configuration plus the anti-replay and whitelist tables.
///
/// An action id is consumed when it appears in the table of its namespace;
/// absence means the flag is still false. Entries are never removed, so a
/// consumed id can never be authorized again.
pub struct Store {
    pub state: State,
    /// Consumed action ids of the bridge-action namespace.
    pub actions: Vec<u128>,
    /// Consumed action ids of the config-action namespace.
    pub actions_config: Vec<u128>,
    /// Canonical addresses of whitelisted remote NFT contracts.
    pub whitelist: Vec<Vec<u8>>,
}

impl Store {
    /// Whether `id` is consumed in the bridge-action namespace.
    pub open spec fn action_consumed(self, id: u128) -> bool {
        self.actions@.contains(id)
    }

    /// Whether `id` is consumed in the config-action namespace.
    pub open spec fn action_config_consumed(self, id: u128) -> bool {
        self.actions_config@.contains(id)
    }

    /// The whitelist as a sequence of byte-string addresses.
    pub open spec fn wl(self) -> Seq<Seq<u8>> {
        Seq::new(self.whitelist@.len(), |i: int| self.whitelist@[i]@)
    }

    /// Whether the canonical address `addr` is whitelisted.
    pub open spec fn spec_whitelisted(self, addr: Seq<u8>) -> bool {
        self.wl().contains(addr)
    }

    /// Two stores that hold the same configuration, flags and whitelist.
    pub open spec fn equiv(self, other: Store) -> bool {
        &&& self.state == other.state
        &&& self.actions@ == other.actions@
        &&& self.actions_config@ == other.actions_config@
        &&& self.wl() == other.wl()
    }

    /// Read the singleton configuration.
    pub fn config_read(&self) -> (r: State)
        ensures
            r == self.state,
    {
        self.state
    }

    /// Overwrite the singleton configuration.
    pub fn config(&mut self, s: State)
        ensures
            final(self).state == s,
            final(self).actions == old(self).actions,
            final(self).actions_config == old(self).actions_config,
            final(self).whitelist == old(self).whitelist,
    {
        self.state = s;
    }

    /// Whether `id` is consumed in the bridge-action namespace.
    pub fn action_read(&self, id: u128) -> (r: bool)
        ensures
            r == self.action_consumed(id),
    {
        contains_u128(&self.actions, id)
    }

    /// Whether `id` is consumed in the config-action namespace.
    pub fn action_config_read(&self, id: u128) -> (r: bool)
        ensures
            r == self.action_config_consumed(id),
    {
        contains_u128(&self.actions_config, id)
    }

    /// Consume `id` in the bridge-action namespace.
    pub fn action(&mut self, id: u128)
        ensures
            final(self).state == old(self).state,
            final(self).actions_config == old(self).actions_config,
            final(self).whitelist == old(self).whitelist,
            final(self).actions@ == old(self).actions@.push(id),
            forall|j: u128|
                final(self).action_consumed(j) <==> old(self).action_consumed(j) || j == id,
    {
        self.actions.push(id);
        proof {
            assert forall|j: u128|
                self.action_consumed(j) <==> old(self).action_consumed(j) || j == id by {
                if old(self).action_consumed(j) || j == id {
                    if j == id {
                        assert(self.actions@[self.actions@.len() - 1] == id);
                    } else {
                        let w = choose|w: int|
                            0 <= w < old(self).actions@.len() && old(self).actions@[w] == j;
                        assert(self.actions@[w] == j);
                    }
                } else {
                    if self.action_consumed(j) {
                        let w = choose|w: int|
                            0 <= w < self.actions@.len() && self.actions@[w] == j;
                        assert(w < old(self).actions@.len() && old(self).actions@[w] == j);
                    }
                }
            }
        }
    }

    /// Consume `id` in the config-action namespace.
    pub fn action_config(&mut self, id: u128)
        ensures
            final(self).state == old(self).state,
            final(self).actions == old(self).actions,
            final(self).whitelist == old(self).whitelist,
            final(self).actions_config@ == old(self).actions_config@.push(id),
            forall|j: u128|
                final(self).action_config_consumed(j) <==> old(self).action_config_consumed(j)
                    || j == id,
    {
        self.actions_config.push(id);
        proof {
            assert forall|j: u128|
                self.action_config_consumed(j) <==> old(self).action_config_consumed(j) || j
                    == id by {
                if old(self).action_config_consumed(j) || j == id {
                    if j == id {
                        assert(self.actions_config@[self.actions_config@.len() - 1] == id);
                    } else {
                        let w = choose|w: int|
                            0 <= w < old(self).actions_config@.len() && old(
                                self,
                            ).actions_config@[w] == j;
                        assert(self.actions_config@[w] == j);
                    }
                } else {
                    if self.action_config_consumed(j) {
                        let w = choose|w: int|
                            0 <= w < self.actions_config@.len() && self.actions_config@[w] == j;
                        assert(w < old(self).actions_config@.len() && old(self).actions_config@[w]
                            == j);
                    }
                }
            }
        }
    }

    /// Whether the canonical address `addr` is whitelisted.
    pub fn whitelisted_read(&self, addr: &Vec<u8>) -> (r: bool)
        ensures
            r == self.spec_whitelisted(addr@),
    {
        let mut i: usize = 0;
        while i < self.whitelist.len()
            invariant
                i <= self.whitelist.len(),
                forall|k: int| 0 <= k < i ==> self.whitelist@[k]@ != addr@,
            decreases self.whitelist.len() - i,
        {
            if bytes_eq(&self.whitelist[i], addr) {
                proof {
                    assert(self.wl()[i as int] == addr@);
                }
                return true;
            }
            i = i + 1;
        }
        proof {
            assert forall|k: int| 0 <= k < self.wl().len() implies self.wl()[k] != addr@ by {
                assert(self.wl()[k] == self.whitelist@[k]@);
            }
            assert(!self.spec_whitelisted(addr@));
        }
        false
    }

    /// Mark the canonical address `addr` as whitelisted.
    pub fn whitelisted(&mut self, addr: Vec<u8>)
        ensures
            final(self).state == old(self).state,
            final(self).actions == old(self).actions,
            final(self).actions_config == old(self).actions_config,
            final(self).wl() == old(self).wl().push(addr@),
            forall|a: Seq<u8>|
                final(self).spec_whitelisted(a) <==> old(self).spec_whitelisted(a) || a == addr@,
    {
        let ghost a_view = addr@;
        self.whitelist.push(addr);
        proof {
            assert(self.wl() =~= old(self).wl().push(a_view));
            assert forall|a: Seq<u8>|
                self.spec_whitelisted(a) <==> old(self).spec_whitelisted(a) || a == a_view by {
                if old(self).spec_whitelisted(a) || a == a_view {
                    if a == a_view {
                        assert(self.wl()[self.wl().len() - 1] == a);
                    } else {
                        let w = choose|w: int|
                            0 <= w < old(self).wl().len() && old(self).wl()[w] == a;
                        assert(self.wl()[w] == a);
                    }
                } else {
                    if self.spec_whitelisted(a) {
                        let w = choose|w: int| 0 <= w < self.wl().len() && self.wl()[w] == a;
                        assert(w < old(self).wl().len() && old(self).wl()[w] == a);
                    }
                }
            }
        }
    }
}

} // verus!
