//! The Hub Registry: the address-keyed table of live hub connections and
//! the decisions of its request loop -- port lookup, outbound-send routing,
//! disconnect, and the registration step of a connect.  The hardware work of
//! a connect (peripheral lookup, connection, characteristic discovery,
//! subscription) happens outside the library; its decision points are the
//! verified functions here.

use vstd::prelude::*;
use crate::consts::{HubType, LPF2_ALL_CHARACTERISTIC};
use crate::devices::{create_device, PortController};
use crate::discovery::DiscoveredHub;
use crate::error::Error;
use crate::hubs::{
    port_lookup, spec_port_lookup, spec_technic_hub_port_map, technic_hub_port_map, HubEntry, Port,
};
use crate::identify::{identify, spec_identify, AdvertisedProperties};

verus! {

/// A client-facing handle on a live hub: address, kind and name.  Handles
/// are values; many may reference the same live hub, and none owns it.  The
/// request channel a handle speaks over lives outside the library.
#[derive(Debug)]
pub struct HubController {
    pub addr: String,
    pub hub_type: HubType,
    pub name: String,
}

impl Clone for HubController {
    /// Cloning keeps every field.
    fn clone(&self) -> (r: Self)
        ensures
            r == *self,
    {
        HubController {
            addr: self.addr.clone(),
            hub_type: self.hub_type,
            name: self.name.clone(),
        }
    }
}

impl HubController {
    /// The hub's advertised name.
    pub fn get_name(&self) -> (r: &str)
        ensures
            r@ == self.name@,
    {
        self.name.as_str()
    }

    /// The hub's identified kind.
    pub fn get_type(&self) -> (r: HubType)
        ensures
            r == self.hub_type,
    {
        self.hub_type
    }

    /// The string form of the hub's address.
    pub fn get_addr(&self) -> (r: &str)
        ensures
            r@ == self.addr@,
    {
        self.addr.as_str()
    }
}

/// Whether some live entry carries the address.
pub open spec fn spec_contains_hub(hubs: Seq<HubEntry>, addr: Seq<char>) -> bool {
    exists|i: int| 0 <= i < hubs.len() && hubs[i].addr@ == addr
}

/// The index of the entry carrying the address; in a well-formed table it is
/// the only one.
pub open spec fn spec_hub_index(hubs: Seq<HubEntry>, addr: Seq<char>) -> int {
    choose|i: int| 0 <= i < hubs.len() && hubs[i].addr@ == addr
}

/// In a table with no two entries sharing an address, any index carrying the
/// address is the chosen one.
proof fn lemma_hub_index_unique(hubs: Seq<HubEntry>, addr: Seq<char>, i: int)
    requires
        forall|p: int, q: int| 0 <= p < q < hubs.len() ==> hubs[p].addr@ != hubs[q].addr@,
        0 <= i < hubs.len(),
        hubs[i].addr@ == addr,
    ensures
        spec_contains_hub(hubs, addr),
        spec_hub_index(hubs, addr) == i,
{
    assert(spec_contains_hub(hubs, addr));
    let j = spec_hub_index(hubs, addr);
    assert(0 <= j < hubs.len() && hubs[j].addr@ == addr);
    if j < i {
        assert(hubs[j].addr@ != hubs[i].addr@);
        assert(false);
    }
    if i < j {
        assert(hubs[i].addr@ != hubs[j].addr@);
        assert(false);
    }
}

/// Law: removing the entry found for an address from a table with no two
/// entries sharing an address leaves no entry for that address.  With the
/// `UnknownHub` clauses of `get_port` and `send_to_hub` this is what makes a
/// disconnect final: every later request against the address fails.
pub proof fn lemma_remove_clears_address(hubs: Seq<HubEntry>, addr: Seq<char>, i: int)
    requires
        forall|p: int, q: int| 0 <= p < q < hubs.len() ==> hubs[p].addr@ != hubs[q].addr@,
        0 <= i < hubs.len(),
        hubs[i].addr@ == addr,
    ensures
        !spec_contains_hub(hubs.remove(i), addr),
{
    let r = hubs.remove(i);
    hubs.remove_ensures(i);
    assert forall|k: int| 0 <= k < r.len() implies r[k].addr@ != addr by {
        if k < i {
            assert(r[k] == hubs[k]);
            if k < i {
                assert(hubs[k].addr@ != hubs[i].addr@);
            }
        } else {
            assert(r[k] == hubs[k + 1]);
            assert(hubs[i].addr@ != hubs[k + 1].addr@);
        }
    }
}

/// The Hub Registry's state: the live hub entries, keyed by address.
#[derive(Debug)]
pub struct HubManager {
    pub hubs: Vec<HubEntry>,
}

impl HubManager {
    /// Well-formedness: the table is keyed by address, so no two live
    /// entries share one.
    pub open spec fn wf(self) -> bool {
        forall|i: int, j: int|
            0 <= i < j < self.hubs@.len() ==> self.hubs@[i].addr@ != self.hubs@[j].addr@
    }

    /// A fresh registry with no live hubs.
    pub fn new() -> (r: Self)
        ensures
            r.hubs@ == Seq::<HubEntry>::empty(),
            r.wf(),
    {
        let hubs: Vec<HubEntry> = Vec::new();
        proof {
            assert(hubs@ =~= Seq::<HubEntry>::empty());
        }
        HubManager { hubs }
    }

    /// The index of the live entry for the address, if one exists.
    fn find_hub(&self, addr: &String) -> (r: Option<usize>)
        ensures
            match r {
                Some(i) => i < self.hubs@.len() && self.hubs@[i as int].addr@ == addr@,
                None => !spec_contains_hub(self.hubs@, addr@),
            },
    {
        let mut i: usize = 0;
        while i < self.hubs.len()
            invariant
                i <= self.hubs@.len(),
                forall|j: int| 0 <= j < i ==> self.hubs@[j].addr@ != addr@,
            decreases self.hubs@.len() - i,
        {
            let entry = &self.hubs[i];
            if entry.addr == *addr {
                return Some(i);
            }
            i = i + 1;
        }
        None
    }

    /// The `GetPort` decision: `UnknownHub` for an address with no live
    /// entry; `UnknownPort`, naming the port and the address, for a live hub
    /// whose port map lacks the port; otherwise a fresh controller wrapping
    /// a device instance bound to the hub-assigned physical id.
    pub fn get_port(&self, addr: &String, port: Port) -> (r: Result<PortController, Error>)
        requires
            self.wf(),
        ensures
            !spec_contains_hub(self.hubs@, addr@) ==> (r matches Err(Error::UnknownHub(a))
                && a@ == addr@),
            spec_contains_hub(self.hubs@, addr@) ==> ({
                let entry = self.hubs@[spec_hub_index(self.hubs@, addr@)];
                match spec_port_lookup(entry.port_map@, port) {
                    Some(id) => r matches Ok(pc) && pc.port_id == id && pc.port_type == port
                        && pc.device.port_id == id && pc.device.port_type == port
                        && pc.device.hub_addr@ == addr@,
                    None => r matches Err(Error::UnknownPort(p, a)) && p == port && a@ == addr@,
                }
            }),
    {
        match self.find_hub(addr) {
            None => Err(Error::UnknownHub(addr.clone())),
            Some(i) => {
                proof {
                    lemma_hub_index_unique(self.hubs@, addr@, i as int);
                }
                let entry = &self.hubs[i];
                match port_lookup(&entry.port_map, port) {
                    Some(port_id) => {
                        let device = create_device(port_id, port, addr);
                        Ok(PortController { port_id, port_type: port, device })
                    },
                    None => Err(Error::UnknownPort(port, addr.clone())),
                }
            },
        }
    }

    /// The `SendToHub` decision: `UnknownHub` for an address with no live
    /// entry; otherwise the index of the live entry whose send primitive the
    /// message must be forwarded to, whose outcome is then the request's.
    pub fn send_to_hub(&self, addr: &String) -> (r: Result<usize, Error>)
        ensures
            !spec_contains_hub(self.hubs@, addr@) ==> (r matches Err(Error::UnknownHub(a))
                && a@ == addr@),
            spec_contains_hub(self.hubs@, addr@) ==> (r matches Ok(i) && i < self.hubs@.len()
                && self.hubs@[i as int].addr@ == addr@),
    {
        match self.find_hub(addr) {
            None => Err(Error::UnknownHub(addr.clone())),
            Some(i) => Ok(i),
        }
    }

    /// The `Disconnect` decision: `UnknownHub` for an address with no live
    /// entry; otherwise the entry is removed -- before its disconnect
    /// primitive is invoked, so that every subsequent request against the
    /// address already observes `UnknownHub` -- and handed back for that
    /// invocation.
    pub fn disconnect(&mut self, addr: &String) -> (r: Result<HubEntry, Error>)
        requires
            old(self).wf(),
        ensures
            final(self).wf(),
            !spec_contains_hub(old(self).hubs@, addr@) ==> (r matches Err(Error::UnknownHub(a))
                && a@ == addr@ && final(self).hubs@ == old(self).hubs@),
            spec_contains_hub(old(self).hubs@, addr@) ==> ({
                let i = spec_hub_index(old(self).hubs@, addr@);
                r matches Ok(entry) && entry == old(self).hubs@[i] && final(self).hubs@ == old(
                    self,
                ).hubs@.remove(i)
            }),
            !spec_contains_hub(final(self).hubs@, addr@),
    {
        match self.find_hub(addr) {
            None => Err(Error::UnknownHub(addr.clone())),
            Some(i) => {
                proof {
                    lemma_hub_index_unique(self.hubs@, addr@, i as int);
                    lemma_remove_clears_address(self.hubs@, addr@, i as int);
                    self.hubs@.remove_ensures(i as int);
                }
                let entry = self.hubs.remove(i);
                proof {
                    assert forall|p: int, q: int|
                        0 <= p < q < self.hubs@.len() implies self.hubs@[p].addr@
                        != self.hubs@[q].addr@ by {
                        let s0 = old(self).hubs@;
                        s0.remove_ensures(i as int);
                        assert(self.hubs@[p] == if p < i { s0[p] } else { s0[p + 1] });
                        assert(self.hubs@[q] == if q < i { s0[q] } else { s0[q + 1] });
                    }
                }
                Ok(entry)
            },
        }
    }

    /// The registration step of `ConnectToHub`, after the hardware work has
    /// succeeded: dispatch on the identified kind, store the entry keyed by
    /// address -- replacing any entry the address already had -- and hand
    /// back the controller.  A kind this library cannot yet drive yields
    /// `UnsupportedHubKind` and leaves the registry unchanged.
    pub fn register_hub(&mut self, addr: &String, hub_type: HubType, name: &String) -> (r: Result<
        HubController,
        Error,
    >)
        requires
            old(self).wf(),
        ensures
            final(self).wf(),
            hub_type != HubType::TechnicMediumHub ==> (r matches Err(Error::UnsupportedHubKind(k))
                && k == hub_type && final(self).hubs@ == old(self).hubs@),
            hub_type == HubType::TechnicMediumHub ==> ({
                let n = final(self).hubs@.len();
                &&& r matches Ok(c) && c.addr@ == addr@ && c.hub_type == hub_type && c.name@
                    == name@
                &&& n >= 1
                &&& final(self).hubs@[n - 1].addr@ == addr@
                &&& final(self).hubs@[n - 1].hub_type == hub_type
                &&& final(self).hubs@[n - 1].name@ == name@
                &&& final(self).hubs@[n - 1].port_map@ == spec_technic_hub_port_map()
                &&& spec_contains_hub(final(self).hubs@, addr@)
                &&& spec_hub_index(final(self).hubs@, addr@) == n - 1
                &&& (!spec_contains_hub(old(self).hubs@, addr@) ==> final(self).hubs@.drop_last()
                    == old(self).hubs@)
                &&& (spec_contains_hub(old(self).hubs@, addr@) ==> final(self).hubs@.drop_last()
                    == old(self).hubs@.remove(spec_hub_index(old(self).hubs@, addr@)))
            }),
    {
        match hub_type {
            HubType::TechnicMediumHub => {},
            _ => {
                return Err(Error::UnsupportedHubKind(hub_type));
            },
        }
        match self.find_hub(addr) {
            Some(i) => {
                proof {
                    lemma_hub_index_unique(self.hubs@, addr@, i as int);
                    lemma_remove_clears_address(self.hubs@, addr@, i as int);
                    self.hubs@.remove_ensures(i as int);
                }
                let _displaced = self.hubs.remove(i);
                proof {
                    let s0 = old(self).hubs@;
                    assert forall|p: int, q: int|
                        0 <= p < q < self.hubs@.len() implies self.hubs@[p].addr@
                        != self.hubs@[q].addr@ by {
                        s0.remove_ensures(i as int);
                        assert(self.hubs@[p] == if p < i { s0[p] } else { s0[p + 1] });
                        assert(self.hubs@[q] == if q < i { s0[q] } else { s0[q + 1] });
                    }
                }
            },
            None => {},
        }
        let ghost remainder = self.hubs@;
        let entry = HubEntry {
            addr: addr.clone(),
            hub_type,
            name: name.clone(),
            port_map: technic_hub_port_map(),
        };
        self.hubs.push(entry);
        proof {
            let s = self.hubs@;
            let n = s.len();
            assert(s[n - 1].addr@ == addr@);
            assert(s.drop_last() =~= remainder);
            assert(!spec_contains_hub(remainder, addr@));
            assert forall|p: int, q: int| 0 <= p < q < n implies s[p].addr@ != s[q].addr@ by {
                if q < n - 1 {
                    assert(s[p] == remainder[p] && s[q] == remainder[q]);
                } else {
                    assert(s[p] == remainder[p]);
                    assert(remainder[p].addr@ != addr@);
                }
            }
            lemma_hub_index_unique(s, addr@, n - 1);
        }
        Ok(HubController { addr: addr.clone(), hub_type, name: name.clone() })
    }
}

/// The kind-and-name resolution step of `ConnectToHub`: a caller-supplied
/// kind other than the `Unknown` sentinel is trusted together with its name;
/// for `Unknown` the identification function is re-run against the
/// peripheral's live properties, falling back to `Unknown` and an empty name
/// when it still identifies nothing.
pub fn resolve_hub_identity(discovered: &DiscoveredHub, live: &AdvertisedProperties) -> (r: (
    HubType,
    String,
))
    ensures
        discovered.hub_type != HubType::Unknown ==> (r.0 == discovered.hub_type && r.1@
            == discovered.name@),
        discovered.hub_type == HubType::Unknown ==> ({
            &&& (match spec_identify(*live) {
                Some(k) => r.0 == k,
                None => r.0 == HubType::Unknown,
            })
            &&& (match live.local_name {
                Some(n) => r.1@ == n@,
                None => r.1@ == Seq::<char>::empty(),
            })
        }),
{
    match discovered.hub_type {
        HubType::Unknown => {
            let hub_type = match identify(live) {
                Some(k) => k,
                None => HubType::Unknown,
            };
            let name = match &live.local_name {
                Some(n) => n.clone(),
                None => String::new(),
            };
            (hub_type, name)
        },
        _ => (discovered.hub_type, discovered.name.clone()),
    }
}

/// The characteristic-location step of `ConnectToHub`: the index of the
/// control characteristic required for LPF2 traffic among the enumerated
/// characteristic identifiers, or `CharacteristicMissing` when the
/// peripheral does not expose it.
pub fn find_lpf2_characteristic(chars: &Vec<u128>) -> (r: Result<usize, Error>)
    ensures
        chars@.contains(LPF2_ALL_CHARACTERISTIC) ==> (r matches Ok(i) && i < chars@.len()
            && chars@[i as int] == LPF2_ALL_CHARACTERISTIC),
        !chars@.contains(LPF2_ALL_CHARACTERISTIC) ==> r == Err::<usize, Error>(
            Error::CharacteristicMissing,
        ),
{
    let mut i: usize = 0;
    while i < chars.len()
        invariant
            i <= chars@.len(),
            forall|j: int| 0 <= j < i ==> chars@[j] != LPF2_ALL_CHARACTERISTIC,
        decreases chars@.len() - i,
    {
        if chars[i] == LPF2_ALL_CHARACTERISTIC {
            return Ok(i);
        }
        i = i + 1;
    }
    Err(Error::CharacteristicMissing)
}

/// Law: against a registry state holding no live entry for an address -- as
/// any state left by a successful `Disconnect` of that address is -- the
/// `GetPort` and `SendToHub` decisions can only answer `UnknownHub`, naming
/// the address.
pub proof fn lemma_unknown_address_always_fails(m: HubManager, addr: String, port: Port)
    requires
        !spec_contains_hub(m.hubs@, addr@),
    ensures
        forall|r: Result<PortController, Error>|
            call_ensures(HubManager::get_port, (&m, &addr, port), r) ==> (r matches Err(
                Error::UnknownHub(a),
            ) && a@ == addr@),
        forall|r: Result<usize, Error>|
            call_ensures(HubManager::send_to_hub, (&m, &addr), r) ==> (r matches Err(
                Error::UnknownHub(a),
            ) && a@ == addr@),
{
}

} // verus!
