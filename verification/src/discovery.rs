//! Discovery bookkeeping: the record a positive identification produces, the
//! filters a waiting caller may attach, the decision the Discovery Listener
//! takes for each adapter event, and the Connection/Discovery Manager state
//! machine that owns the discovery log and the single pending wait.
//!
//! The manager's state lives here and every transition is verified; the
//! channels, timers and tasks that carry its messages live outside the
//! library and consult these decisions.

use vstd::prelude::*;
use crate::consts::HubType;
use crate::error::Error;
use crate::identify::{identify, spec_identify, AdvertisedProperties};

verus! {

/// A positively identified, not-yet-connected hub: the kind, the string form
/// of the peripheral address, and the advertised name.  Immutable once
/// created; appended to the manager's discovery log.
#[derive(Debug)]
pub struct DiscoveredHub {
    pub hub_type: HubType,
    pub addr: String,
    pub name: String,
}

impl Clone for DiscoveredHub {
    /// Cloning keeps every field.
    fn clone(&self) -> (r: Self)
        ensures
            r == *self,
    {
        DiscoveredHub {
            hub_type: self.hub_type,
            addr: self.addr.clone(),
            name: self.name.clone(),
        }
    }
}

/// A domain notification emitted by the Discovery Listener towards the
/// Connection/Discovery Manager.
#[non_exhaustive]
#[derive(Debug)]
pub enum DeviceNotificationMessage {
    HubDiscovered(DiscoveredHub),
}

/// A waiting caller's filter on discoveries: by exact name, or by the exact
/// string form of the address.
#[derive(Debug)]
pub enum HubFilter {
    Name(String),
    Addr(String),
}

impl HubFilter {
    /// What the filter says of a record: `Name(n)` matches exactly when the
    /// record's name equals `n`; `Addr(a)` exactly when the string form of
    /// its address equals `a`.
    pub open spec fn spec_matches(self, hub: DiscoveredHub) -> bool {
        match self {
            HubFilter::Name(n) => hub.name@ == n@,
            HubFilter::Addr(a) => hub.addr@ == a@,
        }
    }

    /// Tests a discovered record against the filter.
    pub fn matches(&self, hub: &DiscoveredHub) -> (r: bool)
        ensures
            r == self.spec_matches(*hub),
    {
        match self {
            HubFilter::Name(n) => hub.name == *n,
            HubFilter::Addr(a) => hub.addr == *a,
        }
    }
}

/// One pending wait-for-hub registration: the token under which the caller's
/// single-use reply channel is held outside the library, and the optional
/// filter.  At most one is live in the manager at a time.
#[derive(Debug)]
pub struct HubNotificationParams {
    pub token: u64,
    pub filter: Option<HubFilter>,
}

/// Whether a pending wait with this filter accepts the record: an absent
/// filter accepts everything.
pub open spec fn spec_wait_matches(filter: Option<HubFilter>, hub: DiscoveredHub) -> bool {
    match filter {
        None => true,
        Some(f) => f.spec_matches(hub),
    }
}

/// A control message to the Connection/Discovery Manager: end the loop, or
/// register a wait-for-hub.
#[derive(Debug)]
pub enum PoweredUpInternalControlMessage {
    Stop,
    WaitForHub(HubNotificationParams),
}

/// The Connection/Discovery Manager's state: the ordered, append-only log of
/// discoveries, and the at-most-one pending wait registration.
#[derive(Debug)]
pub struct PoweredUpInternal {
    pub discovered_hubs: Vec<DiscoveredHub>,
    pub hub_notifications: Option<HubNotificationParams>,
}

impl PoweredUpInternal {
    /// A fresh manager: empty log, no pending wait.
    pub fn new() -> (r: Self)
        ensures
            r.discovered_hubs@ == Seq::<DiscoveredHub>::empty(),
            r.hub_notifications is None,
    {
        let discovered_hubs: Vec<DiscoveredHub> = Vec::new();
        proof {
            assert(discovered_hubs@ =~= Seq::<DiscoveredHub>::empty());
        }
        PoweredUpInternal { discovered_hubs, hub_notifications: None }
    }

    /// Stores a wait-for-hub registration.  A registration arriving while
    /// one is already stored replaces it, and the displaced one is handed
    /// back so the caller can fail it explicitly rather than drop it
    /// silently.
    pub fn register_wait(&mut self, params: HubNotificationParams) -> (displaced: Option<
        HubNotificationParams,
    >)
        ensures
            final(self).hub_notifications == Some(params),
            displaced == old(self).hub_notifications,
            final(self).discovered_hubs == old(self).discovered_hubs,
    {
        let displaced = self.hub_notifications.take();
        self.hub_notifications = Some(params);
        displaced
    }

    /// The manager's step for an inbound discovery: if a pending wait is
    /// stored and its filter is absent or matches, the wait is consumed and
    /// its token returned so the record is sent through the caller's reply
    /// channel; a stored wait whose filter does not match stays in place.
    /// In every case the record is appended to the discovery log.
    pub fn on_hub_discovered(&mut self, hub: DiscoveredHub) -> (reply: Option<u64>)
        ensures
            final(self).discovered_hubs@ == old(self).discovered_hubs@.push(hub),
            old(self).hub_notifications matches Some(w) ==> ({
                &&& spec_wait_matches(w.filter, hub) ==> (reply == Some(w.token)
                    && final(self).hub_notifications is None)
                &&& !spec_wait_matches(w.filter, hub) ==> (reply is None
                    && final(self).hub_notifications == old(self).hub_notifications)
            }),
            old(self).hub_notifications is None ==> (reply is None
                && final(self).hub_notifications is None),
    {
        let mut reply: Option<u64> = None;
        let taken = self.hub_notifications.take();
        match taken {
            Some(notify) => {
                let send_it = match &notify.filter {
                    Some(filter) => filter.matches(&hub),
                    None => true,
                };
                if send_it {
                    reply = Some(notify.token);
                } else {
                    self.hub_notifications = Some(notify);
                }
            },
            None => {},
        }
        self.discovered_hubs.push(hub);
        reply
    }

    /// The manager's step for a control message: `Stop` asks the loop to
    /// end; `WaitForHub` stores the registration as `register_wait` does.
    /// Returns whether to stop, and any displaced registration.
    pub fn handle_control(&mut self, msg: PoweredUpInternalControlMessage) -> (r: (
        bool,
        Option<HubNotificationParams>,
    ))
        ensures
            msg matches PoweredUpInternalControlMessage::WaitForHub(p) ==> (r.0 == false
                && final(self).hub_notifications == Some(p) && r.1 == old(self).hub_notifications
                && final(self).discovered_hubs == old(self).discovered_hubs),
            msg is Stop ==> (r.0 == true && *final(self) == *old(self) && r.1 is None),
    {
        match msg {
            PoweredUpInternalControlMessage::Stop => (true, None),
            PoweredUpInternalControlMessage::WaitForHub(params) => {
                let displaced = self.register_wait(params);
                (false, displaced)
            },
        }
    }
}

/// The Discovery Listener's decision for one "device discovered" adapter
/// event: a peripheral with no advertised name or one already connected is
/// ignored; otherwise a positive identification yields the record to emit,
/// and a negative one is dropped silently.
pub fn evaluate_discovery(addr: &String, props: &AdvertisedProperties, connected: bool) -> (r:
    Option<DiscoveredHub>)
    ensures
        r matches Some(hub) ==> ({
            &&& !connected
            &&& props.local_name matches Some(n) && hub.name@ == n@
            &&& spec_identify(*props) == Some(hub.hub_type)
            &&& hub.addr@ == addr@
        }),
        r is None ==> (connected || props.local_name is None || spec_identify(*props) is None),
{
    if connected {
        return None;
    }
    match &props.local_name {
        None => None,
        Some(name) => {
            match identify(props) {
                Some(hub_type) => Some(
                    DiscoveredHub { hub_type, addr: addr.clone(), name: name.clone() },
                ),
                None => None,
            }
        },
    }
}

/// The waiting caller's decision once its reply has been raced against the
/// timer: a delivered record wins; expiry is a `Timeout` error.  The pending
/// registration itself is not retracted on the timeout path.
pub fn resolve_wait(reply: Option<DiscoveredHub>) -> (r: Result<DiscoveredHub, Error>)
    ensures
        reply matches Some(h) ==> r == Ok::<DiscoveredHub, Error>(h),
        reply is None ==> r == Err::<DiscoveredHub, Error>(Error::Timeout),
{
    match reply {
        Some(h) => Ok(h),
        None => Err(Error::Timeout),
    }
}

} // verus!
