use vstd::prelude::*;

use crate::codec::{decode_wire, encode_wire, parse_announce, wire_of};
use crate::decimal::{decimal_rep, decimal_string};
use crate::peer::{PeerRecord, PeerView};
use crate::registry::{Registry, RegistryOp, Snapshot};

verus! {

/// A caller broke a protocol precondition. These are usage errors, distinct
/// from network failures, which never reach this crate's logic.
#[derive(Clone, Copy, Debug, PartialEq, Eq, Structural)]
pub enum DiscoveryError {
    /// The local identity must be set before protocol operations run.
    IdentityUnset,
    /// The multicast target is resolved by `serve`; announcing before that
    /// has nothing to send to.
    NotStarted,
}

/// The resolved multicast group and port for outbound announces; set when
/// `serve` starts and immutable until the next restart.
pub struct MulticastTarget {
    pub group: String,
    pub port: u16,
}

/// What the socket layer must bind for a discovery session: a receive socket
/// on the multicast port and a send socket one port above, both on the given
/// interface and joined to the group.
#[derive(Debug)]
pub struct SocketPlan {
    pub interface: String,
    pub group: String,
    pub recv_port: u16,
    pub send_port: u16,
}

/// One announce burst, fully determined: the exact payload of every datagram,
/// the destination, and how many datagrams to send, one time unit apart.
#[derive(Debug)]
pub struct AnnouncePlan {
    pub payload: Vec<u8>,
    pub group: String,
    pub port: u16,
    pub count: u8,
}

/// The unicast reachability confirmation to issue to a newly seen peer: an
/// HTTP POST of the local identity's announce, marked with a fixed
/// shared-secret header. Success is any non-error response; the response body
/// is ignored.
#[derive(Debug)]
pub struct RegistrationRequest {
    pub url: String,
    pub header_name: String,
    pub header_value: String,
    pub body: Vec<u8>,
}

/// What to do with one received datagram.
#[derive(Clone, Copy, Debug, PartialEq, Eq, Structural)]
pub enum IgnoreReason {
    /// The payload did not decode; a recoverable event, the loop goes on.
    MalformedPayload,
    /// Our own announce came back; suppressed.
    SelfAnnounce,
    /// The fingerprint is already registered; no callback, no re-announce.
    AlreadyKnown,
}

/// The decision for one received datagram: drop it, or confirm the peer's
/// reachability and, on success, register it and re-announce once.
pub enum DatagramDecision {
    Ignore(IgnoreReason),
    Confirm(PeerRecord),
}

/// Mathematical image of a `DatagramDecision`.
pub enum DecisionView {
    Ignore(IgnoreReason),
    Confirm(PeerView),
}

impl View for DatagramDecision {
    type V = DecisionView;

    open spec fn view(&self) -> DecisionView {
        match self {
            DatagramDecision::Ignore(reason) => DecisionView::Ignore(*reason),
            DatagramDecision::Confirm(record) => DecisionView::Confirm(record@),
        }
    }
}

/// The decision the listen loop owes one received datagram, as a function of
/// the registry snapshot, the local fingerprint, the payload bytes and the
/// observed source address.
pub open spec fn spec_decision(
    snapshot: Snapshot,
    local_fingerprint: Seq<char>,
    payload: Seq<u8>,
    source: Seq<char>,
) -> DecisionView {
    match parse_announce(payload) {
        Option::None => DecisionView::Ignore(IgnoreReason::MalformedPayload),
        Option::Some(a) => if a.fingerprint == local_fingerprint {
            DecisionView::Ignore(IgnoreReason::SelfAnnounce)
        } else if snapshot.contains_key(a.fingerprint) {
            DecisionView::Ignore(IgnoreReason::AlreadyKnown)
        } else {
            DecisionView::Confirm(a.with_address(source))
        },
    }
}

/// The registration endpoint a confirmed peer is called back on.
pub open spec fn register_url(p: PeerView) -> Seq<char> {
    p.protocol + "://"@ + p.address + ":"@ + decimal_rep(p.port as nat)
        + "/api/localsend/v2/register"@
}

/// One discovery instance: the local identity, the resolved multicast
/// target, and the peer registry the protocol converges.
pub struct Discovery {
    pub registry: Registry,
    pub identity: Option<PeerRecord>,
    pub target: Option<MulticastTarget>,
}

impl Discovery {
    pub open spec fn wf(&self) -> bool {
        self.registry.wf()
    }

    /// A fresh instance: empty registry, no identity, no target.
    pub fn new() -> (r: Discovery)
        ensures
            r.wf(),
            r.registry@ == Map::<Seq<char>, PeerView>::empty(),
            r.registry.log() == Seq::<RegistryOp>::empty(),
            r.identity is None,
            r.target is None,
    {
        Discovery { registry: Registry::new(), identity: None, target: None }
    }

    /// Replace the local identity; always succeeds.
    pub fn set_current_node(&mut self, node: PeerRecord)
        ensures
            final(self).identity == Some(node),
            final(self).registry == old(self).registry,
            final(self).target == old(self).target,
    {
        self.identity = Some(node);
    }

    /// Start a discovery session: the registry is cleared (with a publish),
    /// the multicast target is resolved, and the sockets to bind are handed
    /// back. The clear comes first, unconditionally: a `serve` that then
    /// fails for want of an identity has still emptied the registry and
    /// published the empty snapshot — an observable partial effect of the
    /// failed start.
    pub fn serve(&mut self, interface_addr: String, multicast_group: String, multicast_port: u16)
        -> (r: Result<SocketPlan, DiscoveryError>)
        requires
            old(self).wf(),
            multicast_port < 65535,
        ensures
            final(self).wf(),
            final(self).identity == old(self).identity,
            final(self).registry@ == Map::<Seq<char>, PeerView>::empty(),
            final(self).registry.log() == old(self).registry.log().push(RegistryOp::Clear),
            final(self).registry.published() == old(self).registry.published().push(
                Map::<Seq<char>, PeerView>::empty(),
            ),
            old(self).identity is None ==> r == Err::<SocketPlan, DiscoveryError>(
                DiscoveryError::IdentityUnset,
            ) && final(self).target == old(self).target,
            old(self).identity is Some ==> {
                &&& r matches Ok(plan) && plan.interface@ == interface_addr@ && plan.group@
                    == multicast_group@ && plan.recv_port == multicast_port && plan.send_port
                    == multicast_port + 1
                &&& final(self).target matches Some(t) && t.group@ == multicast_group@ && t.port
                    == multicast_port
            },
    {
        self.registry.clear_nodes();
        if self.identity.is_none() {
            return Err(DiscoveryError::IdentityUnset);
        }
        self.target = Some(MulticastTarget { group: multicast_group.clone(), port: multicast_port });
        Ok(SocketPlan {
            interface: interface_addr,
            group: multicast_group,
            recv_port: multicast_port,
            send_port: multicast_port + 1,
        })
    }

    /// Plan an announce burst: `repeat` datagrams, each carrying the local
    /// identity's announce, to the resolved multicast target, one time unit
    /// apart. Decoding any planned datagram gives the identity's fields back.
    pub fn announce_plan(&self, repeat: u8) -> (r: Result<AnnouncePlan, DiscoveryError>)
        ensures
            self.identity is None <==> r == Err::<AnnouncePlan, DiscoveryError>(
                DiscoveryError::IdentityUnset,
            ),
            self.identity is Some && self.target is None <==> r == Err::<
                AnnouncePlan,
                DiscoveryError,
            >(DiscoveryError::NotStarted),
            self.identity is Some && self.target is Some ==> (r matches Ok(p) && {
                &&& p.count == repeat
                &&& p.group@ == self.target.unwrap().group@
                &&& p.port == self.target.unwrap().port
                &&& p.payload@ == wire_of(self.identity.unwrap()@.to_announce())
                &&& parse_announce(p.payload@) == Some(self.identity.unwrap()@.to_announce())
            }),
    {
        let id = match &self.identity {
            Some(id) => id,
            None => { return Err(DiscoveryError::IdentityUnset); },
        };
        let target = match &self.target {
            Some(t) => t,
            None => { return Err(DiscoveryError::NotStarted); },
        };
        let announce = id.to_announce();
        let payload = encode_wire(&announce);
        Ok(AnnouncePlan {
            payload,
            group: target.group.clone(),
            port: target.port,
            count: repeat,
        })
    }

    /// An active discovery burst: forget every known peer (publishing the
    /// empty snapshot at once) and plan five announces to re-learn them from
    /// scratch. The clear comes first, unconditionally: a `discover` that
    /// then fails for want of an identity or target has still emptied the
    /// registry and published the empty snapshot — an observable partial
    /// effect of the failed call.
    pub fn discover(&mut self) -> (r: Result<AnnouncePlan, DiscoveryError>)
        requires
            old(self).wf(),
        ensures
            final(self).wf(),
            final(self).identity == old(self).identity,
            final(self).target == old(self).target,
            final(self).registry@ == Map::<Seq<char>, PeerView>::empty(),
            final(self).registry.log() == old(self).registry.log().push(RegistryOp::Clear),
            final(self).registry.published() == old(self).registry.published().push(
                Map::<Seq<char>, PeerView>::empty(),
            ),
            old(self).identity is None <==> r == Err::<AnnouncePlan, DiscoveryError>(
                DiscoveryError::IdentityUnset,
            ),
            old(self).identity is Some && old(self).target is None <==> r == Err::<
                AnnouncePlan,
                DiscoveryError,
            >(DiscoveryError::NotStarted),
            old(self).identity is Some && old(self).target is Some ==> (r matches Ok(p)
                && p.count == 5 && p.group@ == old(self).target.unwrap().group@ && p.port == old(
                self,
            ).target.unwrap().port && p.payload@ == wire_of(
                old(self).identity.unwrap()@.to_announce(),
            )),
    {
        self.registry.clear_nodes();
        self.announce_plan(5)
    }

    /// Decide what one received datagram means. The decision never mutates
    /// anything: a malformed payload is dropped (the loop goes on), our own
    /// announce is suppressed, a known fingerprint is ignored, and only an
    /// unknown peer is handed on for reachability confirmation — rebuilt with
    /// the address the datagram was actually observed from.
    pub fn handle_datagram(&self, buf: &[u8], source_address: &str) -> (d: DatagramDecision)
        requires
            self.wf(),
            self.identity is Some,
        ensures
            d@ == spec_decision(
                self.registry@,
                self.identity.unwrap()@.fingerprint,
                buf@,
                source_address@,
            ),
    {
        let announce = match decode_wire(buf) {
            None => { return DatagramDecision::Ignore(IgnoreReason::MalformedPayload); },
            Some(a) => a,
        };
        let id = match &self.identity {
            Some(id) => id,
            None => unreached(),
        };
        if announce.fingerprint == id.fingerprint {
            return DatagramDecision::Ignore(IgnoreReason::SelfAnnounce);
        }
        match self.registry.get_node(&announce.fingerprint) {
            Some(_) => DatagramDecision::Ignore(IgnoreReason::AlreadyKnown),
            None => {
                let record = PeerRecord::from_announce(&announce, source_address);
                DatagramDecision::Confirm(record)
            },
        }
    }

    /// The unicast callback for a peer the decision asked to confirm: POST
    /// the local identity's announce to the peer's advertised endpoint, with
    /// the fixed shared-secret header. Fails when the identity is unset.
    pub fn registration_request(&self, peer: &PeerRecord) -> (r: Result<
        RegistrationRequest,
        DiscoveryError,
    >)
        ensures
            self.identity is None <==> r == Err::<RegistrationRequest, DiscoveryError>(
                DiscoveryError::IdentityUnset,
            ),
            self.identity is Some ==> (r matches Ok(q) && {
                &&& q.url@ == register_url(peer@)
                &&& q.header_name@ == "X-My-Header"@
                &&& q.header_value@ == "Secret"@
                &&& q.body@ == wire_of(self.identity.unwrap()@.to_announce())
                &&& parse_announce(q.body@) == Some(self.identity.unwrap()@.to_announce())
            }),
    {
        let id = match &self.identity {
            Some(id) => id,
            None => { return Err(DiscoveryError::IdentityUnset); },
        };
        let mut url = String::from_str(peer.protocol.as_str());
        url.append("://");
        url.append(peer.address.as_str());
        url.append(":");
        let port_digits = decimal_string(peer.port);
        url.append(port_digits.as_str());
        url.append("/api/localsend/v2/register");
        proof {
            assert(url@ =~= register_url(peer@));
        }
        let announce = id.to_announce();
        let body = encode_wire(&announce);
        Ok(RegistrationRequest {
            url,
            header_name: String::from_str("X-My-Header"),
            header_value: String::from_str("Secret"),
            body,
        })
    }

    /// Apply the outcome of a reachability confirmation. A confirmed peer is
    /// registered (publishing the new snapshot) and one re-announce is owed,
    /// so that the rest of the segment learns of the newcomer; a failed
    /// confirmation leaves no trace — no partial state, no re-announce.
    pub fn apply_confirmation(&mut self, record: PeerRecord, confirmed: bool) -> (reannounce:
        bool)
        requires
            old(self).wf(),
        ensures
            final(self).wf(),
            reannounce == confirmed,
            final(self).identity == old(self).identity,
            final(self).target == old(self).target,
            confirmed ==> {
                &&& final(self).registry@ == old(self).registry@.insert(
                    record@.fingerprint,
                    record@,
                )
                &&& final(self).registry.log() == old(self).registry.log().push(
                    RegistryOp::Add(record@),
                )
                &&& final(self).registry.published() == old(self).registry.published().push(
                    final(self).registry@,
                )
            },
            !confirmed ==> final(self).registry == old(self).registry,
    {
        if confirmed {
            self.registry.add_node(record);
            true
        } else {
            false
        }
    }
}

/// Self-suppression: a decoded announce carrying the local fingerprint is
/// always dropped, whatever the registry holds. An `Ignore` decision is the
/// datagram's whole effect: the decision procedure takes `&self`, only a
/// `Confirm` decision leads the caller to a registration callback, and only
/// `apply_confirmation` — reached with a `Confirm`'s record — mutates the
/// registry, publishes a snapshot, or owes a re-announce.
pub proof fn lemma_self_announce_suppressed(
    snapshot: Snapshot,
    local_fingerprint: Seq<char>,
    payload: Seq<u8>,
    source: Seq<char>,
)
    requires
        parse_announce(payload) matches Some(a) && a.fingerprint == local_fingerprint,
    ensures
        spec_decision(snapshot, local_fingerprint, payload, source) == DecisionView::Ignore(
            IgnoreReason::SelfAnnounce,
        ),
{
}

/// Duplicate suppression: an announce from a fingerprint the registry
/// already holds is dropped, whatever record or source address it carries —
/// no new registration callback, no registry mutation, no publish and no
/// re-announce follow, for the same reason as above.
pub proof fn lemma_duplicate_announce_suppressed(
    snapshot: Snapshot,
    local_fingerprint: Seq<char>,
    payload: Seq<u8>,
    source: Seq<char>,
)
    requires
        parse_announce(payload) matches Some(a) && a.fingerprint != local_fingerprint
            && snapshot.contains_key(a.fingerprint),
    ensures
        spec_decision(snapshot, local_fingerprint, payload, source) == DecisionView::Ignore(
            IgnoreReason::AlreadyKnown,
        ),
{
}

} // verus!
