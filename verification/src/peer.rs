use vstd::prelude::*;

verus! {

/// A peer's identity as known locally. The fingerprint is the sole identity
/// key: two records with the same fingerprint name the same logical peer, and
/// the latest write wins. The address is always the one observed on the wire,
/// never one taken from a payload.
pub struct PeerRecord {
    pub alias: String,
    pub fingerprint: String,
    pub address: String,
    pub port: u16,
    pub protocol: String,
}

/// Mathematical image of a `PeerRecord`.
pub struct PeerView {
    pub alias: Seq<char>,
    pub fingerprint: Seq<char>,
    pub address: Seq<char>,
    pub port: u16,
    pub protocol: Seq<char>,
}

impl View for PeerRecord {
    type V = PeerView;

    open spec fn view(&self) -> PeerView {
        PeerView {
            alias: self.alias@,
            fingerprint: self.fingerprint@,
            address: self.address@,
            port: self.port,
            protocol: self.protocol@,
        }
    }
}

impl Clone for PeerRecord {
    fn clone(&self) -> (r: Self)
        ensures
            r == *self,
    {
        PeerRecord {
            alias: self.alias.clone(),
            fingerprint: self.fingerprint.clone(),
            address: self.address.clone(),
            port: self.port,
            protocol: self.protocol.clone(),
        }
    }
}

/// The wire-facing projection of a peer's identity: everything a record
/// carries except the network address, which the receiver supplies from the
/// observed packet source.
pub struct AnnounceMessage {
    pub alias: String,
    pub fingerprint: String,
    pub port: u16,
    pub protocol: String,
}

/// Mathematical image of an `AnnounceMessage`.
pub struct AnnounceView {
    pub alias: Seq<char>,
    pub fingerprint: Seq<char>,
    pub port: u16,
    pub protocol: Seq<char>,
}

impl View for AnnounceMessage {
    type V = AnnounceView;

    open spec fn view(&self) -> AnnounceView {
        AnnounceView {
            alias: self.alias@,
            fingerprint: self.fingerprint@,
            port: self.port,
            protocol: self.protocol@,
        }
    }
}

impl Clone for AnnounceMessage {
    fn clone(&self) -> (r: Self)
        ensures
            r == *self,
    {
        AnnounceMessage {
            alias: self.alias.clone(),
            fingerprint: self.fingerprint.clone(),
            port: self.port,
            protocol: self.protocol.clone(),
        }
    }
}

impl PeerView {
    /// The announce projection of a record: the address is dropped, all other
    /// fields are kept.
    pub open spec fn to_announce(self) -> AnnounceView {
        AnnounceView {
            alias: self.alias,
            fingerprint: self.fingerprint,
            port: self.port,
            protocol: self.protocol,
        }
    }
}

impl AnnounceView {
    /// The record an announce denotes once the observed source address is
    /// supplied.
    pub open spec fn with_address(self, address: Seq<char>) -> PeerView {
        PeerView {
            alias: self.alias,
            fingerprint: self.fingerprint,
            address,
            port: self.port,
            protocol: self.protocol,
        }
    }
}

impl PeerRecord {
    pub fn new(
        alias: String,
        fingerprint: String,
        address: String,
        port: u16,
        protocol: String,
    ) -> (r: PeerRecord)
        ensures
            r@ == (PeerView {
                alias: alias@,
                fingerprint: fingerprint@,
                address: address@,
                port: port,
                protocol: protocol@,
            }),
    {
        PeerRecord { alias, fingerprint, address, port, protocol }
    }

    /// Project this record onto the wire format.
    pub fn to_announce(&self) -> (a: AnnounceMessage)
        ensures
            a@ == self@.to_announce(),
    {
        AnnounceMessage {
            alias: self.alias.clone(),
            fingerprint: self.fingerprint.clone(),
            port: self.port,
            protocol: self.protocol.clone(),
        }
    }

    /// Rebuild a record from a received announce and the address the datagram
    /// actually came from.
    pub fn from_announce(a: &AnnounceMessage, address: &str) -> (r: PeerRecord)
        ensures
            r@ == a@.with_address(address@),
    {
        PeerRecord {
            alias: a.alias.clone(),
            fingerprint: a.fingerprint.clone(),
            address: address.to_owned(),
            port: a.port,
            protocol: a.protocol.clone(),
        }
    }
}

/// Converting a record to its announce and back with the same address is the
/// identity: the projection is lossless for the fields it carries.
pub proof fn lemma_announce_conversion_lossless(p: PeerView, address: Seq<char>)
    ensures
        p.to_announce().with_address(address) == (PeerView { address, ..p }),
        p.to_announce().with_address(p.address) == p,
{
}

} // verus!
