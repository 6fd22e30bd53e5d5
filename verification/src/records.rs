//! The records a host reads, and how each shows a value of the mesh core.
//!
//! Of every record, `shows` says when it shows a value, field by field, and `of` makes the one that
//! does.
use vstd::prelude::*;

use crate::bytes::{app_label, label_app, optional_bytes, optional_to_vec, to_vec};
use crate::mesh::{
    Advert, AdvertKind, HnsLookup, HnsResolution, HttpRequest, HttpResponse, IdentityRecord,
    InboxBundle, Message, NodeKind, QueuedBundle, ServiceRequest, ServiceResponse,
    TraceHop,
};
use crate::text::{eq_ignore_ascii_case, same_ignoring_case};

verus! {

/// Opaque bytes to ship over the bearer on a given connection.
#[derive(Debug)]
pub struct OutPacket {
    pub link: u64,
    pub bytes: Vec<u8>,
}

impl OutPacket {
    pub open spec fn shows(self, packet: (u64, Vec<u8>)) -> bool {
        self.link == packet.0 && self.bytes@ == packet.1@
    }

    pub fn of(packet: (u64, Vec<u8>)) -> (record: OutPacket)
        ensures
            record.shows(packet),
    {
        let (link, bytes) = packet;
        OutPacket { link, bytes }
    }
}

/// One forwarding hop in a message's provenance trace.
#[derive(Debug)]
pub struct TraceHopInfo {
    /// The forwarder's 8-byte short address. Compare to the short form of a known peer, relay or
    /// contact to resolve it to a display name; show hex if unknown.
    pub node: Vec<u8>,
    /// Carrying-app label: "Hop Relay" for infra, "device" for end-user nodes, else hex.
    pub app_label: String,
}

impl TraceHopInfo {
    /// `relay` and `fabric` are the short forms of the two app ids that have a name.
    pub open spec fn shows(self, hop: TraceHop, relay: Seq<u8>, fabric: Seq<u8>) -> bool {
        self.node@ == hop.node@ && self.app_label@ == app_label(hop.app@, relay, fabric)
    }

    pub fn of(hop: &TraceHop, relay: &[u8; 8], fabric: &[u8; 8]) -> (record: TraceHopInfo)
        ensures
            record.shows(*hop, relay@, fabric@),
    {
        TraceHopInfo { node: to_vec(&hop.node), app_label: label_app(&hop.app, relay, fabric) }
    }
}

/// A decrypted message delivered to this node.
#[derive(Debug)]
pub struct InboxMessage {
    /// Sender's hop address (Ed25519 public key).
    pub from: Vec<u8>,
    pub content_type: String,
    pub body: Vec<u8>,
    /// How many hops it travelled to reach us (A to B path length).
    pub hops: u8,
    /// Sender's clock (ms) when the message was created, signed by the sender. Subtract from local
    /// receive time for an end-to-end latency estimate.
    pub created_at: u64,
    /// Provenance: one hop per node that forwarded this message, in order. Empty for a direct
    /// (0-relay) delivery.
    pub trace: Vec<TraceHopInfo>,
}

/// The bundle carries a message that could be read.
pub open spec fn is_readable(bundle: InboxBundle) -> bool {
    bundle.read matches Ok(Some(_))
}

impl InboxMessage {
    pub open spec fn shows(self, bundle: InboxBundle, relay: Seq<u8>, fabric: Seq<u8>) -> bool {
        &&& bundle.read matches Ok(Some(m))
        &&& self.from@ == m.from@
        &&& self.content_type@ == m.content_type@
        &&& self.body@ == m.body@
        &&& self.hops == bundle.hops
        &&& self.created_at == bundle.created_at
        &&& self.trace@.len() == bundle.trace@.len()
        &&& forall|i: int|
            0 <= i < self.trace@.len() ==> (#[trigger] self.trace@[i]).shows(
                bundle.trace@[i],
                relay,
                fabric,
            )
    }

    /// The message of a bundle, if it has one that could be read.
    pub fn of(bundle: InboxBundle, relay: &[u8; 8], fabric: &[u8; 8]) -> (record: Option<
        InboxMessage,
    >)
        ensures
            record is Some <==> is_readable(bundle),
            record matches Some(m) ==> m.shows(bundle, relay@, fabric@),
    {
        match bundle.read {
            Ok(Some(m)) => {
                let Message { from, content_type, body } = m;
                let mut trace: Vec<TraceHopInfo> = Vec::new();
                for i in 0..bundle.trace.len()
                    invariant
                        trace@.len() == i,
                        forall|j: int|
                            0 <= j < i ==> (#[trigger] trace@[j]).shows(
                                bundle.trace@[j],
                                relay@,
                                fabric@,
                            ),
                {
                    trace.push(TraceHopInfo::of(&bundle.trace[i], relay, fabric));
                }
                Some(
                    InboxMessage {
                        from: to_vec(&from),
                        content_type,
                        body,
                        hops: bundle.hops,
                        created_at: bundle.created_at,
                        trace,
                    },
                )
            },
            _ => None,
        }
    }
}

/// A node's identity, decoded from an identity response.
#[derive(Debug)]
pub struct IdentityInfo {
    /// The node's full hop address.
    pub address: Vec<u8>,
    /// Display name, if the node set one. Empty string = unset: show the short address (devices are
    /// unnamed by default; relays report their region domain).
    pub name: String,
    /// "device" | "relay" | "gateway" | "endpoint".
    pub kind: String,
}

/// The word for a kind of node.
pub open spec fn kind_word(kind: NodeKind) -> Seq<char> {
    match kind {
        NodeKind::Device => "device"@,
        NodeKind::Relay => "relay"@,
        NodeKind::Gateway => "gateway"@,
        NodeKind::Endpoint => "endpoint"@,
    }
}

/// An optional text with an empty one for `None`.
pub open spec fn text_or_empty(text: Option<String>) -> Seq<char> {
    match text {
        Some(t) => t@,
        None => Seq::empty(),
    }
}

impl IdentityInfo {
    pub open spec fn shows(self, record: IdentityRecord) -> bool {
        &&& self.address@ == record.address@
        &&& self.name@ == text_or_empty(record.name)
        &&& self.kind@ == kind_word(record.kind)
    }
}

/// Turn what an identity response body was parsed to into an `IdentityInfo`; `None` if the bytes
/// were not a valid identity record (e.g. the response was for a different service).
pub fn decode_identity(record: Option<IdentityRecord>) -> (info: Option<IdentityInfo>)
    ensures
        info is Some <==> record is Some,
        info matches Some(i) ==> i.shows(record->0),
{
    match record {
        None => None,
        Some(r) => {
            let IdentityRecord { address, name, kind } = r;
            Some(
                IdentityInfo {
                    address: to_vec(&address),
                    name: match name {
                        Some(n) => n,
                        None => String::new(),
                    },
                    kind: match kind {
                        NodeKind::Device => "device".to_string(),
                        NodeKind::Relay => "relay".to_string(),
                        NodeKind::Gateway => "gateway".to_string(),
                        NodeKind::Endpoint => "endpoint".to_string(),
                    },
                },
            )
        },
    }
}

/// A custom (non-`hop.`) service request addressed to this node for the app to fulfill.
#[derive(Debug)]
pub struct ServiceReq {
    pub from: Vec<u8>,
    /// Request id: pass back to `send_service_response` as `for_request_id`.
    pub request_id: Vec<u8>,
    pub service: String,
    pub method: String,
    pub args: Vec<u8>,
}

impl ServiceReq {
    pub open spec fn shows(self, request: ServiceRequest) -> bool {
        &&& self.from@ == request.from@
        &&& self.request_id@ == request.id@
        &&& self.service@ == request.service@
        &&& self.method@ == request.method@
        &&& self.args@ == request.args@
    }

    pub fn of(request: ServiceRequest) -> (record: ServiceReq)
        ensures
            record.shows(request),
    {
        let ServiceRequest { from, id, service, method, args } = request;
        ServiceReq { from: to_vec(&from), request_id: to_vec(&id), service, method, args }
    }
}

/// A service response sealed back to this node as a caller.
#[derive(Debug)]
pub struct ServiceResp {
    pub from: Vec<u8>,
    pub for_request_id: Vec<u8>,
    pub status: u16,
    pub body: Vec<u8>,
}

impl ServiceResp {
    pub open spec fn shows(self, response: ServiceResponse) -> bool {
        &&& self.from@ == response.from@
        &&& self.for_request_id@ == response.for_id@
        &&& self.status == response.status
        &&& self.body@ == response.body@
    }

    pub fn of(response: ServiceResponse) -> (record: ServiceResp)
        ensures
            record.shows(response),
    {
        let ServiceResponse { from, for_id, status, body } = response;
        ServiceResp { from: to_vec(&from), for_request_id: to_vec(&for_id), status, body }
    }
}

/// A service advert discovered via gossip (direct or relayed). The `publisher` is the address to
/// message. Apps build presence and contacts on this (e.g. a "presence" service whose `title` is a
/// display name).
#[derive(Debug)]
pub struct ServiceHit {
    /// Publisher's hop address (Ed25519 public key): message this to reach them.
    pub publisher: Vec<u8>,
    pub service: String,
    pub title: String,
    pub summary: String,
    pub tags: Vec<String>,
    /// Hops away through the mesh (1 = direct neighbour, 2 and more = via relays; 0 = unknown).
    pub hops: u8,
    /// Publisher clock (ms) when this advert was created: lets the app pick the freshest record per
    /// publisher (e.g. current foreground/background state).
    pub created_at: u64,
}

/// The advert announces a service.
pub open spec fn is_service(advert: Advert) -> bool {
    advert.kind is Service
}

impl ServiceHit {
    pub open spec fn shows(self, advert: Advert) -> bool {
        &&& advert.kind matches AdvertKind::Service { service, title, summary, tags }
        &&& self.publisher@ == advert.publisher@
        &&& self.service@ == service@
        &&& self.title@ == title@
        &&& self.summary@ == summary@
        &&& self.tags@ == tags@
        &&& self.hops == advert.hops
        &&& self.created_at == advert.created_at
    }

    /// The hit that an advert is, if it announces a service.
    pub fn of(advert: Advert) -> (record: Option<ServiceHit>)
        ensures
            record is Some <==> is_service(advert),
            record matches Some(h) ==> h.shows(advert),
    {
        let Advert { publisher, kind, hops, created_at } = advert;
        match kind {
            AdvertKind::Service { service, title, summary, tags } => Some(
                ServiceHit {
                    publisher: to_vec(&publisher),
                    service,
                    title,
                    summary,
                    tags,
                    hops,
                    created_at,
                },
            ),
            AdvertKind::Other => None,
        }
    }
}

/// An egress HTTP request a gateway should fulfill.
#[derive(Debug)]
pub struct HttpReq {
    /// Requester's address (seal the response back to this).
    pub from: Vec<u8>,
    /// The request bundle id (pass back as `for_request_id`).
    pub request_id: Vec<u8>,
    /// The authorized target domain (the endpoint validates this against its own origin).
    pub host: String,
    pub method: String,
    pub url: String,
    pub body: Vec<u8>,
    pub max_resp: u32,
}

impl HttpReq {
    pub open spec fn shows(self, request: HttpRequest) -> bool {
        &&& self.from@ == request.from@
        &&& self.request_id@ == request.id@
        &&& self.host@ == request.host@
        &&& self.method@ == request.method@
        &&& self.url@ == request.url@
        &&& self.body@ == request.body@
        &&& self.max_resp == request.max_resp
    }

    pub fn of(request: HttpRequest) -> (record: HttpReq)
        ensures
            record.shows(request),
    {
        let HttpRequest { from, id, host, method, url, body, max_resp } = request;
        HttpReq {
            from: to_vec(&from),
            request_id: to_vec(&id),
            host,
            method,
            url,
            body,
            max_resp,
        }
    }
}

/// An HTTP response sealed back to the requester.
#[derive(Debug)]
pub struct HttpResp {
    pub from: Vec<u8>,
    pub for_request_id: Vec<u8>,
    pub status: u16,
    /// The response's content-type (e.g. `text/html`), so a WebView renders it correctly. Empty if
    /// the responder did not set one.
    pub content_type: String,
    pub body: Vec<u8>,
}

/// Header `i` is the first one called `Content-Type`, in any case.
pub open spec fn is_first_content_type(headers: Seq<(String, String)>, i: int) -> bool {
    &&& 0 <= i < headers.len()
    &&& same_ignoring_case(headers[i].0@, "content-type"@)
    &&& forall|j: int|
        0 <= j < i ==> !same_ignoring_case((#[trigger] headers[j]).0@, "content-type"@)
}

/// `value` is what the headers say of the content type: the value of the first such header, or
/// nothing where there is none.
pub open spec fn is_content_type(headers: Seq<(String, String)>, value: Seq<char>) -> bool {
    if exists|i: int| is_first_content_type(headers, i) {
        exists|i: int| #[trigger] is_first_content_type(headers, i) && value == headers[i].1@
    } else {
        value.len() == 0
    }
}

/// The content type that a response's headers name.
pub fn content_type(headers: &Vec<(String, String)>) -> (value: String)
    ensures
        is_content_type(headers@, value@),
{
    for i in 0..headers.len()
        invariant
            forall|j: int|
                0 <= j < i ==> !same_ignoring_case((#[trigger] headers@[j]).0@, "content-type"@),
    {
        if eq_ignore_ascii_case(headers[i].0.as_str(), "content-type") {
            assert(is_first_content_type(headers@, i as int));
            return headers[i].1.clone();
        }
    }
    String::new()
}

impl HttpResp {
    pub open spec fn shows(self, response: HttpResponse) -> bool {
        &&& self.from@ == response.from@
        &&& self.for_request_id@ == response.for_id@
        &&& self.status == response.status
        &&& is_content_type(response.headers@, self.content_type@)
        &&& self.body@ == response.body@
    }

    pub fn of(response: HttpResponse) -> (record: HttpResp)
        ensures
            record.shows(response),
    {
        let HttpResponse { from, for_id, status, headers, body } = response;
        HttpResp {
            from: to_vec(&from),
            for_request_id: to_vec(&for_id),
            status,
            content_type: content_type(&headers),
            body,
        }
    }
}

/// A finished HNS resolution. `address` empty = the domain served no valid reach record (a
/// resolution error, e.g. `hops://thisdoesnotexist.com`).
#[derive(Debug)]
pub struct HnsRecord {
    pub domain: String,
    pub address: Vec<u8>,
}

impl HnsRecord {
    pub open spec fn shows(self, resolution: HnsResolution) -> bool {
        &&& self.domain@ == resolution.domain@
        &&& self.address@ == optional_bytes(resolution.address)
    }

    pub fn of(resolution: HnsResolution) -> (record: HnsRecord)
        ensures
            record.shows(resolution),
    {
        HnsRecord {
            address: optional_to_vec(&resolution.address),
            domain: resolution.domain,
        }
    }
}

/// A live HNS cache entry for the debug view. `address` empty = a cached negative; `ttl_secs` is
/// the remaining lifetime, ticking down to expiry.
#[derive(Debug)]
pub struct HnsCacheEntry {
    pub domain: String,
    pub address: Vec<u8>,
    pub ttl_secs: u32,
}

impl HnsCacheEntry {
    /// The entry is a domain, its cached address and its remaining lifetime in milliseconds. Of the
    /// whole seconds that are left, a record has room for the low 32 bits.
    pub open spec fn shows(self, entry: (String, Option<[u8; 32]>, u64)) -> bool {
        &&& self.domain@ == entry.0@
        &&& self.address@ == optional_bytes(entry.1)
        &&& self.ttl_secs == (entry.2 as int / 1000) % 0x1_0000_0000
    }

    pub fn of(entry: (String, Option<[u8; 32]>, u64)) -> (record: HnsCacheEntry)
        ensures
            record.shows(entry),
    {
        let (domain, address, remaining_ms) = entry;
        HnsCacheEntry {
            domain,
            address: optional_to_vec(&address),
            ttl_secs: ((remaining_ms / 1000) % 0x1_0000_0000) as u32,
        }
    }
}

/// Outcome of starting an HNS resolution.
#[derive(Debug)]
pub enum HnsLookupResult {
    /// Served from a fresh cache entry. `address` empty = a cached negative.
    Cached { address: Vec<u8> },
    /// A lookup was kicked off; the result arrives via `take_hns_results`. If this device is
    /// internet-connected the host must service `take_dns_lookups`.
    Pending,
    /// This device has no internet, so it cannot fetch the domain's `/.well-known/hop`, and there
    /// is no relayed resolution. Hand it the address directly instead (`hops://<address>`).
    NeedsResolver,
}

impl HnsLookupResult {
    pub open spec fn shows(self, lookup: HnsLookup) -> bool {
        match (self, lookup) {
            (HnsLookupResult::Cached { address }, HnsLookup::Cached(found)) => address@
                == optional_bytes(found),
            (HnsLookupResult::Pending, HnsLookup::Pending) => true,
            (HnsLookupResult::NeedsResolver, HnsLookup::NeedsResolver) => true,
            _ => false,
        }
    }

    pub fn of(lookup: HnsLookup) -> (result: HnsLookupResult)
        ensures
            result.shows(lookup),
    {
        match lookup {
            HnsLookup::Cached(found) => HnsLookupResult::Cached { address: optional_to_vec(&found) },
            HnsLookup::Pending => HnsLookupResult::Pending,
            HnsLookup::NeedsResolver => HnsLookupResult::NeedsResolver,
        }
    }
}

/// A live link to a directly-connected peer: its address and the bearer link id. The host maps the
/// link id to a transport (e.g. under 10000 = Bluetooth, 10000 and up = Wi-Fi).
#[derive(Debug)]
pub struct PeerLink {
    pub address: Vec<u8>,
    pub link: u64,
}

impl PeerLink {
    pub open spec fn shows(self, link: ([u8; 32], u64)) -> bool {
        self.address@ == link.0@ && self.link == link.1
    }

    pub fn of(link: ([u8; 32], u64)) -> (record: PeerLink)
        ensures
            record.shows(link),
    {
        PeerLink { address: to_vec(&link.0), link: link.1 }
    }
}

/// Delivery status of a message we sent (Sending / Sent N / Delivered).
#[derive(Clone, Copy, Debug)]
pub struct MessageStatus {
    /// Distinct peers we've handed a copy to ("Sent N").
    pub relayed: u32,
    /// The destination confirmed receipt back across the network.
    pub delivered: bool,
    /// Forward path length the destination observed (hops to delivery; 0 until delivered).
    pub delivery_hops: u8,
    /// Forward-path (A to B) latency in ms the destination observed and reported in its ACK: how
    /// long the message took to reach the recipient, not the round trip. 0 until delivered.
    pub delivery_ms: u32,
}

impl MessageStatus {
    /// The status of a message that is not known.
    pub open spec fn blank_status() -> MessageStatus {
        MessageStatus { relayed: 0, delivered: false, delivery_hops: 0, delivery_ms: 0 }
    }

    pub fn blank() -> (status: MessageStatus)
        ensures
            status == MessageStatus::blank_status(),
    {
        MessageStatus { relayed: 0, delivered: false, delivery_hops: 0, delivery_ms: 0 }
    }
}

/// An item in the relay queue: ours awaiting send, or a peer's awaiting relay.
#[derive(Debug)]
pub struct QueueItem {
    pub id: Vec<u8>,
    /// True = our own message (pinned). False = relaying for a peer (decays).
    pub own: bool,
    /// Destination address (empty if internet-egress).
    pub to: Vec<u8>,
    pub priority: u8,
    pub hops: u8,
}

impl QueueItem {
    pub open spec fn shows(self, bundle: QueuedBundle) -> bool {
        &&& self.id@ == bundle.id@
        &&& self.own == bundle.own
        &&& self.to@ == optional_bytes(bundle.to)
        &&& self.priority == bundle.priority
        &&& self.hops == bundle.hops
    }

    pub fn of(bundle: QueuedBundle) -> (record: QueueItem)
        ensures
            record.shows(bundle),
    {
        QueueItem {
            id: to_vec(&bundle.id),
            own: bundle.own,
            to: optional_to_vec(&bundle.to),
            priority: bundle.priority,
            hops: bundle.hops,
        }
    }
}

} // verus!
