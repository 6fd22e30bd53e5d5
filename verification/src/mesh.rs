//! The mesh core's side of the surface, as plain values: what a node is told and what it hands out.
use vstd::prelude::*;

verus! {

/// Which side of a secure handshake a node plays on a link.
#[derive(Clone, Copy, Debug, PartialEq, Eq, Structural)]
pub enum Role {
    Initiator,
    Responder,
}

/// Something that happened on a bearer link.
#[derive(Debug)]
pub enum BearerEvent {
    Connected(u64, Role),
    Disconnected(u64),
    Data(u64, Vec<u8>),
}

/// Where a node's identity comes from.
#[derive(Clone, Copy, Debug)]
pub enum IdentitySource {
    /// Restored from this saved secret.
    Saved([u8; 32]),
    /// Generated anew.
    Fresh,
}

/// What sort of node answered an identity request.
#[derive(Clone, Copy, Debug, PartialEq, Eq, Structural)]
pub enum NodeKind {
    Device,
    Relay,
    Gateway,
    Endpoint,
}

/// A node's answer to an identity request.
#[derive(Debug)]
pub struct IdentityRecord {
    pub address: [u8; 32],
    pub name: Option<String>,
    pub kind: NodeKind,
}

/// What an advert found on the mesh announces.
#[derive(Debug)]
pub enum AdvertKind {
    Service { service: String, title: String, summary: String, tags: Vec<String> },
    Other,
}

/// An advert found on the mesh.
#[derive(Debug)]
pub struct Advert {
    pub publisher: [u8; 32],
    pub kind: AdvertKind,
    pub hops: u8,
    pub created_at: u64,
}

/// An entry of the relay queue. `to` is `None` for internet egress.
#[derive(Debug)]
pub struct QueuedBundle {
    pub id: [u8; 32],
    pub own: bool,
    pub to: Option<[u8; 32]>,
    pub priority: u8,
    pub hops: u8,
}

/// A decrypted message.
#[derive(Debug)]
pub struct Message {
    pub from: [u8; 32],
    pub content_type: String,
    pub body: Vec<u8>,
}

/// One forwarder of a bundle: its short address and the short form of the app that carried it.
#[derive(Clone, Copy, Debug)]
pub struct TraceHop {
    pub node: [u8; 8],
    pub app: [u8; 8],
}

/// A bundle from the inbox. `read` is what came of decrypting it: a message, `Ok(None)` for a
/// bundle that carries none, or an error.
#[derive(Debug)]
pub struct InboxBundle {
    pub hops: u8,
    pub created_at: u64,
    pub trace: Vec<TraceHop>,
    pub read: Result<Option<Message>, String>,
}

/// How a name lookup started. `Cached(None)` is a cached negative.
#[derive(Debug)]
pub enum HnsLookup {
    Cached(Option<[u8; 32]>),
    Pending,
    NeedsResolver,
}

/// A finished name lookup; no address if the domain served no valid reach record.
#[derive(Debug)]
pub struct HnsResolution {
    pub domain: String,
    pub address: Option<[u8; 32]>,
}

/// What a verified reach record claims.
#[derive(Debug)]
pub struct ReachClaim {
    pub address: [u8; 32],
    pub endpoint: String,
    pub issued_at: u64,
    pub ttl_secs: u32,
}

/// An HTTP request addressed to this node as a gateway.
#[derive(Debug)]
pub struct HttpRequest {
    pub from: [u8; 32],
    pub id: [u8; 32],
    pub host: String,
    pub method: String,
    pub url: String,
    pub body: Vec<u8>,
    pub max_resp: u32,
}

/// An HTTP response sealed back to this node.
#[derive(Debug)]
pub struct HttpResponse {
    pub from: [u8; 32],
    pub for_id: [u8; 32],
    pub status: u16,
    pub headers: Vec<(String, String)>,
    pub body: Vec<u8>,
}

/// A service request addressed to this node.
#[derive(Debug)]
pub struct ServiceRequest {
    pub from: [u8; 32],
    pub id: [u8; 32],
    pub service: String,
    pub method: String,
    pub args: Vec<u8>,
}

/// A service response sealed back to this node.
#[derive(Debug)]
pub struct ServiceResponse {
    pub from: [u8; 32],
    pub for_id: [u8; 32],
    pub status: u16,
    pub body: Vec<u8>,
}

/// The kind of a pub/sub topic.
#[derive(Clone, Copy, Debug, PartialEq, Eq, Structural)]
pub enum ServiceKind {
    Channel,
    Service,
}

/// Who gets a topic's keys.
#[derive(Clone, Copy, Debug, PartialEq, Eq, Structural)]
pub enum AccessMode {
    Open,
    RequestToJoin,
    Invite,
}

/// Whether a topic is advertised.
#[derive(Clone, Copy, Debug, PartialEq, Eq, Structural)]
pub enum Visibility {
    Private,
    Discoverable,
}

/// An invite to a topic.
#[derive(Debug)]
pub struct TopicInvite {
    pub path: String,
    pub host: [u8; 32],
    pub kind: ServiceKind,
}

/// A topic that this node hosts or follows.
#[derive(Debug)]
pub struct OwnTopic {
    pub host: [u8; 32],
    pub path: String,
    pub kind: ServiceKind,
    pub hosting: bool,
    pub access: AccessMode,
}

/// What a discoverable topic announces of itself.
#[derive(Debug)]
pub struct TopicMeta {
    pub path: String,
    pub kind: ServiceKind,
    pub title: String,
    pub summary: String,
    pub access: AccessMode,
}

/// A message published to a topic.
#[derive(Debug)]
pub struct TopicMessage {
    pub path: String,
    pub sender: [u8; 32],
    pub body: Vec<u8>,
}

} // verus!
