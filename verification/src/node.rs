//! A node the host drives: opening it, its identity, and the bearer seam.
//!
//! The mesh core itself lives with the host. A method here looks at the host's arguments and says
//! what to ask the core, or takes what the core handed out and says what the host is told.
use vstd::prelude::*;

use crate::bytes::{count32, is_key, to32, to_vec};
use crate::mesh::{BearerEvent, IdentitySource, Role};
use crate::records::{text_or_empty, OutPacket, PeerLink};
use crate::step::Step;
use crate::store_open::{open_store_persistent, Opening, Phase, StoreOpen};
use crate::vecs::map_vec;

verus! {

/// What the library at hand was built with.
#[derive(Clone, Copy, Debug)]
pub struct Build {
    /// The full build persists to disk; the embedded build has an in-memory store only.
    pub full: bool,
    /// The store can encrypt at rest.
    pub sqlcipher: bool,
}

/// How to make a node.
pub struct OpenPlan {
    pub identity: IdentitySource,
    /// The secret of the app whose topics the node belongs to; `None` stays on the open shared
    /// fabric.
    pub app_secret: Option<[u8; 32]>,
    /// The opening of the persistent store; `None` runs on a fresh in-memory store.
    pub store: Option<StoreOpen>,
}

/// `source` is the identity that the saved bytes `secret` stand for: theirs if they are a key, a
/// fresh one if they are not.
pub open spec fn is_identity_of(source: IdentitySource, secret: Seq<u8>) -> bool {
    match source {
        IdentitySource::Saved(key) => is_key(secret) && key@ == secret,
        IdentitySource::Fresh => !is_key(secret),
    }
}

/// `key` is `bytes` if they are a key, and nothing if they are not.
pub open spec fn is_optional_key(key: Option<[u8; 32]>, bytes: Seq<u8>) -> bool {
    match key {
        Some(k) => is_key(bytes) && k@ == bytes,
        None => !is_key(bytes),
    }
}

/// `plan` opens the store at `path` under `key`, for the identity that `secret` and the app that
/// `app_secret` stand for. On the embedded build it has no store to open.
pub open spec fn is_open_plan(
    plan: OpenPlan,
    path: Seq<char>,
    secret: Seq<u8>,
    app_secret: Seq<u8>,
    key: Seq<u8>,
    build: Build,
) -> bool {
    &&& is_identity_of(plan.identity, secret)
    &&& is_optional_key(plan.app_secret, app_secret)
    &&& plan.store is Some <==> build.full
    &&& plan.store matches Some(opening) ==> opening@ == (Opening {
        path,
        key,
        sqlcipher: build.sqlcipher,
        phase: Phase::Open,
    })
}

/// Build an identity from saved secret bytes, or a fresh one if absent/invalid.
pub fn identity_from(secret: &[u8]) -> (source: IdentitySource)
    ensures
        is_identity_of(source, secret@),
{
    match to32(secret) {
        Ok(key) => IdentitySource::Saved(key),
        Err(_) => IdentitySource::Fresh,
    }
}

/// Take `bytes` as a key if they are one.
pub fn optional_key(bytes: &[u8]) -> (key: Option<[u8; 32]>)
    ensures
        is_optional_key(key, bytes@),
{
    match to32(bytes) {
        Ok(key) => Some(key),
        Err(_) => None,
    }
}

/// A question for the core about an address.
#[derive(Clone, Copy, Debug)]
pub enum PeerQuestion {
    /// Whether there is a ratchet session with it.
    HasSession([u8; 32]),
    /// Whether a live route towards it was learned.
    KnowsRoute([u8; 32]),
}

/// A running Hop node the host drives.
pub struct HopNode {
    persistent: bool,
    rehydrate_dropped: u32,
}

/// The model of a `HopNode`.
pub struct NodeState {
    /// The node has durable storage.
    pub persistent: bool,
    /// How many persisted records failed to decode on startup.
    pub rehydrate_dropped: u32,
}

impl View for HopNode {
    type V = NodeState;

    closed spec fn view(&self) -> NodeState {
        NodeState { persistent: self.persistent, rehydrate_dropped: self.rehydrate_dropped }
    }
}

impl OpenPlan {
    /// What the plan says of persistence: `Some(false)` on an in-memory store, and otherwise how
    /// the opening of the persistent one ended; `None` while that goes on.
    pub open spec fn persistence(self) -> Option<bool> {
        match self.store {
            None => Some(false),
            Some(opening) => match opening@.phase {
                Phase::Done { persistent } => Some(persistent),
                _ => None,
            },
        }
    }

    /// The node that the plan makes of a store that was opened and lost `dropped` records.
    pub open spec fn made(self, dropped: u32) -> Option<NodeState> {
        match self.persistence() {
            Some(persistent) => Some(
                NodeState {
                    persistent,
                    rehydrate_dropped: if self.store is Some {
                        dropped
                    } else {
                        0
                    },
                },
            ),
            None => None,
        }
    }

    /// The node that the plan made, once its store is open. `dropped` is how many persisted records
    /// failed to decode on startup; a node that never had a persistent store to read has none.
    /// `None` while the store is not open yet.
    pub fn opened(&self, dropped: u32) -> (node: Option<HopNode>)
        ensures
            node is Some <==> self.made(dropped) is Some,
            node matches Some(n) ==> Some(n@) == self.made(dropped),
            node is Some <==> self.persistence() is Some,
            node matches Some(n) ==> n@ == (NodeState {
                persistent: self.persistence()->0,
                rehydrate_dropped: if self.store is Some {
                    dropped
                } else {
                    0
                },
            }),
    {
        match &self.store {
            None => Some(HopNode { persistent: false, rehydrate_dropped: 0 }),
            Some(opening) => match opening.verdict() {
                Some(persistent) => Some(HopNode { persistent, rehydrate_dropped: dropped }),
                None => None,
            },
        }
    }
}

impl HopNode {
    /// Create a node with a fresh identity and ephemeral in-memory storage.
    pub fn new() -> (plan: OpenPlan)
        ensures
            plan.identity == IdentitySource::Fresh,
            plan.app_secret is None,
            plan.store is None,
    {
        OpenPlan { identity: IdentitySource::Fresh, app_secret: None, store: None }
    }

    /// Restore a node from a saved identity secret with ephemeral storage. Pass empty/invalid bytes
    /// to get a fresh identity.
    pub fn with_secret(secret: Vec<u8>) -> (plan: OpenPlan)
        ensures
            is_identity_of(plan.identity, secret@),
            plan.app_secret is None,
            plan.store is None,
    {
        OpenPlan { identity: identity_from(secret.as_slice()), app_secret: None, store: None }
    }

    /// Open a node with persistent storage at `db_path` (messages survive restarts), a saved
    /// identity secret, and a 32-byte app secret that isolates this app's `hps://` channels and
    /// services from other apps. Pass empty/short app-secret bytes to stay on the open shared
    /// fabric. If the path can't be opened it is quarantined and reopened fresh; only if that also
    /// fails does it run ephemeral, and then `is_persistent` is false so the host can tell.
    pub fn open(
        db_path: String,
        secret: Vec<u8>,
        app_secret: Vec<u8>,
        build: Build,
    ) -> (plan: OpenPlan)
        ensures
            is_open_plan(plan, db_path@, secret@, app_secret@, Seq::empty(), build),
    {
        let key: Vec<u8> = Vec::new();
        HopNode::open_keyed(db_path, secret, app_secret, key, build)
    }

    /// Like `open`, but encrypts the store at rest with a raw 32-byte `key` the host derives and
    /// keeps. Real encryption requires a store that can; without it the key is accepted but the
    /// database stays plain. An empty key behaves exactly like `open`.
    ///
    /// On the embedded build there is no persistent store, so `db_path` and `key` are accepted but
    /// the node runs in memory, and `is_persistent` reports false.
    pub fn open_keyed(
        db_path: String,
        secret: Vec<u8>,
        app_secret: Vec<u8>,
        key: Vec<u8>,
        build: Build,
    ) -> (plan: OpenPlan)
        ensures
            is_open_plan(plan, db_path@, secret@, app_secret@, key@, build),
    {
        OpenPlan {
            identity: identity_from(secret.as_slice()),
            app_secret: optional_key(app_secret.as_slice()),
            store: if build.full {
                Some(open_store_persistent(db_path, key, build.sqlcipher))
            } else {
                None
            },
        }
    }

    /// Whether this node has durable storage. `false` means the db path was unusable and state will
    /// not survive a restart; the host should surface a warning rather than assume the database is
    /// the ground truth.
    pub fn is_persistent(&self) -> (yes: bool)
        ensures
            yes == self@.persistent,
    {
        self.persistent
    }

    /// How many persisted records failed to decode on startup. Non-zero means an upgrade changed a
    /// record's layout on disk and dropped that state; the host should tell the user instead of it
    /// vanishing silently.
    pub fn rehydrate_dropped(&self) -> (count: u32)
        ensures
            count == self@.rehydrate_dropped,
    {
        self.rehydrate_dropped
    }

    /// This node's identity secret, to persist. Takes the core's.
    pub fn secret(&self, secret: [u8; 32]) -> (bytes: Vec<u8>)
        ensures
            bytes@ == secret@,
    {
        to_vec(&secret)
    }

    /// This node's hop address (Ed25519 public key). Takes the core's.
    pub fn address(&self, address: [u8; 32]) -> (bytes: Vec<u8>)
        ensures
            bytes@ == address@,
    {
        to_vec(&address)
    }

    /// Set this node's display name. Pass an empty string to clear it. Gives the name to set in the
    /// core.
    pub fn set_name(&self, name: String) -> (set: Option<String>)
        ensures
            is_name_setting(set, name@),
    {
        if name.as_str().is_empty() {
            None
        } else {
            Some(name)
        }
    }

    /// This node's display name (empty string if unset). Takes the core's.
    pub fn name(&self, name: Option<String>) -> (text: String)
        ensures
            text@ == text_or_empty(name),
    {
        match name {
            Some(n) => n,
            None => String::new(),
        }
    }

    /// A bearer connection came up; `initiator` = we dialed it (BLE central). Gives the event for
    /// the core.
    pub fn connected(&self, link: u64, initiator: bool) -> (event: BearerEvent)
        ensures
            is_link_up(event, link, initiator),
            event == BearerEvent::Connected(
                link,
                if initiator {
                    Role::Initiator
                } else {
                    Role::Responder
                },
            ),
    {
        let role = if initiator {
            Role::Initiator
        } else {
            Role::Responder
        };
        BearerEvent::Connected(link, role)
    }

    /// A bearer connection dropped. Gives the event for the core.
    pub fn disconnected(&self, link: u64) -> (event: BearerEvent)
        ensures
            is_link_down(event, link),
            event == BearerEvent::Disconnected(link),
    {
        BearerEvent::Disconnected(link)
    }

    /// Bytes arrived on a connection. Gives the event for the core.
    pub fn received(&self, link: u64, bytes: Vec<u8>) -> (event: BearerEvent)
        ensures
            is_arrival(event, link, bytes@),
            event == BearerEvent::Data(link, bytes),
    {
        BearerEvent::Data(link, bytes)
    }

    /// Bytes the host must send over the bearer. Takes what the core drained.
    pub fn drain_outgoing(&self, packets: Vec<(u64, Vec<u8>)>) -> (out: Vec<OutPacket>)
        ensures
            out@.len() == packets@.len(),
            forall|i: int| 0 <= i < out@.len() ==> (#[trigger] out@[i]).shows(packets@[i]),
    {
        map_vec(packets, OutPacket::of)
    }

    /// Addresses of currently-connected, authenticated peers. Takes the core's.
    pub fn peers(&self, peers: Vec<[u8; 32]>) -> (addresses: Vec<Vec<u8>>)
        ensures
            addresses@.len() == peers@.len(),
            forall|i: int| 0 <= i < peers@.len() ==> (#[trigger] addresses@[i])@ == peers@[i]@,
    {
        keys_to_vecs(peers)
    }

    /// Live links `(address, link id)`; the host maps link ids to transports to show the route to
    /// each direct neighbour. Takes the core's.
    pub fn peer_links(&self, links: Vec<([u8; 32], u64)>) -> (records: Vec<PeerLink>)
        ensures
            records@.len() == links@.len(),
            forall|i: int| 0 <= i < records@.len() ==> (#[trigger] records@[i]).shows(links@[i]),
    {
        map_vec(links, PeerLink::of)
    }

    /// Whether messaging `address` is forward-secret (a ratchet session exists) rather than
    /// static-sealed. Anything but an address is not; of an address the core is asked,
    /// and `is_secured_reply` tells its reply.
    pub fn is_secured(&self, address: Vec<u8>) -> (step: Step<PeerQuestion, bool>)
        ensures
            match step {
                Step::Ask(PeerQuestion::HasSession(a)) => is_key(address@) && a@ == address@,
                Step::Ask(_) => false,
                Step::Answer(secured) => !is_key(address@) && !secured,
            },
    {
        match to32(address.as_slice()) {
            Ok(a) => Step::Ask(PeerQuestion::HasSession(a)),
            Err(_) => Step::Answer(false),
        }
    }

    /// It is exactly if the core has a session with it.
    pub fn is_secured_reply(&self, has_session: bool) -> (secured: bool)
        ensures
            secured == has_session,
    {
        has_session
    }

    /// Whether this node has learned a live route toward `address` from observed deliveries.
    /// Towards anything but an address it has none; of an address the core is asked, and
    /// `knows_route_reply` tells its reply.
    pub fn knows_route(&self, address: Vec<u8>) -> (step: Step<PeerQuestion, bool>)
        ensures
            match step {
                Step::Ask(PeerQuestion::KnowsRoute(a)) => is_key(address@) && a@ == address@,
                Step::Ask(_) => false,
                Step::Answer(known) => !is_key(address@) && !known,
            },
    {
        match to32(address.as_slice()) {
            Ok(a) => Step::Ask(PeerQuestion::KnowsRoute(a)),
            Err(_) => Step::Answer(false),
        }
    }

    /// It has exactly if the core knows one.
    pub fn knows_route_reply(&self, knows_route: bool) -> (known: bool)
        ensures
            known == knows_route,
    {
        knows_route
    }

    /// Live replica count (self and peers within the membership TTL); 1 if not clustered. Takes the
    /// core's.
    pub fn cluster_members(&self, members: usize) -> (count: u32)
        ensures
            count == members as int % 0x1_0000_0000,
    {
        count32(members)
    }
}

/// `event` says that `link` came up, and who dialed it.
pub open spec fn is_link_up(event: BearerEvent, link: u64, dialed: bool) -> bool {
    event == BearerEvent::Connected(
        link,
        if dialed {
            Role::Initiator
        } else {
            Role::Responder
        },
    )
}

/// `event` says that `bytes` arrived on `link`.
pub open spec fn is_arrival(event: BearerEvent, link: u64, bytes: Seq<u8>) -> bool {
    event matches BearerEvent::Data(l, b) && l == link && b@ == bytes
}

/// `event` says that `link` went down.
pub open spec fn is_link_down(event: BearerEvent, link: u64) -> bool {
    event == BearerEvent::Disconnected(link)
}

/// `set` sets the display name `name`; an empty name clears it.
pub open spec fn is_name_setting(set: Option<String>, name: Seq<char>) -> bool {
    match set {
        Some(n) => name.len() > 0 && n@ == name,
        None => name.len() == 0,
    }
}

/// The core is asked of `key` if it is one; otherwise the answer is `otherwise`.
pub open spec fn asks_of_key<T>(step: Step<[u8; 32], T>, key: Seq<u8>, otherwise: T) -> bool {
    match step {
        Step::Ask(k) => is_key(key) && k@ == key,
        Step::Answer(t) => !is_key(key) && t == otherwise,
    }
}

fn key_to_vec(key: [u8; 32]) -> (bytes: Vec<u8>)
    ensures
        bytes@ == key@,
{
    to_vec(&key)
}

/// The bytes of every key, in order.
pub fn keys_to_vecs(keys: Vec<[u8; 32]>) -> (vecs: Vec<Vec<u8>>)
    ensures
        vecs@.len() == keys@.len(),
        forall|i: int| 0 <= i < keys@.len() ==> (#[trigger] vecs@[i])@ == keys@[i]@,
{
    map_vec(keys, key_to_vec)
}

/// The 8-byte short form of a full address: what trace hops carry, so the app can index its known
/// addresses by this and resolve trace hops to display names. Anything but an address has none; of
/// an address the core is asked.
pub fn short_address(address: Vec<u8>) -> (step: Step<[u8; 32], Vec<u8>>)
    ensures
        match step {
            Step::Ask(a) => is_key(address@) && a@ == address@,
            Step::Answer(short) => !is_key(address@) && short@.len() == 0,
        },
{
    match to32(address.as_slice()) {
        Ok(a) => Step::Ask(a),
        Err(_) => Step::Answer(Vec::new()),
    }
}

/// The core's short form of an address, for the host.
pub fn short_address_reply(short: [u8; 8]) -> (bytes: Vec<u8>)
    ensures
        bytes@ == short@,
{
    to_vec(&short)
}

} // verus!
