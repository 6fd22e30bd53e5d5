//! Pub/sub topics as a host sees them, and the mesh core's words for their settings.
use vstd::prelude::*;

use crate::bytes::to_vec;
use crate::mesh::{
    AccessMode, OwnTopic, ServiceKind, TopicInvite, TopicMessage, TopicMeta, Visibility,
};

verus! {

/// The kind of `hps://` topic hosted at a path.
#[derive(Clone, Copy, Debug, PartialEq, Eq, Structural)]
pub enum HpsKind {
    /// Anyone with the content key reads AND writes; each post signed by its writer.
    Channel,
    /// Only the owner broadcasts (signed by the service key); subscribers read.
    Service,
}

/// Who may obtain a topic's keys.
#[derive(Clone, Copy, Debug, PartialEq, Eq, Structural)]
pub enum HpsAccess {
    /// Keys handed to anyone who asks (anonymous membership).
    Open,
    /// Requester asks; the host approves before keys are handed off.
    RequestToJoin,
    /// Host invites a destination; the destination accepts, then receives keys.
    Invite,
}

/// Whether a topic announces itself for discovery.
#[derive(Clone, Copy, Debug, PartialEq, Eq, Structural)]
pub enum HpsVisibility {
    /// Reachable only by known address and path or an invite.
    Private,
    /// Host broadcasts an (app-encrypted) discovery advert so same-app peers can browse it.
    Discoverable,
}

/// The mesh core's word for a kind.
pub open spec fn core_kind(k: HpsKind) -> ServiceKind {
    match k {
        HpsKind::Channel => ServiceKind::Channel,
        HpsKind::Service => ServiceKind::Service,
    }
}

/// The mesh core's word for an access mode.
pub open spec fn core_access(a: HpsAccess) -> AccessMode {
    match a {
        HpsAccess::Open => AccessMode::Open,
        HpsAccess::RequestToJoin => AccessMode::RequestToJoin,
        HpsAccess::Invite => AccessMode::Invite,
    }
}

/// The mesh core's word for a visibility.
pub open spec fn core_visibility(v: HpsVisibility) -> Visibility {
    match v {
        HpsVisibility::Private => Visibility::Private,
        HpsVisibility::Discoverable => Visibility::Discoverable,
    }
}

pub fn kind_to_core(k: &HpsKind) -> (kind: ServiceKind)
    ensures
        kind == core_kind(*k),
        kind is Channel <==> *k is Channel,
        kind is Service <==> *k is Service,
{
    match k {
        HpsKind::Channel => ServiceKind::Channel,
        HpsKind::Service => ServiceKind::Service,
    }
}

pub fn kind_from_core(k: ServiceKind) -> (kind: HpsKind)
    ensures
        core_kind(kind) == k,
        kind is Channel <==> k is Channel,
        kind is Service <==> k is Service,
{
    match k {
        ServiceKind::Channel => HpsKind::Channel,
        ServiceKind::Service => HpsKind::Service,
    }
}

pub fn access_to_core(a: &HpsAccess) -> (access: AccessMode)
    ensures
        access == core_access(*a),
        access is Open <==> *a is Open,
        access is RequestToJoin <==> *a is RequestToJoin,
        access is Invite <==> *a is Invite,
{
    match a {
        HpsAccess::Open => AccessMode::Open,
        HpsAccess::RequestToJoin => AccessMode::RequestToJoin,
        HpsAccess::Invite => AccessMode::Invite,
    }
}

pub fn access_from_core(a: AccessMode) -> (access: HpsAccess)
    ensures
        core_access(access) == a,
        access is Open <==> a is Open,
        access is RequestToJoin <==> a is RequestToJoin,
        access is Invite <==> a is Invite,
{
    match a {
        AccessMode::Open => HpsAccess::Open,
        AccessMode::RequestToJoin => HpsAccess::RequestToJoin,
        AccessMode::Invite => HpsAccess::Invite,
    }
}

pub fn vis_to_core(v: &HpsVisibility) -> (visibility: Visibility)
    ensures
        visibility == core_visibility(*v),
        visibility is Private <==> *v is Private,
        visibility is Discoverable <==> *v is Discoverable,
{
    match v {
        HpsVisibility::Private => Visibility::Private,
        HpsVisibility::Discoverable => Visibility::Discoverable,
    }
}

/// The mesh core tells any two kinds, access modes and visibilities apart, so nothing is lost on
/// the way there and back.
pub proof fn law_core_words_are_faithful(
    k: HpsKind,
    l: HpsKind,
    a: HpsAccess,
    b: HpsAccess,
    v: HpsVisibility,
    w: HpsVisibility,
)
    ensures
        core_kind(k) == core_kind(l) ==> k == l,
        core_access(a) == core_access(b) ==> a == b,
        core_visibility(v) == core_visibility(w) ==> v == w,
{
}

/// A received `hps://` message, after decryption and sender verification.
#[derive(Debug)]
pub struct HpsMessage {
    pub path: String,
    /// The verified sender's address (for a channel, the writer; for a service, the host).
    pub sender: Vec<u8>,
    pub body: Vec<u8>,
}

impl HpsMessage {
    pub open spec fn shows(self, message: TopicMessage) -> bool {
        &&& self.path@ == message.path@
        &&& self.sender@ == message.sender@
        &&& self.body@ == message.body@
    }

    pub fn of(message: TopicMessage) -> (record: HpsMessage)
        ensures
            record.shows(message),
    {
        let TopicMessage { path, sender, body } = message;
        HpsMessage { path, sender: to_vec(&sender), body }
    }
}

/// An invite we (member) received and may accept.
#[derive(Debug)]
pub struct HpsInvite {
    pub path: String,
    pub host: Vec<u8>,
    pub kind: HpsKind,
}

impl HpsInvite {
    pub open spec fn shows(self, invite: TopicInvite) -> bool {
        &&& self.path@ == invite.path@
        &&& self.host@ == invite.host@
        &&& core_kind(self.kind) == invite.kind
    }

    pub fn of(invite: TopicInvite) -> (record: HpsInvite)
        ensures
            record.shows(invite),
    {
        let TopicInvite { path, host, kind } = invite;
        HpsInvite { path, host: to_vec(&host), kind: kind_from_core(kind) }
    }
}

/// A discoverable topic surfaced by `browse_discoverable` (same-app only).
#[derive(Debug)]
pub struct HpsTopicInfo {
    pub host: Vec<u8>,
    pub path: String,
    pub kind: HpsKind,
    pub title: String,
    pub summary: String,
    pub access: HpsAccess,
}

impl HpsTopicInfo {
    /// A topic is found as its host's address and what it announces of itself.
    pub open spec fn shows(self, topic: ([u8; 32], TopicMeta)) -> bool {
        &&& self.host@ == topic.0@
        &&& self.path@ == topic.1.path@
        &&& core_kind(self.kind) == topic.1.kind
        &&& self.title@ == topic.1.title@
        &&& self.summary@ == topic.1.summary@
        &&& core_access(self.access) == topic.1.access
    }

    pub fn of(topic: ([u8; 32], TopicMeta)) -> (record: HpsTopicInfo)
        ensures
            record.shows(topic),
    {
        let (host, meta) = topic;
        let TopicMeta { path, kind, title, summary, access } = meta;
        HpsTopicInfo {
            host: to_vec(&host),
            path,
            kind: kind_from_core(kind),
            title,
            summary,
            access: access_from_core(access),
        }
    }
}

/// A topic we host or follow, for rebuilding the app's channel list after a restart.
#[derive(Debug)]
pub struct HpsMyTopic {
    pub host: Vec<u8>,
    pub path: String,
    pub kind: HpsKind,
    pub hosting: bool,
    pub access: HpsAccess,
}

impl HpsMyTopic {
    pub open spec fn shows(self, topic: OwnTopic) -> bool {
        &&& self.host@ == topic.host@
        &&& self.path@ == topic.path@
        &&& core_kind(self.kind) == topic.kind
        &&& self.hosting == topic.hosting
        &&& core_access(self.access) == topic.access
    }

    pub fn of(topic: OwnTopic) -> (record: HpsMyTopic)
        ensures
            record.shows(topic),
    {
        let OwnTopic { host, path, kind, hosting, access } = topic;
        HpsMyTopic {
            host: to_vec(&host),
            path,
            kind: kind_from_core(kind),
            hosting,
            access: access_from_core(access),
        }
    }
}

} // verus!
