//! `hps://` pub/sub: hosting topics, joining them, and what comes out of them.
use vstd::prelude::*;

use crate::bytes::{count32, is_key, optional_bytes, optional_to_vec, to32};
use crate::error::FfiError;
use crate::hps::{
    access_to_core, core_access, core_kind, core_visibility, kind_to_core, vis_to_core, HpsAccess,
    HpsInvite, HpsKind, HpsMessage, HpsMyTopic, HpsTopicInfo, HpsVisibility,
};
use crate::mesh::{
    AccessMode, OwnTopic, ServiceKind, TopicInvite, TopicMessage, TopicMeta, Visibility,
};
use crate::node::{keys_to_vecs, HopNode};
use crate::reply::{
    id_reply, ids_reply, optional_id_reply, tells_id, tells_ids, tells_optional_id,
};
use crate::text::{is_blank, is_blank_text};
use crate::vecs::map_vec;

verus! {

/// A topic for the core to register.
pub struct RegisterCall {
    pub path: String,
    pub kind: ServiceKind,
    pub access: AccessMode,
    pub visibility: Visibility,
}

impl RegisterCall {
    pub open spec fn registers(
        self,
        path: Seq<char>,
        kind: HpsKind,
        access: HpsAccess,
        visibility: HpsVisibility,
    ) -> bool {
        &&& self.path@ == path
        &&& self.kind == core_kind(kind)
        &&& self.access == core_access(access)
        &&& self.visibility == core_visibility(visibility)
    }
}

/// What to send about a topic to a peer.
#[derive(Clone, Copy, Debug, PartialEq, Eq, Structural)]
pub enum TopicDeed {
    /// Invite the peer to the topic, which we host.
    Invite,
    /// Accept the peer's invite to the topic.
    AcceptInvite,
    /// Seal the topic's keys to the peer, who asked for them.
    Approve,
    /// Ask the peer, who hosts the topic, for its keys.
    Subscribe,
}

/// Something for the core to send about a topic to a peer.
pub struct TopicCall {
    pub deed: TopicDeed,
    pub path: String,
    pub peer: [u8; 32],
}

/// What becomes of sending something about a topic to a peer: the core is asked to do it, exactly if
/// `peer` is an address.
pub open spec fn is_topic_call(
    call: Result<TopicCall, FfiError>,
    deed: TopicDeed,
    path: Seq<char>,
    peer: Seq<u8>,
) -> bool {
    match call {
        Ok(c) => is_key(peer) && c.deed == deed && c.path@ == path && c.peer@ == peer,
        Err(e) => !is_key(peer) && e == FfiError::BadKey,
    }
}

fn topic_call(deed: TopicDeed, path: String, peer: Vec<u8>) -> (call: Result<TopicCall, FfiError>)
    ensures
        is_topic_call(call, deed, path@, peer@),
{
    match to32(peer.as_slice()) {
        Ok(peer) => Ok(TopicCall { deed, path, peer }),
        Err(e) => Err(e),
    }
}

/// What of a topic's to drop.
#[derive(Clone, Copy, Debug, PartialEq, Eq, Structural)]
pub enum Dropped {
    /// The peer's invite to the topic.
    Invite,
    /// The peer's request for the topic's keys.
    Request,
}

/// Something of a topic's and a peer's for the core to drop.
pub struct DropCall {
    pub dropped: Dropped,
    pub path: String,
    pub peer: [u8; 32],
}

/// What becomes of dropping something of a topic's and a peer's: the core is asked to do it, exactly
/// if `peer` is an address.
pub open spec fn is_drop_call(
    call: Result<DropCall, FfiError>,
    dropped: Dropped,
    path: Seq<char>,
    peer: Seq<u8>,
) -> bool {
    match call {
        Ok(c) => is_key(peer) && c.dropped == dropped && c.path@ == path && c.peer@ == peer,
        Err(e) => !is_key(peer) && e == FfiError::BadKey,
    }
}

fn drop_call(dropped: Dropped, path: String, peer: Vec<u8>) -> (call: Result<DropCall, FfiError>)
    ensures
        is_drop_call(call, dropped, path@, peer@),
{
    match to32(peer.as_slice()) {
        Ok(peer) => Ok(DropCall { dropped, path, peer }),
        Err(e) => Err(e),
    }
}

/// A topic for the core to leave.
pub struct LeaveCall {
    pub path: String,
}

/// Something for the core to publish to a topic.
pub struct PostCall {
    pub path: String,
    pub body: Vec<u8>,
}

impl PostCall {
    pub open spec fn posts(self, path: Seq<char>, body: Seq<u8>) -> bool {
        self.path@ == path && self.body@ == body
    }
}

/// A question for the core about the addresses of the topic at a path.
#[derive(Debug)]
pub enum TopicQuestion {
    /// Who asked to join it.
    Pending(String),
    /// Who its members are.
    Members(String),
}

/// A topic for the core to count the acknowledging addresses of.
pub struct ReachCall {
    pub path: String,
}

/// A rotation of a topic's keys for the core to carry out.
pub struct RekeyCall {
    pub path: String,
    /// `None` keeps the path.
    pub new_path: Option<String>,
    /// The members that get no new key.
    pub remove: Vec<[u8; 32]>,
}

/// What becomes of a rotation: the core is asked to carry it out, exactly if every member to remove
/// is named by an address.
pub open spec fn is_rekey_call(
    call: Result<RekeyCall, FfiError>,
    path: Seq<char>,
    new_path: Seq<char>,
    remove: Seq<Vec<u8>>,
) -> bool {
    match call {
        Ok(c) => {
            &&& are_keys(remove)
            &&& c.path@ == path
            &&& c.new_path is None <==> is_blank_text(new_path)
            &&& c.new_path matches Some(p) ==> p@ == new_path
            &&& are_keys_of(c.remove@, remove)
        },
        Err(e) => !are_keys(remove) && e == FfiError::BadKey,
    }
}

/// Every entry is an address.
pub open spec fn are_keys(addresses: Seq<Vec<u8>>) -> bool {
    forall|i: int| 0 <= i < addresses.len() ==> is_key((#[trigger] addresses[i])@)
}

/// `keys` are the same addresses, in order.
pub open spec fn are_keys_of(keys: Seq<[u8; 32]>, addresses: Seq<Vec<u8>>) -> bool {
    &&& keys.len() == addresses.len()
    &&& forall|i: int| 0 <= i < keys.len() ==> (#[trigger] keys[i])@ == addresses[i]@
}

/// Take every entry as an address; `BadKey` if one of them is not.
pub fn to32_all(addresses: &Vec<Vec<u8>>) -> (keys: Result<Vec<[u8; 32]>, FfiError>)
    ensures
        match keys {
            Ok(k) => are_keys(addresses@) && are_keys_of(k@, addresses@),
            Err(e) => !are_keys(addresses@) && e == FfiError::BadKey,
        },
{
    let mut keys: Vec<[u8; 32]> = Vec::new();
    for i in 0..addresses.len()
        invariant
            are_keys(addresses@.take(i as int)),
            are_keys_of(keys@, addresses@.take(i as int)),
    {
        match to32(addresses[i].as_slice()) {
            Ok(key) => keys.push(key),
            Err(e) => {
                assert(!is_key(addresses@[i as int]@));
                return Err(e);
            },
        }
        assert forall|j: int| 0 <= j < i + 1 implies is_key(
            (#[trigger] addresses@.take(i + 1)[j])@,
        ) by {
            assert(j < i ==> addresses@.take(i + 1)[j] == addresses@.take(i as int)[j]);
        }
    }
    assert(addresses@.take(addresses@.len() as int) =~= addresses@);
    Ok(keys)
}

impl HopNode {
    /// Register (host) an `hps://` topic at `path`, minting and persisting its keys. `access`
    /// governs key handoff and `visibility` whether it is advertised for discovery. Gives the topic
    /// for the core to register; `register_service_reply` tells the outcome.
    pub fn register_service(
        &self,
        path: String,
        kind: HpsKind,
        access: HpsAccess,
        visibility: HpsVisibility,
    ) -> (call: RegisterCall)
        ensures
            call.registers(path@, kind, access, visibility),
            call.path@ == path@,
            call.kind == core_kind(kind),
            call.access == core_access(access),
            call.visibility == core_visibility(visibility),
            call.kind is Channel <==> kind is Channel,
            call.kind is Service <==> kind is Service,
            call.access is Open <==> access is Open,
            call.access is RequestToJoin <==> access is RequestToJoin,
            call.access is Invite <==> access is Invite,
            call.visibility is Private <==> visibility is Private,
            call.visibility is Discoverable <==> visibility is Discoverable,
    {
        RegisterCall {
            path,
            kind: kind_to_core(&kind),
            access: access_to_core(&access),
            visibility: vis_to_core(&visibility),
        }
    }

    /// The service's public key for a `Service`, or empty for a `Channel`, which has none.
    pub fn register_service_reply(&self, key: Option<[u8; 32]>) -> (bytes: Vec<u8>)
        ensures
            bytes@ == optional_bytes(key),
            key matches Some(k) ==> bytes@ == k@,
            key is None ==> bytes@.len() == 0,
    {
        optional_to_vec(&key)
    }

    /// Host to destination: invite an address to a topic we host (Invite mode). Gives what to ask
    /// of the core, whose reply `hps_reply` tells.
    pub fn hps_invite(&self, path: String, dest: Vec<u8>) -> (call: Result<TopicCall, FfiError>)
        ensures
            is_topic_call(call, TopicDeed::Invite, path@, dest@),
            call is Ok <==> dest@.len() == 32,
            call matches Ok(c) ==> c.deed == TopicDeed::Invite && c.path@ == path@ && c.peer@ == dest@,
            call matches Err(e) ==> e == FfiError::BadKey,
    {
        topic_call(TopicDeed::Invite, path, dest)
    }

    /// Member to host: accept an invite we received; the host then seals us the keys. Gives what to
    /// ask of the core, whose reply `hps_reply` tells.
    pub fn hps_accept_invite(&self, host: Vec<u8>, path: String) -> (call: Result<
        TopicCall,
        FfiError,
    >)
        ensures
            is_topic_call(call, TopicDeed::AcceptInvite, path@, host@),
            call is Ok <==> host@.len() == 32,
            call matches Ok(c) ==> c.deed == TopicDeed::AcceptInvite && c.path@ == path@ && c.peer@ == host@,
            call matches Err(e) ==> e == FfiError::BadKey,
    {
        topic_call(TopicDeed::AcceptInvite, path, host)
    }

    /// Decline a received invite: drops it from durable storage so it won't reappear on restart.
    /// Gives what to ask of the core; `hps_dropped` is the answer once it is done.
    pub fn hps_decline_invite(&self, host: Vec<u8>, path: String) -> (call: Result<
        DropCall,
        FfiError,
    >)
        ensures
            is_drop_call(call, Dropped::Invite, path@, host@),
            call is Ok <==> host@.len() == 32,
            call matches Ok(c) ==> c.dropped == Dropped::Invite && c.path@ == path@ && c.peer@ == host@,
            call matches Err(e) ==> e == FfiError::BadKey,
    {
        drop_call(Dropped::Invite, path, host)
    }

    /// Host: approve a pending requester, sealing them the keys. Gives what to ask of the core,
    /// whose reply `hps_reply` tells.
    pub fn hps_approve(&self, path: String, requester: Vec<u8>) -> (call: Result<
        TopicCall,
        FfiError,
    >)
        ensures
            is_topic_call(call, TopicDeed::Approve, path@, requester@),
            call is Ok <==> requester@.len() == 32,
            call matches Ok(c) ==> c.deed == TopicDeed::Approve && c.path@ == path@ && c.peer@ == requester@,
            call matches Err(e) ==> e == FfiError::BadKey,
    {
        topic_call(TopicDeed::Approve, path, requester)
    }

    /// Host: deny/drop a pending requester (no keys). Gives what to ask of the core; `hps_dropped` is
    /// the answer once it is done.
    pub fn hps_deny(&self, path: String, requester: Vec<u8>) -> (call: Result<DropCall, FfiError>)
        ensures
            is_drop_call(call, Dropped::Request, path@, requester@),
            call is Ok <==> requester@.len() == 32,
            call matches Ok(c) ==> c.dropped == Dropped::Request && c.path@ == path@ && c.peer@ == requester@,
            call matches Err(e) ==> e == FfiError::BadKey,
    {
        drop_call(Dropped::Request, path, requester)
    }

    /// Subscribe to `hps://{host}/{path}`: send a sealed request to `host`, which (for an open
    /// topic) replies with the topic keys. Messages then arrive via `take_hps_messages`. Gives what
    /// to ask of the core, whose reply `hps_reply` tells.
    pub fn hps_subscribe(&self, host: Vec<u8>, path: String) -> (call: Result<TopicCall, FfiError>)
        ensures
            is_topic_call(call, TopicDeed::Subscribe, path@, host@),
            call is Ok <==> host@.len() == 32,
            call matches Ok(c) ==> c.deed == TopicDeed::Subscribe && c.path@ == path@ && c.peer@ == host@,
            call matches Err(e) ==> e == FfiError::BadKey,
    {
        topic_call(TopicDeed::Subscribe, path, host)
    }

    /// The id of the bundle that an invite, an acceptance, an approval or a subscription sent, or
    /// why the core refused it.
    pub fn hps_reply(&self, reply: Result<[u8; 32], String>) -> (answer: Result<Vec<u8>, FfiError>)
        ensures
            tells_id(answer, reply),
    {
        id_reply(reply)
    }

    /// The answer to a declined invite and to a denied requester, once the core has dropped it: that
    /// never fails.
    pub fn hps_dropped(&self) -> (answer: Result<(), FfiError>)
        ensures
            answer is Ok,
    {
        Ok(())
    }

    /// Host: selective forward rotation (revocation). Re-keys retained members except `remove`;
    /// removed members keep the dead key. An empty `new_path` keeps the same path, and so does one
    /// of white space alone. Gives the rotation for the core to carry out, whose reply
    /// `hps_rekey_reply` tells.
    pub fn hps_rekey(&self, path: String, new_path: String, remove: Vec<Vec<u8>>) -> (call: Result<
        RekeyCall,
        FfiError,
    >)
        ensures
            is_rekey_call(call, path@, new_path@, remove@),
            match call {
                Ok(c) => {
                    &&& are_keys(remove@)
                    &&& c.path@ == path@
                    &&& c.new_path is None <==> is_blank_text(new_path@)
                    &&& c.new_path matches Some(p) ==> p@ == new_path@
                    &&& are_keys_of(c.remove@, remove@)
                },
                Err(e) => !are_keys(remove@) && e == FfiError::BadKey,
            },
    {
        match to32_all(&remove) {
            Ok(remove) => {
                let new_path = if is_blank(new_path.as_str()) {
                    None
                } else {
                    Some(new_path)
                };
                Ok(RekeyCall { path, new_path, remove })
            },
            Err(e) => Err(e),
        }
    }

    /// The rekey bundle ids, or why the core refused the rotation.
    pub fn hps_rekey_reply(&self, reply: Result<Vec<[u8; 32]>, String>) -> (answer: Result<
        Vec<Vec<u8>>,
        FfiError,
    >)
        ensures
            tells_ids(answer, reply),
            match (answer, reply) {
                (Ok(vecs), Ok(ids)) => {
                    &&& vecs@.len() == ids@.len()
                    &&& forall|i: int| 0 <= i < ids@.len() ==> (#[trigger] vecs@[i])@ == ids@[i]@
                },
                (Err(e), Err(cause)) => e == FfiError::Hop(cause),
                _ => false,
            },
    {
        ids_reply(reply)
    }

    /// Member to host: leave a topic (stop being re-keyed). Gives the topic for the core to leave,
    /// whose reply `hps_leave_reply` tells.
    pub fn hps_leave(&self, path: String) -> (call: LeaveCall)
        ensures
            call.path@ == path@,
    {
        LeaveCall { path }
    }

    /// The leave bundle id, or nothing if there was none to send.
    pub fn hps_leave_reply(&self, reply: Result<Option<[u8; 32]>, String>) -> (answer: Result<
        Vec<u8>,
        FfiError,
    >)
        ensures
            tells_optional_id(answer, reply),
            match (answer, reply) {
                (Ok(bytes), Ok(Some(id))) => bytes@ == id@,
                (Ok(bytes), Ok(None)) => bytes@.len() == 0,
                (Err(e), Err(cause)) => e == FfiError::Hop(cause),
                _ => false,
            },
    {
        optional_id_reply(reply)
    }

    /// Publish to a topic we host or (for a channel) belong to. Floods to all subscribers, signed
    /// by the service key (service) or our own identity (channel). Gives what to publish, and
    /// `hps_publish_reply` tells the core's reply.
    pub fn hps_publish(&self, path: String, body: Vec<u8>) -> (call: PostCall)
        ensures
            call.posts(path@, body@),
            call.path@ == path@,
            call.body@ == body@,
    {
        PostCall { path, body }
    }

    /// The bundle id, or why the core refused to publish.
    pub fn hps_publish_reply(&self, reply: Result<[u8; 32], String>) -> (answer: Result<
        Vec<u8>,
        FfiError,
    >)
        ensures
            tells_id(answer, reply),
    {
        id_reply(reply)
    }

    /// Host: pending join requests for a RequestToJoin topic (each is a requester address). Gives the
    /// question for the core, whose reply `hps_pending_reply` tells.
    pub fn hps_pending(&self, path: String) -> (question: TopicQuestion)
        ensures
            question matches TopicQuestion::Pending(p) && p@ == path@,
    {
        TopicQuestion::Pending(path)
    }

    /// The requesters that the core gave.
    pub fn hps_pending_reply(&self, requesters: Vec<[u8; 32]>) -> (addresses: Vec<Vec<u8>>)
        ensures
            are_keys_of(requesters@, addresses@),
            addresses@.len() == requesters@.len(),
            forall|i: int| 0 <= i < requesters@.len() ==> (#[trigger] addresses@[i])@ == requesters@[i]@,
    {
        keys_to_vecs(requesters)
    }

    /// Host: the retained-member set (addresses) for a topic. Gives the question for the core, whose
    /// reply `hps_members_reply` tells.
    pub fn hps_members(&self, path: String) -> (question: TopicQuestion)
        ensures
            question matches TopicQuestion::Members(p) && p@ == path@,
    {
        TopicQuestion::Members(path)
    }

    /// The members that the core gave.
    pub fn hps_members_reply(&self, members: Vec<[u8; 32]>) -> (addresses: Vec<Vec<u8>>)
        ensures
            are_keys_of(members@, addresses@),
            addresses@.len() == members@.len(),
            forall|i: int| 0 <= i < members@.len() ==> (#[trigger] addresses@[i])@ == members@[i]@,
    {
        keys_to_vecs(members)
    }

    /// Host: unique acking addresses for a topic (its reach / delivery sense). Gives the topic to ask
    /// the core of, whose reply `hps_reach_reply` tells.
    pub fn hps_reach(&self, path: String) -> (call: ReachCall)
        ensures
            call.path@ == path@,
    {
        ReachCall { path }
    }

    /// The count that the core gave.
    pub fn hps_reach_reply(&self, reach: usize) -> (count: u32)
        ensures
            count == reach as int % 0x1_0000_0000,
    {
        count32(reach)
    }

    /// Invites we've received (Invite mode). Takes what the core drained.
    pub fn take_hps_invites(&self, invites: Vec<TopicInvite>) -> (records: Vec<HpsInvite>)
        ensures
            records@.len() == invites@.len(),
            forall|i: int| 0 <= i < records@.len() ==> (#[trigger] records@[i]).shows(invites@[i]),
    {
        map_vec(invites, HpsInvite::of)
    }

    /// Received `hps://` messages (already decrypted and sender-verified). Takes what the core
    /// drained.
    pub fn take_hps_messages(&self, messages: Vec<TopicMessage>) -> (records: Vec<HpsMessage>)
        ensures
            records@.len() == messages@.len(),
            forall|i: int| 0 <= i < records@.len() ==> (#[trigger] records@[i]).shows(messages@[i]),
    {
        map_vec(messages, HpsMessage::of)
    }

    /// Topics this node hosts or follows; the app calls this at startup to rebuild its channel
    /// list, since the core persists topics but the app's in-memory list doesn't. Takes the core's.
    pub fn hps_my_topics(&self, topics: Vec<OwnTopic>) -> (records: Vec<HpsMyTopic>)
        ensures
            records@.len() == topics@.len(),
            forall|i: int| 0 <= i < records@.len() ==> (#[trigger] records@[i]).shows(topics@[i]),
    {
        map_vec(topics, HpsMyTopic::of)
    }

    /// Same-app discoverable topics visible on the mesh (decrypted descriptors and host address).
    /// Takes what the core found.
    pub fn browse_discoverable(&self, topics: Vec<([u8; 32], TopicMeta)>) -> (records: Vec<
        HpsTopicInfo,
    >)
        ensures
            records@.len() == topics@.len(),
            forall|i: int| 0 <= i < records@.len() ==> (#[trigger] records@[i]).shows(topics@[i]),
    {
        map_vec(topics, HpsTopicInfo::of)
    }
}

} // verus!
