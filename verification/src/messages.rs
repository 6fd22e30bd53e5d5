//! Messages and adverts: sending, delivery status, the queue, the inbox, and browsing.
use vstd::prelude::*;

use crate::bytes::{count32, is_key, to32};
use crate::error::FfiError;
use crate::mesh::{Advert, InboxBundle, QueuedBundle};
use crate::node::{asks_of_key, HopNode};
use crate::records::{
    is_readable, is_service, InboxMessage, MessageStatus, QueueItem, ServiceHit,
};
use crate::reply::{directed_reply, id_reply, tells_directed, tells_id};
use crate::step::Step;
use crate::vecs::{filter_map_vec, map_vec};

verus! {

/// Whether a message leaves a trace on its way.
#[derive(Clone, Copy, Debug, PartialEq, Eq, Structural)]
pub enum Tracing {
    /// No cleartext source or destination.
    Untraceable,
    /// Full provenance.
    Traced,
}

/// A message for the core to send across the mesh.
pub struct MessageCall {
    pub tracing: Tracing,
    pub dst: [u8; 32],
    pub content_type: String,
    pub body: Vec<u8>,
    pub request_ack: bool,
}

/// What becomes of a message to `dst`: the core is asked to send it as it is, exactly if `dst` is
/// an address.
pub open spec fn is_message_call(
    call: Result<MessageCall, FfiError>,
    tracing: Tracing,
    dst: Seq<u8>,
    content_type: Seq<char>,
    body: Seq<u8>,
    request_ack: bool,
) -> bool {
    match call {
        Ok(c) => {
            &&& is_key(dst)
            &&& c.tracing == tracing
            &&& c.dst@ == dst
            &&& c.content_type@ == content_type
            &&& c.body@ == body
            &&& c.request_ack == request_ack
        },
        Err(e) => !is_key(dst) && e == FfiError::BadKey,
    }
}

fn message_call(
    tracing: Tracing,
    dst: Vec<u8>,
    content_type: String,
    body: Vec<u8>,
    request_ack: bool,
) -> (call: Result<MessageCall, FfiError>)
    ensures
        is_message_call(call, tracing, dst@, content_type@, body@, request_ack),
{
    match to32(dst.as_slice()) {
        Ok(dst) => Ok(MessageCall { tracing, dst, content_type, body, request_ack }),
        Err(e) => Err(e),
    }
}

/// A message for the core to send to a peer it is directly connected to.
pub struct DirectCall {
    pub peer: [u8; 32],
    pub content_type: String,
    pub body: Vec<u8>,
    pub request_ack: bool,
}

/// What becomes of a message to the direct peer `peer`: the core is asked to send it as it is,
/// exactly if `peer` is an address.
pub open spec fn is_direct_call(
    call: Result<DirectCall, FfiError>,
    peer: Seq<u8>,
    content_type: Seq<char>,
    body: Seq<u8>,
    request_ack: bool,
) -> bool {
    match call {
        Ok(c) => {
            &&& is_key(peer)
            &&& c.peer@ == peer
            &&& c.content_type@ == content_type
            &&& c.body@ == body
            &&& c.request_ack == request_ack
        },
        Err(e) => !is_key(peer) && e == FfiError::BadKey,
    }
}

/// A service advert for the core to publish.
pub struct PublishCall {
    pub service: String,
    pub title: String,
    pub summary: String,
    pub tags: Vec<String>,
    pub ttl_ms: u32,
}

impl PublishCall {
    pub open spec fn announces(
        self,
        service: Seq<char>,
        title: Seq<char>,
        summary: Seq<char>,
        tags: Seq<String>,
        ttl_ms: u32,
    ) -> bool {
        &&& self.service@ == service
        &&& self.title@ == title
        &&& self.summary@ == summary
        &&& self.tags@ == tags
        &&& self.ttl_ms == ttl_ms
    }
}

/// `inbox` are the messages among `bundles` that could be read, in order.
pub open spec fn is_inbox_of(
    inbox: Seq<InboxMessage>,
    bundles: Seq<InboxBundle>,
    relay: Seq<u8>,
    fabric: Seq<u8>,
) -> bool {
    let readable = bundles.filter(|b: InboxBundle| is_readable(b));
    &&& inbox.len() == readable.len()
    &&& forall|i: int|
        0 <= i < inbox.len() ==> (#[trigger] inbox[i]).shows(readable[i], relay, fabric)
}

/// What to browse for.
pub struct BrowseCall {
    pub service: String,
    /// `None` for no filter.
    pub tag: Option<String>,
}

impl BrowseCall {
    /// It asks for `service`, under `tag` unless that is empty.
    pub open spec fn asks_for(self, service: Seq<char>, tag: Seq<char>) -> bool {
        &&& self.service@ == service
        &&& match self.tag {
            Some(t) => tag.len() > 0 && t@ == tag,
            None => tag.len() == 0,
        }
    }
}

/// `hits` are what browsing tells of `adverts`: the services among them, in order.
pub open spec fn are_hits(hits: Seq<ServiceHit>, adverts: Seq<Advert>) -> bool {
    let services = adverts.filter(|a: Advert| is_service(a));
    &&& hits.len() == services.len()
    &&& forall|i: int| 0 <= i < hits.len() ==> (#[trigger] hits[i]).shows(services[i])
}

impl HopNode {
    /// Send a peer message to `dst` (an address; the sealing key is derived from it), untraceable:
    /// no cleartext source or destination. Gives the message for the core to send, whose reply
    /// `send_message_reply` tells.
    pub fn send_message(
        &self,
        dst: Vec<u8>,
        content_type: String,
        body: Vec<u8>,
        request_ack: bool,
    ) -> (call: Result<MessageCall, FfiError>)
        ensures
            is_message_call(call, Tracing::Untraceable, dst@, content_type@, body@, request_ack),
            call is Ok <==> dst@.len() == 32,
            call matches Ok(c) ==> c.tracing == Tracing::Untraceable && c.dst@ == dst@ && c.content_type@
                == content_type@ && c.body@ == body@ && c.request_ack == request_ack,
            call matches Err(e) ==> e == FfiError::BadKey,
    {
        message_call(Tracing::Untraceable, dst, content_type, body, request_ack)
    }

    /// The bundle id of the message, or why the core refused it.
    pub fn send_message_reply(&self, reply: Result<[u8; 32], String>) -> (answer: Result<
        Vec<u8>,
        FfiError,
    >)
        ensures
            tells_id(answer, reply),
    {
        id_reply(reply)
    }

    /// Send a peer message to `dst` with full provenance: the opt-in traced path. Gives the message
    /// for the core to send, whose reply `send_message_reply` tells.
    pub fn send_message_traced(
        &self,
        dst: Vec<u8>,
        content_type: String,
        body: Vec<u8>,
        request_ack: bool,
    ) -> (call: Result<MessageCall, FfiError>)
        ensures
            is_message_call(call, Tracing::Traced, dst@, content_type@, body@, request_ack),
            call is Ok <==> dst@.len() == 32,
            call matches Ok(c) ==> c.tracing == Tracing::Traced && c.dst@ == dst@ && c.content_type@
                == content_type@ && c.body@ == body@ && c.request_ack == request_ack,
            call matches Err(e) ==> e == FfiError::BadKey,
    {
        message_call(Tracing::Traced, dst, content_type, body, request_ack)
    }

    /// Send a message to a directly-connected peer (sealed with the key learned at handshake).
    /// Gives the message for the core to send, whose reply `send_to_reply` tells.
    pub fn send_to(
        &self,
        address: Vec<u8>,
        content_type: String,
        body: Vec<u8>,
        request_ack: bool,
    ) -> (call: Result<DirectCall, FfiError>)
        ensures
            is_direct_call(call, address@, content_type@, body@, request_ack),
            call is Ok <==> address@.len() == 32,
            call matches Ok(c) ==> c.peer@ == address@ && c.content_type@ == content_type@ && c.body@
                == body@ && c.request_ack == request_ack,
            call matches Err(e) ==> e == FfiError::BadKey,
    {
        match to32(address.as_slice()) {
            Ok(peer) => Ok(DirectCall { peer, content_type, body, request_ack }),
            Err(e) => Err(e),
        }
    }

    /// The bundle id of the message; an error if the core is not connected to that address, or
    /// refused it.
    pub fn send_to_reply(&self, reply: Result<Option<[u8; 32]>, String>) -> (answer: Result<
        Vec<u8>,
        FfiError,
    >)
        ensures
            tells_directed(answer, reply),
            match (answer, reply) {
                (Ok(bytes), Ok(Some(id))) => bytes@ == id@,
                (Err(FfiError::Hop(message)), Ok(None)) => message@ == "peer not connected"@,
                (Err(e), Err(cause)) => e == FfiError::Hop(cause),
                _ => false,
            },
    {
        directed_reply(reply)
    }

    /// Publish a signed service advert that gossips across the mesh (even multiple hops away). Apps
    /// build presence on this, e.g. a "presence" service whose `title` is the user's display name.
    /// `ttl_ms` bounds how long the record lives before it must be refreshed. Gives the advert for
    /// the core to publish, whose reply `publish_service_reply` tells.
    pub fn publish_service(
        &self,
        service: String,
        title: String,
        summary: String,
        tags: Vec<String>,
        ttl_ms: u32,
    ) -> (call: PublishCall)
        ensures
            call.announces(service@, title@, summary@, tags@, ttl_ms),
            call.service@ == service@,
            call.title@ == title@,
            call.summary@ == summary@,
            call.tags@ == tags@,
            call.ttl_ms == ttl_ms,
    {
        PublishCall { service, title, summary, tags, ttl_ms }
    }

    /// The advert id, or why the core refused the advert.
    pub fn publish_service_reply(&self, reply: Result<[u8; 32], String>) -> (answer: Result<
        Vec<u8>,
        FfiError,
    >)
        ensures
            tells_id(answer, reply),
    {
        id_reply(reply)
    }

    /// Publish this node's prekey so peers can open forward-secret sessions to it. Takes the core's
    /// reply and gives the advert id.
    pub fn publish_prekey(&self, reply: Result<[u8; 32], String>) -> (answer: Result<
        Vec<u8>,
        FfiError,
    >)
        ensures
            tells_id(answer, reply),
    {
        id_reply(reply)
    }

    /// Browse a service namespace (optionally filtered by tag) for adverts discovered across the
    /// mesh. Pass an empty `tag` for no filter. Gives what to ask the core for; `browse_reply`
    /// tells what it found.
    pub fn browse(&self, service: String, tag: String) -> (call: BrowseCall)
        ensures
            call.asks_for(service@, tag@),
            call.service@ == service@,
            call.tag is Some <==> tag@.len() > 0,
            call.tag matches Some(t) ==> t@ == tag@,
    {
        let tag = if tag.as_str().is_empty() {
            None
        } else {
            Some(tag)
        };
        BrowseCall { service, tag }
    }

    /// The services among the adverts that the core found, in order, each with its hop distance.
    pub fn browse_reply(&self, adverts: Vec<Advert>) -> (hits: Vec<ServiceHit>)
        ensures
            are_hits(hits@, adverts@),
    {
        filter_map_vec(adverts, ServiceHit::of, Ghost(|a: Advert| is_service(a)))
    }

    /// Delivery status of a message we sent, by its bundle id. Anything but an id is blank; of an
    /// id the core is asked, and `message_status_reply` tells its reply.
    pub fn message_status(&self, id: Vec<u8>) -> (step: Step<[u8; 32], MessageStatus>)
        ensures
            asks_of_key(step, id@, MessageStatus::blank_status()),
            step is Ask <==> id@.len() == 32,
            step matches Step::Ask(i) ==> i@ == id@,
            step matches Step::Answer(s) ==> s.relayed == 0 && !s.delivered && s.delivery_hops == 0
                && s.delivery_ms == 0,
    {
        match to32(id.as_slice()) {
            Ok(i) => Step::Ask(i),
            Err(_) => Step::Answer(MessageStatus::blank()),
        }
    }

    /// The status that the core gave: peers handed a copy, whether it was delivered, and the hops
    /// and latency to delivery. Blank for a message it does not know.
    pub fn message_status_reply(&self, reply: Option<(u32, bool, u8, u32)>) -> (status:
        MessageStatus)
        ensures
            status == told_status(reply),
            reply matches Some((relayed, delivered, hops, ms)) ==> status.relayed == relayed
                && status.delivered == delivered && status.delivery_hops == hops
                && status.delivery_ms == ms,
            reply is None ==> status.relayed == 0 && !status.delivered && status.delivery_hops == 0
                && status.delivery_ms == 0,
    {
        match reply {
            Some((relayed, delivered, delivery_hops, delivery_ms)) => MessageStatus {
                relayed,
                delivered,
                delivery_hops,
                delivery_ms,
            },
            None => MessageStatus::blank(),
        }
    }

    /// The relay queue: our messages awaiting send (pinned) and peers' awaiting relay. Takes the
    /// core's.
    pub fn queue(&self, bundles: Vec<QueuedBundle>) -> (items: Vec<QueueItem>)
        ensures
            items@.len() == bundles@.len(),
            forall|i: int| 0 <= i < items@.len() ==> (#[trigger] items@[i]).shows(bundles@[i]),
    {
        map_vec(bundles, QueueItem::of)
    }

    /// Number of locally-sent bundles still awaiting an ACK. Takes the core's.
    pub fn pending_count(&self, pending: usize) -> (count: u32)
        ensures
            count == pending as int % 0x1_0000_0000,
    {
        count32(pending)
    }

    /// The decrypted messages among the bundles that the core took from its inbox, in order.
    /// `relay` and `fabric` are the short forms of the two app ids that have a name.
    pub fn take_inbox(
        &self,
        bundles: Vec<InboxBundle>,
        relay: &[u8; 8],
        fabric: &[u8; 8],
    ) -> (inbox: Vec<InboxMessage>)
        ensures
            is_inbox_of(inbox@, bundles@, relay@, fabric@),
            ({
                let readable = bundles@.filter(|b: InboxBundle| is_readable(b));
                &&& inbox@.len() == readable.len()
                &&& forall|i: int|
                    0 <= i < inbox@.len() ==> (#[trigger] inbox@[i]).shows(
                        readable[i],
                        relay@,
                        fabric@,
                    )
            }),
    {
        let of = |bundle: InboxBundle| -> (message: Option<InboxMessage>)
            ensures
                message is Some <==> is_readable(bundle),
                message matches Some(m) ==> m.shows(bundle, relay@, fabric@),
            { InboxMessage::of(bundle, relay, fabric) };
        filter_map_vec(bundles, of, Ghost(|b: InboxBundle| is_readable(b)))
    }
}

/// The status that a reply of the core tells.
pub open spec fn told_status(reply: Option<(u32, bool, u8, u32)>) -> MessageStatus {
    match reply {
        Some((relayed, delivered, delivery_hops, delivery_ms)) => MessageStatus {
            relayed,
            delivered,
            delivery_hops,
            delivery_ms,
        },
        None => MessageStatus::blank_status(),
    }
}

} // verus!
