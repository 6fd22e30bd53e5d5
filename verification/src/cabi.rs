//! The C ABI's rules: what each entry point makes of the pointers it was given.
//!
//! A handle or a pointer that may be NULL is an `Option` here, and a C string is its bytes without
//! the NUL that ends it. An entry point that has to ask the mesh core gives what to ask; its
//! `_reply` takes what came back, or `None` where the call panicked, so that a panic never gets past
//! the boundary and ends as a dropped operation.
use vstd::prelude::*;
use vstd::utf8::{decode_utf8, encode_utf8, valid_utf8};

use crate::base58::{
    bs58_bytes, bs58_text, is_base58, law_addresses_fit_45_bytes,
    law_base58_decodes_to_one_address, law_base58_is_a_c_string,
};
use crate::bytes::to_vec;
use crate::error::FfiError;
use crate::mesh::{BearerEvent, ReachClaim, Role};
use crate::messages::{told_status, DirectCall, MessageCall, Tracing};
use crate::node::{
    is_arrival, is_identity_of, is_link_down, is_link_up, is_name_setting, is_open_plan, Build,
    HopNode, OpenPlan, PeerQuestion,
};
use crate::reach::{clock, verify_reach_record, SignCall, VerifyCall};
use crate::records::{InboxMessage, MessageStatus, OutPacket, ServiceReq, ServiceResp};
use crate::services::{ServiceCall, ServiceResponseCall};
use crate::step::Step;
use crate::text::{bytes_without_nuls, utf8_text, without_nuls};
use crate::vecs::map_vec;

verus! {

/// Which side opened a bearer link (the handshake role).
#[derive(Clone, Copy, Debug, PartialEq, Eq, Structural)]
pub enum HopLinkRole {
    /// We dialed out (BLE central / TCP connect / Wi-Fi inviter): the handshake's initiator.
    Dialer,
    /// A peer connected in (peripheral / listener / invitee): the handshake's responder.
    Acceptor,
}

/// The role that an ABI caller's number stands for: only 0 is the dialer, and any other number is
/// the acceptor, so that no number is out of range.
pub open spec fn role_of(role: u32) -> HopLinkRole {
    if role == 0 {
        HopLinkRole::Dialer
    } else {
        HopLinkRole::Acceptor
    }
}

/// The version of the C ABI. Bump on any signature or semantic change to an exported `hop_*`
/// function. A wrapper should assert `hop_abi_version() == HOP_ABI_VERSION` at load, so that one
/// built against a newer header fails loudly instead of drifting silently.
pub const HOP_ABI_VERSION: u32 = 3;

/// Returns the ABI version this library implements (see `HOP_ABI_VERSION`).
pub fn hop_abi_version() -> (version: u32)
    ensures
        version == HOP_ABI_VERSION,
{
    HOP_ABI_VERSION
}

// ---- what crosses the boundary ------------------------------------------------------------------

/// A C string was given, and it is UTF-8.
pub open spec fn is_c_text(p: Option<&[u8]>) -> bool {
    p matches Some(bytes) && valid_utf8(bytes@)
}

/// The text of a C string.
pub open spec fn c_text(p: Option<&[u8]>) -> Seq<char> {
    decode_utf8(p->0@)
}

/// The text of a C string; `None` for NULL or anything but UTF-8.
pub fn cstr(p: Option<&[u8]>) -> (text: Option<String>)
    ensures
        text is Some <==> is_c_text(p),
        text matches Some(t) ==> t@ == c_text(p),
{
    match p {
        None => None,
        Some(bytes) => utf8_text(vstd::slice::slice_to_vec(bytes)),
    }
}

/// The bytes of a C string for a sink callback, without the NUL that ends it. Interior NUL bytes are
/// stripped rather than the whole value collapsed to empty: lossless for valid input, and as much as
/// possible kept of a hostile one.
pub fn c_string_lossy(s: String) -> (bytes: Vec<u8>)
    ensures
        bytes@ == without_nuls(encode_utf8(s@)),
{
    bytes_without_nuls(s.as_str())
}

/// The bytes behind a pointer and a length; none for NULL.
pub open spec fn slice_bytes(p: Option<&[u8]>) -> Seq<u8> {
    match p {
        Some(bytes) => bytes@,
        None => Seq::empty(),
    }
}

/// The bytes behind a pointer and a length.
pub fn slice(p: Option<&[u8]>) -> (bytes: Vec<u8>)
    ensures
        bytes@ == slice_bytes(p),
{
    match p {
        Some(bytes) => vstd::slice::slice_to_vec(bytes),
        None => Vec::new(),
    }
}

/// `out` with `bytes` written to its front, as far as they fit.
pub open spec fn overwritten(out: Seq<u8>, bytes: Seq<u8>) -> Seq<u8> {
    Seq::new(
        out.len(),
        |i: int|
            if i < bytes.len() {
                bytes[i]
            } else {
                out[i]
            },
    )
}

/// Write `bytes` to the front of `out`, 32 of them at most, and say how many.
fn write32(bytes: &[u8], out: &mut [u8; 32]) -> (n: usize)
    ensures
        n == if bytes@.len() < 32 {
            bytes@.len() as int
        } else {
            32
        },
        final(out)@ == overwritten(old(out)@, bytes@),
{
    let n: usize = if bytes.len() < 32 {
        bytes.len()
    } else {
        32
    };
    let ghost before = out@;
    for i in 0..n
        invariant
            n <= 32,
            n <= bytes@.len(),
            forall|j: int| 0 <= j < 32 ==> #[trigger] out@[j] == (if j < i {
                bytes@[j]
            } else {
                before[j]
            }),
    {
        out[i] = bytes[i];
    }
    assert(out@ =~= overwritten(before, bytes@));
    n
}

/// What a drain gave; nothing where it panicked.
fn contained<T>(drained: Option<Vec<T>>) -> (entries: Vec<T>)
    ensures
        drained matches Some(d) ==> entries == d,
        drained is None ==> entries@.len() == 0,
{
    match drained {
        Some(entries) => entries,
        None => Vec::new(),
    }
}

// ---- lifecycle ----------------------------------------------------------------------------------

/// Open a node with persistent storage at `db_path` (UTF-8 C string), a saved 32-byte identity
/// `secret` (pass NULL/0 for a fresh identity), and a 32-byte `app_secret` (NULL/0 = open fabric).
/// `None`, a NULL handle, on a NULL/non-UTF-8 `db_path`.
pub fn hop_node_open(
    db_path: Option<&[u8]>,
    secret: Option<&[u8]>,
    app_secret: Option<&[u8]>,
    build: Build,
) -> (plan: Option<OpenPlan>)
    ensures
        plan is Some <==> is_c_text(db_path),
        plan matches Some(p) ==> is_open_plan(
            p,
            c_text(db_path),
            slice_bytes(secret),
            slice_bytes(app_secret),
            Seq::empty(),
            build,
        ),
{
    match cstr(db_path) {
        None => None,
        Some(path) => Some(HopNode::open(path, slice(secret), slice(app_secret), build)),
    }
}

/// Like `hop_node_open`, but encrypts the store at rest with a raw `key` (typically 32 bytes). A
/// NULL/empty key behaves like `hop_node_open`. `None`, a NULL handle, on a NULL/non-UTF-8
/// `db_path`.
pub fn hop_node_open_keyed(
    db_path: Option<&[u8]>,
    secret: Option<&[u8]>,
    app_secret: Option<&[u8]>,
    key: Option<&[u8]>,
    build: Build,
) -> (plan: Option<OpenPlan>)
    ensures
        plan is Some <==> is_c_text(db_path),
        plan matches Some(p) ==> is_open_plan(
            p,
            c_text(db_path),
            slice_bytes(secret),
            slice_bytes(app_secret),
            slice_bytes(key),
            build,
        ),
{
    match cstr(db_path) {
        None => None,
        Some(path) => Some(
            HopNode::open_keyed(path, slice(secret), slice(app_secret), slice(key), build),
        ),
    }
}

/// Create a node with a fresh identity and ephemeral (in-memory) storage.
pub fn hop_node_new() -> (plan: OpenPlan)
    ensures
        plan.identity is Fresh,
        plan.app_secret is None,
        plan.store is None,
{
    HopNode::new()
}

/// Open a node from a saved 32-byte identity `secret` with ephemeral (in-memory) storage. Pass
/// NULL/0 for a fresh identity.
pub fn hop_node_with_secret(secret: Option<&[u8]>) -> (plan: OpenPlan)
    ensures
        is_identity_of(plan.identity, slice_bytes(secret)),
        plan.app_secret is None,
        plan.store is None,
{
    HopNode::with_secret(slice(secret))
}

/// Whether this node has durable storage; false for a NULL handle.
pub fn hop_node_is_persistent(node: Option<&HopNode>) -> (yes: bool)
    ensures
        yes == (node matches Some(n) && n@.persistent),
{
    match node {
        Some(n) => n.is_persistent(),
        None => false,
    }
}

/// How many persisted records failed to decode on startup; 0 for a NULL handle.
pub fn hop_node_rehydrate_dropped(node: Option<&HopNode>) -> (count: u32)
    ensures
        count == (match node {
            Some(n) => n@.rehydrate_dropped,
            None => 0,
        }),
{
    match node {
        Some(n) => n.rehydrate_dropped(),
        None => 0,
    }
}

// ---- identity -----------------------------------------------------------------------------------

/// Write a node's 32-byte address into `out`. `address` is what the node gave: `None` for a NULL
/// handle, or where the call panicked. False if either is missing.
pub fn hop_node_address(address: Option<Vec<u8>>, out: Option<&mut [u8; 32]>) -> (written: bool)
    ensures
        written == (address is Some && out is Some),
        out matches Some(o) ==> final(o)@ == (match address {
            Some(a) => overwritten((*o)@, a@),
            None => (*o)@,
        }),
{
    match (address, out) {
        (Some(a), Some(o)) => {
            write32(a.as_slice(), o);
            true
        },
        _ => false,
    }
}

/// Write a node's 32-byte identity secret into `out` so the host can persist it and restore the node
/// later. `secret` is what the node gave: `None` for a NULL handle, or where the call panicked.
/// Returns the number of bytes written (32), or 0 if either is missing.
pub fn hop_node_secret(secret: Option<Vec<u8>>, out: Option<&mut [u8; 32]>) -> (n: usize)
    ensures
        n == (match (secret, out) {
            (Some(s), Some(_)) => if s@.len() < 32 {
                s@.len() as int
            } else {
                32
            },
            _ => 0,
        }),
        out matches Some(o) ==> final(o)@ == (match secret {
            Some(s) => overwritten((*o)@, s@),
            None => (*o)@,
        }),
{
    match (secret, out) {
        (Some(s), Some(o)) => write32(s.as_slice(), o),
        _ => 0,
    }
}

/// Set the display name this node reports. Gives the name to set in the core (`Some(None)` clears
/// it), or `None` to leave things alone: on a NULL handle, or a NULL/non-UTF-8 name.
pub fn hop_node_set_name(node: Option<&HopNode>, name: Option<&[u8]>) -> (set: Option<
    Option<String>,
>)
    ensures
        set is Some <==> node is Some && is_c_text(name),
        set matches Some(s) ==> is_name_setting(s, c_text(name)),
{
    match (node, cstr(name)) {
        (Some(node), Some(name)) => Some(node.set_name(name)),
        _ => None,
    }
}

// ---- clock --------------------------------------------------------------------------------------

/// Advance time: expire adverts, retransmit unacked bundles, prune dedup. Call about once a second.
/// Gives the time for the core; none for a NULL handle.
pub fn hop_node_tick(node: Option<&HopNode>, now_ms: u64) -> (tick: Option<u64>)
    ensures
        tick == (if node is Some {
            Some(now_ms)
        } else {
            None
        }),
{
    if node.is_some() {
        Some(now_ms)
    } else {
        None
    }
}

// ---- the bearer seam ----------------------------------------------------------------------------

/// A bearer link came up. `role` says which side dialed (0 = dialer, 1 = acceptor). Gives the event
/// for the core; none for a NULL handle.
pub fn hop_link_up(node: Option<&HopNode>, link: u64, role: u32) -> (event: Option<BearerEvent>)
    ensures
        event is Some <==> node is Some,
        event matches Some(e) ==> is_link_up(e, link, role == 0),
        event == (match node {
            Some(_) => Some(
                BearerEvent::Connected(
                    link,
                    match role_of(role) {
                        HopLinkRole::Dialer => Role::Initiator,
                        HopLinkRole::Acceptor => Role::Responder,
                    },
                ),
            ),
            None => None,
        }),
{
    match node {
        Some(n) => Some(n.connected(link, role == 0)),
        None => None,
    }
}

/// One frame of opaque bytes arrived on `link`. Gives the event for the core; none for a NULL
/// handle.
pub fn hop_bytes_received(node: Option<&HopNode>, link: u64, data: Option<&[u8]>) -> (event: Option<
    BearerEvent,
>)
    ensures
        event matches Some(e) ==> is_arrival(e, link, slice_bytes(data)),
        event is Some <==> node is Some,
        event matches Some(e) ==> (e matches BearerEvent::Data(l, bytes) && l == link && bytes@
            == slice_bytes(data)),
{
    match node {
        Some(n) => Some(n.received(link, slice(data))),
        None => None,
    }
}

/// A bearer link dropped. Gives the event for the core; none for a NULL handle.
pub fn hop_link_down(node: Option<&HopNode>, link: u64) -> (event: Option<BearerEvent>)
    ensures
        event is Some <==> node is Some,
        event matches Some(e) ==> is_link_down(e, link),
        event == (match node {
            Some(_) => Some(BearerEvent::Disconnected(link)),
            None => None,
        }),
{
    match node {
        Some(n) => Some(n.disconnected(link)),
        None => None,
    }
}

/// Whether to drain queued outbound packets: not on a NULL handle, nor without a sink to take them.
pub fn hop_drain_outgoing(node: Option<&HopNode>, sink: bool) -> (drain: bool)
    ensures
        drain == (node is Some && sink),
{
    node.is_some() && sink
}

/// The packets to hand to the sink, in order.
pub fn hop_drain_outgoing_reply(drained: Option<Vec<OutPacket>>) -> (packets: Vec<OutPacket>)
    ensures
        drained matches Some(d) ==> packets == d,
        drained is None ==> packets@.len() == 0,
{
    contained(drained)
}

// ---- messages -----------------------------------------------------------------------------------

/// Subscribe the directory to a service `topic` (UTF-8 C string). Gives the topic to subscribe to;
/// none on a NULL handle, or a NULL/non-UTF-8 topic.
pub fn hop_subscribe(node: Option<&HopNode>, topic: Option<&[u8]>) -> (subscribe: Option<String>)
    ensures
        subscribe is Some <==> node is Some && is_c_text(topic),
        subscribe matches Some(t) ==> t@ == c_text(topic),
{
    if node.is_some() {
        cstr(topic)
    } else {
        None
    }
}

/// Whether this node's prekey advert was published. `published` is what the node gave: `None` for a
/// NULL handle, or where the call panicked.
pub fn hop_publish_prekey(published: Option<Result<Vec<u8>, FfiError>>) -> (ok: bool)
    ensures
        ok == (published matches Some(Ok(_))),
{
    match published {
        Some(Ok(_)) => true,
        _ => false,
    }
}

/// A message for the inbox sink.
#[derive(Debug)]
pub struct InboxRow {
    pub from: Vec<u8>,
    /// A C string, without the NUL that ends it.
    pub content_type: Vec<u8>,
    pub body: Vec<u8>,
    pub hops: u8,
    pub created_at: u64,
}

impl InboxRow {
    pub open spec fn shows(self, message: InboxMessage) -> bool {
        &&& self.from@ == message.from@
        &&& self.content_type@ == without_nuls(encode_utf8(message.content_type@))
        &&& self.body@ == message.body@
        &&& self.hops == message.hops
        &&& self.created_at == message.created_at
    }

    pub fn of(message: InboxMessage) -> (row: InboxRow)
        ensures
            row.shows(message),
    {
        let InboxMessage { from, content_type, body, hops, created_at, trace: _ } = message;
        InboxRow { from, content_type: c_string_lossy(content_type), body, hops, created_at }
    }
}

/// Whether to drain newly-received messages: not on a NULL handle, nor without a sink to take them.
pub fn hop_poll_inbox(node: Option<&HopNode>, sink: bool) -> (poll: bool)
    ensures
        poll == (node is Some && sink),
{
    node.is_some() && sink
}

/// The messages to hand to the sink, in order.
pub fn hop_poll_inbox_reply(inbox: Option<Vec<InboxMessage>>) -> (rows: Vec<InboxRow>)
    ensures
        match inbox {
            Some(messages) => {
                &&& rows@.len() == messages@.len()
                &&& forall|i: int|
                    0 <= i < rows@.len() ==> (#[trigger] rows@[i]).shows(messages@[i])
            },
            None => rows@.len() == 0,
        },
{
    map_vec(contained(inbox), InboxRow::of)
}

/// What becomes of an ABI send: the core is asked to send it untraceably, exactly if there is a node,
/// a destination and a content type; otherwise it is refused.
pub open spec fn is_abi_send(
    step: Step<MessageCall, bool>,
    node: Option<&HopNode>,
    dst: Option<[u8; 32]>,
    content_type: Option<&[u8]>,
    body: Option<&[u8]>,
    request_ack: bool,
) -> bool {
    let complete = node is Some && dst is Some && is_c_text(content_type);
    match step {
        Step::Ask(call) => {
            &&& complete
            &&& call.tracing == Tracing::Untraceable
            &&& call.dst@ == dst->0@
            &&& call.content_type@ == c_text(content_type)
            &&& call.body@ == slice_bytes(body)
            &&& call.request_ack == request_ack
        },
        Step::Answer(sent) => !complete && !sent,
    }
}

/// What becomes of a directed ABI send: the core is asked, exactly if there is a node, a peer and a
/// content type; otherwise it is refused.
pub open spec fn is_abi_direct_send(
    step: Step<DirectCall, bool>,
    node: Option<&HopNode>,
    dst: Option<[u8; 32]>,
    content_type: Option<&[u8]>,
    body: Option<&[u8]>,
    request_ack: bool,
) -> bool {
    let complete = node is Some && dst is Some && is_c_text(content_type);
    match step {
        Step::Ask(call) => {
            &&& complete
            &&& call.peer@ == dst->0@
            &&& call.content_type@ == c_text(content_type)
            &&& call.body@ == slice_bytes(body)
            &&& call.request_ack == request_ack
        },
        Step::Answer(sent) => !complete && !sent,
    }
}

/// Send a message to the 32-byte address `dst`, untraceable. `content_type` is a UTF-8 C string
/// (e.g. "text/plain"); `body` is the payload. If `request_ack`, a private delivery confirmation is
/// requested. Gives the message for the core to send, whose reply `hop_send_message_reply` tells;
/// false on a NULL handle, a NULL `dst`, or a NULL/non-UTF-8 `content_type`.
pub fn hop_send_message(
    node: Option<&HopNode>,
    dst: Option<[u8; 32]>,
    content_type: Option<&[u8]>,
    body: Option<&[u8]>,
    request_ack: bool,
) -> (step: Step<MessageCall, bool>)
    ensures
        is_abi_send(step, node, dst, content_type, body, request_ack),
        step is Ask <==> node is Some && dst is Some && is_c_text(content_type),
        step matches Step::Ask(call) ==> call.tracing == Tracing::Untraceable && call.dst@ == dst->0@ && call.content_type@ == decode_utf8(
            content_type->0@,
        ) && call.request_ack == request_ack,
        step matches Step::Ask(call) ==> (match body {
            Some(bytes) => call.body@ == bytes@,
            None => call.body@.len() == 0,
        }),
        step matches Step::Answer(sent) ==> !sent,
{
    match (node, cstr(content_type), dst) {
        (Some(node), Some(ct), Some(dst)) => match node.send_message(
            to_vec(&dst),
            ct,
            slice(body),
            request_ack,
        ) {
            Ok(call) => Step::Ask(call),
            Err(_) => Step::Answer(false),
        },
        _ => Step::Answer(false),
    }
}

/// Send to a directly-connected peer `dst` (32 bytes), sealed with the key learned at handshake.
/// Gives the message for the core to send, whose reply `hop_send_to_reply` tells; false on a NULL
/// handle, a NULL `dst`, or a NULL/non-UTF-8 `content_type`.
pub fn hop_send_to(
    node: Option<&HopNode>,
    dst: Option<[u8; 32]>,
    content_type: Option<&[u8]>,
    body: Option<&[u8]>,
    request_ack: bool,
) -> (step: Step<DirectCall, bool>)
    ensures
        is_abi_direct_send(step, node, dst, content_type, body, request_ack),
        step is Ask <==> node is Some && dst is Some && is_c_text(content_type),
        step matches Step::Ask(call) ==> call.peer@ == dst->0@ && call.content_type@ == decode_utf8(
            content_type->0@,
        ) && call.request_ack == request_ack,
        step matches Step::Ask(call) ==> (match body {
            Some(bytes) => call.body@ == bytes@,
            None => call.body@.len() == 0,
        }),
        step matches Step::Answer(sent) ==> !sent,
{
    match (node, cstr(content_type), dst) {
        (Some(node), Some(ct), Some(dst)) => match node.send_to(
            to_vec(&dst),
            ct,
            slice(body),
            request_ack,
        ) {
            Ok(call) => Step::Ask(call),
            Err(_) => Step::Answer(false),
        },
        _ => Step::Answer(false),
    }
}

/// Tell the caller of a send what came of it: true and the id in `out_id`, if there is one to write
/// to, or false and `out_id` as it was.
fn tell_sent(answer: Result<Vec<u8>, FfiError>, out_id: Option<&mut [u8; 32]>) -> (sent: bool)
    ensures
        sent == answer is Ok,
        out_id matches Some(o) ==> final(o)@ == (match answer {
            Ok(id) => overwritten((*o)@, id@),
            Err(_) => (*o)@,
        }),
{
    match answer {
        Ok(id) => {
            if let Some(o) = out_id {
                write32(id.as_slice(), o);
            }
            true
        },
        Err(_) => false,
    }
}

/// Whether the message was sent, and its 32-byte bundle id in `out_id` (may be NULL).
pub fn hop_send_message_reply(
    node: &HopNode,
    reply: Option<Result<[u8; 32], String>>,
    out_id: Option<&mut [u8; 32]>,
) -> (sent: bool)
    ensures
        sent == (reply matches Some(Ok(_))),
        out_id matches Some(o) ==> final(o)@ == (match reply {
            Some(Ok(id)) => id@,
            _ => (*o)@,
        }),
{
    match reply {
        Some(r) => {
            let answer = node.send_message_reply(r);
            tell_sent(answer, out_id)
        },
        None => false,
    }
}

/// Whether the message was sent, and its 32-byte bundle id in `out_id` (may be NULL); false if the
/// core is not connected to that peer.
pub fn hop_send_to_reply(
    node: &HopNode,
    reply: Option<Result<Option<[u8; 32]>, String>>,
    out_id: Option<&mut [u8; 32]>,
) -> (sent: bool)
    ensures
        sent == (reply matches Some(Ok(Some(_)))),
        out_id matches Some(o) ==> final(o)@ == (match reply {
            Some(Ok(Some(id))) => id@,
            _ => (*o)@,
        }),
{
    match reply {
        Some(r) => {
            let answer = node.send_to_reply(r);
            tell_sent(answer, out_id)
        },
        None => false,
    }
}

/// Delivery status of a message we sent, by its 32-byte bundle `id`. Gives the id to ask the core
/// of, whose reply `hop_message_status_reply` writes out; false on a NULL handle or a NULL `id`.
pub fn hop_message_status(node: Option<&HopNode>, id: Option<[u8; 32]>) -> (step: Step<
    [u8; 32],
    bool,
>)
    ensures
        match step {
            Step::Ask(i) => node is Some && id == Some(i),
            Step::Answer(known) => !(node is Some && id is Some) && !known,
        },
{
    match (node, id) {
        (Some(_), Some(i)) => Step::Ask(i),
        _ => Step::Answer(false),
    }
}

/// Write each field of the status that the core gave to its out-param, where there is one. True,
/// also for a message that is not known, whose status is blank; false, with nothing written, where
/// the call panicked.
pub fn hop_message_status_reply(
    node: &HopNode,
    reply: Option<Option<(u32, bool, u8, u32)>>,
    out_relayed: Option<&mut u32>,
    out_delivered: Option<&mut bool>,
    out_hops: Option<&mut u8>,
    out_ms: Option<&mut u32>,
) -> (ok: bool)
    ensures
        ok == reply is Some,
        reply matches Some(Some((relayed, delivered, hops, ms))) ==> {
            &&& out_relayed matches Some(o) ==> *final(o) == relayed
            &&& out_delivered matches Some(o) ==> *final(o) == delivered
            &&& out_hops matches Some(o) ==> *final(o) == hops
            &&& out_ms matches Some(o) ==> *final(o) == ms
        },
        reply == Some(None::<(u32, bool, u8, u32)>) ==> {
            &&& out_relayed matches Some(o) ==> *final(o) == 0
            &&& out_delivered matches Some(o) ==> !*final(o)
            &&& out_hops matches Some(o) ==> *final(o) == 0
            &&& out_ms matches Some(o) ==> *final(o) == 0
        },
        out_relayed matches Some(o) ==> *final(o) == (match reply {
            Some(r) => told_status(r).relayed,
            None => *o,
        }),
        out_delivered matches Some(o) ==> *final(o) == (match reply {
            Some(r) => told_status(r).delivered,
            None => *o,
        }),
        out_hops matches Some(o) ==> *final(o) == (match reply {
            Some(r) => told_status(r).delivery_hops,
            None => *o,
        }),
        out_ms matches Some(o) ==> *final(o) == (match reply {
            Some(r) => told_status(r).delivery_ms,
            None => *o,
        }),
{
    match reply {
        None => false,
        Some(r) => {
            let status: MessageStatus = node.message_status_reply(r);
            if let Some(o) = out_relayed {
                *o = status.relayed;
            }
            if let Some(o) = out_delivered {
                *o = status.delivered;
            }
            if let Some(o) = out_hops {
                *o = status.delivery_hops;
            }
            if let Some(o) = out_ms {
                *o = status.delivery_ms;
            }
            true
        },
    }
}

/// True iff messaging `addr` (32 bytes) is forward-secret. Gives the question for the core, whose
/// reply `hop_is_secured_reply` tells; false on a NULL handle or a NULL `addr`.
pub fn hop_is_secured(node: Option<&HopNode>, addr: Option<[u8; 32]>) -> (step: Step<
    PeerQuestion,
    bool,
>)
    ensures
        match step {
            Step::Ask(PeerQuestion::HasSession(a)) => node is Some && addr is Some && a@
                == addr->0@,
            Step::Ask(_) => false,
            Step::Answer(secured) => !(node is Some && addr is Some) && !secured,
        },
{
    match (node, addr) {
        (Some(node), Some(addr)) => node.is_secured(to_vec(&addr)),
        _ => Step::Answer(false),
    }
}

/// Whether the core has a session; false where the call panicked.
pub fn hop_is_secured_reply(has_session: Option<bool>) -> (secured: bool)
    ensures
        secured == (has_session == Some(true)),
{
    match has_session {
        Some(secured) => secured,
        None => false,
    }
}

// ---- service requests and responses -------------------------------------------------------------

/// What becomes of an ABI service request: the core is asked, exactly if there is a node, a
/// destination, a service and a method; otherwise it is refused.
pub open spec fn is_abi_service_request(
    step: Step<ServiceCall, bool>,
    node: Option<&HopNode>,
    dst: Option<[u8; 32]>,
    service: Option<&[u8]>,
    method: Option<&[u8]>,
    args: Option<&[u8]>,
) -> bool {
    let complete = node is Some && dst is Some && is_c_text(service) && is_c_text(method);
    match step {
        Step::Ask(call) => complete && call.carries(
            dst->0@,
            c_text(service),
            c_text(method),
            slice_bytes(args),
        ),
        Step::Answer(sent) => !complete && !sent,
    }
}

/// What becomes of an ABI service response: the core is asked, exactly if there is a node, a caller
/// and a request id; otherwise it is refused.
pub open spec fn is_abi_service_response(
    step: Step<ServiceResponseCall, bool>,
    node: Option<&HopNode>,
    to: Option<[u8; 32]>,
    for_request_id: Option<[u8; 32]>,
    status: u16,
    body: Option<&[u8]>,
) -> bool {
    let complete = node is Some && to is Some && for_request_id is Some;
    match step {
        Step::Ask(call) => complete && call.carries(
            to->0@,
            for_request_id->0@,
            status,
            slice_bytes(body),
        ),
        Step::Answer(sent) => !complete && !sent,
    }
}

/// Send a `hops://` service request to `dst` (32 bytes): invoke `method` on `service` with `args`.
/// Gives the request for the core to send, whose reply `hop_send_service_request_reply` tells; false
/// on a NULL handle, a NULL `dst`, or a NULL/non-UTF-8 `service` or `method`.
pub fn hop_send_service_request(
    node: Option<&HopNode>,
    dst: Option<[u8; 32]>,
    service: Option<&[u8]>,
    method: Option<&[u8]>,
    args: Option<&[u8]>,
) -> (step: Step<ServiceCall, bool>)
    ensures
        is_abi_service_request(step, node, dst, service, method, args),
        ({
            let complete = node is Some && dst is Some && is_c_text(service) && is_c_text(method);
            match step {
                Step::Ask(call) => complete && call.carries(
                    dst->0@,
                    c_text(service),
                    c_text(method),
                    slice_bytes(args),
                ),
                Step::Answer(sent) => !complete && !sent,
            }
        }),
{
    match (node, cstr(service), cstr(method), dst) {
        (Some(node), Some(service), Some(method), Some(dst)) => match node.send_service_request(
            to_vec(&dst),
            service,
            method,
            slice(args),
        ) {
            Ok(call) => Step::Ask(call),
            Err(_) => Step::Answer(false),
        },
        _ => Step::Answer(false),
    }
}

/// Whether the request was sent, and its 32-byte id in `out_id` (may be NULL).
pub fn hop_send_service_request_reply(
    node: &HopNode,
    reply: Option<Result<[u8; 32], String>>,
    out_id: Option<&mut [u8; 32]>,
) -> (sent: bool)
    ensures
        sent == (reply matches Some(Ok(_))),
        out_id matches Some(o) ==> final(o)@ == (match reply {
            Some(Ok(id)) => id@,
            _ => (*o)@,
        }),
{
    match reply {
        Some(r) => {
            let answer = node.send_service_request_reply(r);
            tell_sent(answer, out_id)
        },
        None => false,
    }
}

/// Seal a `hops://` response back to a request's caller (host side). `to` = the request's `from`;
/// `for_request_id` = its `request_id`. Gives the response for the core to seal, whose reply
/// `hop_send_service_response_reply` tells; false on a NULL handle, `to` or `for_request_id`.
pub fn hop_send_service_response(
    node: Option<&HopNode>,
    to: Option<[u8; 32]>,
    for_request_id: Option<[u8; 32]>,
    status: u16,
    body: Option<&[u8]>,
) -> (step: Step<ServiceResponseCall, bool>)
    ensures
        is_abi_service_response(step, node, to, for_request_id, status, body),
        ({
            let complete = node is Some && to is Some && for_request_id is Some;
            match step {
                Step::Ask(call) => complete && call.carries(
                    to->0@,
                    for_request_id->0@,
                    status,
                    slice_bytes(body),
                ),
                Step::Answer(sent) => !complete && !sent,
            }
        }),
{
    match (node, to, for_request_id) {
        (Some(node), Some(to), Some(id)) => match node.send_service_response(
            to_vec(&to),
            to_vec(&id),
            status,
            slice(body),
        ) {
            Ok(call) => Step::Ask(call),
            Err(_) => Step::Answer(false),
        },
        _ => Step::Answer(false),
    }
}

/// Whether the response was sealed.
pub fn hop_send_service_response_reply(
    node: &HopNode,
    reply: Option<Result<[u8; 32], String>>,
) -> (sent: bool)
    ensures
        sent == (reply matches Some(Ok(_))),
{
    match reply {
        Some(r) => match node.send_service_response_reply(r) {
            Ok(_) => true,
            Err(_) => false,
        },
        None => false,
    }
}

/// A service request for the sink.
#[derive(Debug)]
pub struct RequestRow {
    pub from: Vec<u8>,
    pub request_id: Vec<u8>,
    /// A C string, without the NUL that ends it.
    pub service: Vec<u8>,
    /// A C string, without the NUL that ends it.
    pub method: Vec<u8>,
    pub args: Vec<u8>,
}

impl RequestRow {
    pub open spec fn shows(self, request: ServiceReq) -> bool {
        &&& self.from@ == request.from@
        &&& self.request_id@ == request.request_id@
        &&& self.service@ == without_nuls(encode_utf8(request.service@))
        &&& self.method@ == without_nuls(encode_utf8(request.method@))
        &&& self.args@ == request.args@
    }

    pub fn of(request: ServiceReq) -> (row: RequestRow)
        ensures
            row.shows(request),
    {
        let ServiceReq { from, request_id, service, method, args } = request;
        RequestRow {
            from,
            request_id,
            service: c_string_lossy(service),
            method: c_string_lossy(method),
            args,
        }
    }
}

/// Whether to drain `hops://` service requests addressed to this node: not on a NULL handle, nor
/// without a sink to take them.
pub fn hop_poll_service_requests(node: Option<&HopNode>, sink: bool) -> (poll: bool)
    ensures
        poll == (node is Some && sink),
{
    node.is_some() && sink
}

/// The requests to hand to the sink, in order.
pub fn hop_poll_service_requests_reply(requests: Option<Vec<ServiceReq>>) -> (rows: Vec<RequestRow>)
    ensures
        match requests {
            Some(reqs) => {
                &&& rows@.len() == reqs@.len()
                &&& forall|i: int| 0 <= i < rows@.len() ==> (#[trigger] rows@[i]).shows(reqs@[i])
            },
            None => rows@.len() == 0,
        },
{
    map_vec(contained(requests), RequestRow::of)
}

/// Whether to drain `hops://` service responses sealed back to this node: not on a NULL handle, nor
/// without a sink to take them.
pub fn hop_poll_service_responses(node: Option<&HopNode>, sink: bool) -> (poll: bool)
    ensures
        poll == (node is Some && sink),
{
    node.is_some() && sink
}

/// The responses to hand to the sink, in order.
pub fn hop_poll_service_responses_reply(responses: Option<Vec<ServiceResp>>) -> (rows: Vec<
    ServiceResp,
>)
    ensures
        responses matches Some(r) ==> rows == r,
        responses is None ==> rows@.len() == 0,
{
    contained(responses)
}

// ---- endpoint cluster ---------------------------------------------------------------------------

/// Join the endpoint cluster keyed by the 32-byte `secret` (all replicas of one endpoint pass the
/// same secret). Gives the secret to join with; none, a no-op, on a NULL handle or a NULL `secret`.
pub fn hop_cluster_join(node: Option<&HopNode>, secret: Option<[u8; 32]>) -> (join: Option<
    [u8; 32],
>)
    ensures
        join == (if node is Some {
            secret
        } else {
            None
        }),
{
    if node.is_some() {
        secret
    } else {
        None
    }
}

/// Join the endpoint cluster from a passphrase (the 32-byte secret is derived from it): every
/// replica given the same string joins the same cluster. Gives the passphrase to join with; none, a
/// no-op, on a NULL handle or a NULL `pass`.
pub fn hop_cluster_join_passphrase(node: Option<&HopNode>, pass: Option<&[u8]>) -> (join: Option<
    Vec<u8>,
>)
    ensures
        join is Some <==> node is Some && pass is Some,
        join matches Some(bytes) ==> bytes@ == pass->0@,
{
    if node.is_some() && pass.is_some() {
        Some(slice(pass))
    } else {
        None
    }
}

/// `from` and `request_id` if there is a node to ask of them and both are given.
pub open spec fn given_request(
    node: Option<&HopNode>,
    from: Option<[u8; 32]>,
    request_id: Option<[u8; 32]>,
) -> Option<([u8; 32], [u8; 32])> {
    match (node, from, request_id) {
        (Some(_), Some(f), Some(i)) => Some((f, i)),
        _ => None,
    }
}

/// Explicit completion for a fire-and-forget handler (one that sends no response): mark request
/// `(from, request_id)` handled and gossip it so sibling replicas drop their copies. Gives the
/// request to mark; none, a no-op, on a NULL handle, `from` or `request_id`.
pub fn hop_cluster_mark_done(
    node: Option<&HopNode>,
    from: Option<[u8; 32]>,
    request_id: Option<[u8; 32]>,
) -> (mark: Option<([u8; 32], [u8; 32])>)
    ensures
        mark == given_request(node, from, request_id),
{
    match (node, from, request_id) {
        (Some(_), Some(f), Some(i)) => Some((f, i)),
        _ => None,
    }
}

/// Whether request `(from, request_id)` would be dropped as already handled by a sibling replica.
/// Gives the request to ask the core of, whose reply `hop_cluster_would_drop_reply` tells; false on a
/// NULL handle, `from` or `request_id`.
pub fn hop_cluster_would_drop(
    node: Option<&HopNode>,
    from: Option<[u8; 32]>,
    request_id: Option<[u8; 32]>,
) -> (step: Step<([u8; 32], [u8; 32]), bool>)
    ensures
        step == (match given_request(node, from, request_id) {
            Some(request) => Step::Ask(request),
            None => Step::Answer(false),
        }),
{
    match (node, from, request_id) {
        (Some(_), Some(f), Some(i)) => Step::Ask((f, i)),
        _ => Step::Answer(false),
    }
}

/// Whether the core would drop the request; false where the call panicked.
pub fn hop_cluster_would_drop_reply(would_drop: Option<bool>) -> (dropped: bool)
    ensures
        dropped == (would_drop == Some(true)),
{
    match would_drop {
        Some(dropped) => dropped,
        None => false,
    }
}

/// Live replica count. `members` is what the node gave: `None` for a NULL handle, or where the call
/// panicked, which counts as 0.
pub fn hop_cluster_members(members: Option<u32>) -> (count: u32)
    ensures
        count == (match members {
            Some(n) => n,
            None => 0,
        }),
{
    match members {
        Some(n) => n,
        None => 0,
    }
}

/// Require at least `min_live_members` recently visible before processing; `0` disables it. Gives
/// the threshold for the core; none for a NULL handle.
pub fn hop_cluster_set_quorum(node: Option<&HopNode>, min_live_members: u32) -> (quorum: Option<
    u32,
>)
    ensures
        quorum == (if node is Some {
            Some(min_live_members)
        } else {
            None
        }),
{
    if node.is_some() {
        Some(min_live_members)
    } else {
        None
    }
}

// ---- addresses as base58 ------------------------------------------------------------------------

/// What a C buffer `before` holds once `text` was written to it with a NUL behind it.
pub open spec fn c_written(before: Seq<u8>, text: Seq<char>) -> Seq<u8> {
    let bytes = encode_utf8(text);
    bytes + seq![0u8] + before.skip(bytes.len() as int + 1)
}

/// Encode a 32-byte `addr` as base58 into the C buffer `out`, with a NUL behind it. Returns the
/// string length (excluding NUL), or 0, with nothing written, on NULL or insufficient capacity. 45
/// bytes are always enough.
pub fn hop_address_to_base58(addr: Option<[u8; 32]>, out: Option<&mut [u8]>) -> (n: usize)
    ensures
        (addr is None || out is None) ==> n == 0,
        (addr is None && out is Some) ==> final(out->0)@ == (*out->0)@,
        (addr is Some && out is Some && (*out->0)@.len() >= 45) ==> 0 < n <= 44,
        (addr is Some && out is Some) ==> exists|text: Seq<char>|
            {
                let fits = encode_utf8(text).len() < (*out->0)@.len();
                &&& #[trigger] is_base58(text, addr->0@)
                &&& n == (if fits {
                    encode_utf8(text).len()
                } else {
                    0
                })
                &&& final(out->0)@ == (if fits {
                    c_written((*out->0)@, text)
                } else {
                    (*out->0)@
                })
            },
{
    match (addr, out) {
        (Some(addr), Some(out)) => {
            let text: String = bs58_text(addr.as_slice());
            let bytes: &[u8] = text.as_str().as_bytes();
            let ghost before = out@;
            let len: usize = bytes.len();
            proof {
                law_base58_is_a_c_string(text@, addr@);
                law_addresses_fit_45_bytes(text@, addr@);
            }
            if len >= out.len() {
                assert(is_base58(text@, addr@));
                return 0;
            }
            for i in 0..len
                invariant
                    len == bytes@.len(),
                    len < out@.len(),
                    out@.len() == before.len(),
                    forall|j: int| 0 <= j < out@.len() ==> #[trigger] out@[j] == (if j < i {
                        bytes@[j]
                    } else {
                        before[j]
                    }),
            {
                out[i] = bytes[i];
            }
            out[len] = 0;
            assert(is_base58(text@, addr@));
            assert(out@ =~= c_written(before, text@));
            len
        },
        _ => 0,
    }
}

/// Some 32 bytes have `text` for their base58 form.
pub open spec fn names_an_address(text: Seq<char>) -> bool {
    exists|address: Seq<u8>| address.len() == 32 && #[trigger] is_base58(text, address)
}

/// Decode a base58 address C string `text` into `out32` (32 bytes). Returns true iff it decoded to
/// exactly 32 bytes; otherwise nothing is written.
pub fn hop_address_from_base58(text: Option<&[u8]>, out32: Option<&mut [u8; 32]>) -> (ok: bool)
    ensures
        ok == (out32 is Some && is_c_text(text) && names_an_address(c_text(text))),
        out32 matches Some(o) ==> if ok {
            is_base58(c_text(text), final(o)@)
        } else {
            final(o)@ == (*o)@
        },
{
    match (cstr(text), out32) {
        (Some(t), Some(o)) => match bs58_bytes(t.as_str()) {
            Ok(v) => {
                if v.len() == 32 {
                    assert(names_an_address(t@));
                    write32(v.as_slice(), o);
                    assert(o@ =~= v@);
                    true
                } else {
                    proof {
                        if names_an_address(t@) {
                            let address = choose|address: Seq<u8>|
                                address.len() == 32 && #[trigger] is_base58(t@, address);
                            law_base58_decodes_to_one_address(t@, address, v@);
                        }
                    }
                    false
                }
            },
            Err(_) => false,
        },
        _ => false,
    }
}

// ---- reachability records -----------------------------------------------------------------------

/// Sign a self-certifying reachability record for this node's address, binding it to `endpoint`
/// (UTF-8 C string, e.g. "wss://myaddress.com/_hop") for `ttl_secs`. Gives the record for the core
/// to sign, whose reply goes through `hop_sign_reach_record_reply` to the sink; none, a no-op, on a
/// NULL handle, a NULL/non-UTF-8 `endpoint`, or a NULL sink.
pub fn hop_sign_reach_record(
    node: Option<&HopNode>,
    endpoint: Option<&[u8]>,
    ttl_secs: u32,
    sink: bool,
) -> (call: Option<SignCall>)
    ensures
        call is Some <==> node is Some && is_c_text(endpoint) && sink,
        call matches Some(c) ==> c.endpoint@ == c_text(endpoint) && c.ttl_secs == ttl_secs,
{
    match (node, cstr(endpoint), sink) {
        (Some(node), Some(endpoint), true) => Some(node.sign_reach_record(endpoint, ttl_secs)),
        _ => None,
    }
}

/// The signed record's bytes for the sink; none where signing panicked.
pub fn hop_sign_reach_record_reply(signed: Option<Vec<u8>>) -> (bytes: Vec<u8>)
    ensures
        signed matches Some(s) ==> bytes == s,
        signed is None ==> bytes@.len() == 0,
{
    contained(signed)
}

/// Verify a reachability record. `now_secs` = current Unix time to enforce expiry (0 skips the
/// expiry check). Gives the record for the core to verify, whose reply
/// `hop_verify_reach_record_reply` tells.
pub fn hop_verify_reach_record(bytes: Option<&[u8]>, now_secs: u64) -> (call: VerifyCall)
    ensures
        call.bytes@ == slice_bytes(bytes),
        call.now == clock(now_secs),
{
    verify_reach_record(slice(bytes), now_secs)
}

/// A verified record for the sink.
#[derive(Debug)]
pub struct ReachRow {
    pub address: [u8; 32],
    /// A C string, without the NUL that ends it.
    pub endpoint: Vec<u8>,
    pub issued_at: u64,
    pub ttl_secs: u32,
}

impl ReachRow {
    pub open spec fn shows(self, claim: ReachClaim) -> bool {
        &&& self.address@ == claim.address@
        &&& self.endpoint@ == without_nuls(encode_utf8(claim.endpoint@))
        &&& self.issued_at == claim.issued_at
        &&& self.ttl_secs == claim.ttl_secs
    }
}

/// Whether the record is valid, and what to hand to the sink, if there is one. `claim` is what a
/// valid record claims; `None` stands for a bad signature, an expired record, or a call that
/// panicked.
pub fn hop_verify_reach_record_reply(claim: Option<ReachClaim>, sink: bool) -> (told: (
    bool,
    Option<ReachRow>,
))
    ensures
        told.0 == claim is Some,
        told.1 is Some <==> claim is Some && sink,
        told.1 matches Some(row) ==> row.shows(claim->0),
{
    match claim {
        Some(c) => {
            let ReachClaim { address, endpoint, issued_at, ttl_secs } = c;
            if sink {
                let endpoint = c_string_lossy(endpoint);
                (true, Some(ReachRow { address, endpoint, issued_at, ttl_secs }))
            } else {
                (true, None)
            }
        },
        None => (false, None),
    }
}

} // verus!
