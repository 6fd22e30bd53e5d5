//! What goes in at one end comes out at the other.
//!
//! Each law follows something through the whole surface: from the host's arguments, by way of the
//! call that the mesh core is handed and the value that it hands out, to what a host reads. Where the
//! core stands in between, it carries what it was handed, and the law says what the surface makes of
//! that, field by field.
use vstd::prelude::*;
use vstd::utf8::{encode_utf8, valid_utf8};

use crate::base58::{is_base58, law_base58_decodes_to_one_address};
use crate::bytes::{hex_char, is_key};
use crate::cabi::{
    c_text, c_written, given_request, is_abi_direct_send, is_abi_send, is_abi_service_request,
    is_abi_service_response, is_c_text, names_an_address, overwritten, role_of, slice_bytes, InboxRow,
    ReachRow, RequestRow,
};
use crate::error::FfiError;
use crate::hps::{
    core_access, core_kind, core_visibility, HpsAccess, HpsInvite, HpsKind, HpsMessage, HpsMyTopic,
    HpsTopicInfo, HpsVisibility,
};
use crate::laws::law_content_type_is_settled;
use crate::mesh::{
    Advert, AdvertKind, BearerEvent, HnsLookup, HnsResolution, HttpRequest, HttpResponse,
    IdentityRecord, IdentitySource, InboxBundle, Message, OwnTopic, QueuedBundle,
    ReachClaim, ServiceRequest, ServiceResponse, TopicInvite, TopicMessage, TopicMeta, TraceHop,
};
use crate::messages::{
    are_hits, is_direct_call, is_inbox_of, is_message_call, told_status, BrowseCall, DirectCall,
    MessageCall, PublishCall, Tracing,
};
use crate::node::{
    asks_of_key, is_arrival, is_identity_of, is_link_down, is_link_up, is_name_setting, is_open_plan,
    is_optional_key, Build, HopNode, OpenPlan,
};
use crate::reach::{clock, ReachInfo};
use crate::records::{
    is_content_type, is_first_content_type, is_readable, is_service, HnsCacheEntry, HnsLookupResult, HnsRecord, HttpReq,
    HttpResp, IdentityInfo, InboxMessage, OutPacket, PeerLink, QueueItem, ServiceHit, ServiceReq,
    ServiceResp, TraceHopInfo,
};
use crate::reply::{tells_directed, tells_done, tells_id, tells_ids, tells_optional_id};
use crate::services::{
    is_http_response_call, is_service_response_call, HopsCall, HttpResponseCall, ServiceCall,
    ServiceResponseCall,
};
use crate::step::Step;
use crate::store_open::Phase;
use crate::text::{
    folded, is_blank_text, law_stripping_leaves_no_nul, law_stripping_nuls_is_lossless,
    same_ignoring_case,
};
use crate::topics::{
    are_keys, are_keys_of, is_drop_call, is_rekey_call, is_topic_call, DropCall, Dropped, PostCall,
    RegisterCall, RekeyCall, TopicCall, TopicDeed,
};

verus! {

// ---- messages -----------------------------------------------------------------------------------

/// An entry that passes a filter stands behind as many as passed it before.
proof fn lemma_filter_place<A>(s: Seq<A>, keep: spec_fn(A) -> bool, k: int)
    requires
        0 <= k < s.len(),
        keep(s[k]),
    ensures
        s.take(k).filter(keep).len() < s.filter(keep).len(),
        s.filter(keep)[s.take(k).filter(keep).len() as int] == s[k],
{
    let (front, back) = (s.take(k + 1), s.skip(k + 1));
    assert(s =~= front + back);
    Seq::filter_distributes_over_add(front, back, keep);
    assert(front.filter(keep) == s.take(k).filter(keep).push(s[k])) by {
        reveal(Seq::filter);
        assert(front.drop_last() =~= s.take(k));
    }
}

/// The inbox tells every message that could be read as it is: the message of bundle `k` stands
/// behind those of the readable bundles before it, with the sender, content type and body that it
/// was read with, the bundle's hops and time, and one trace hop for each of the bundle's.
pub proof fn law_inbox_tells_each_message(
    inbox: Seq<InboxMessage>,
    bundles: Seq<InboxBundle>,
    relay: Seq<u8>,
    fabric: Seq<u8>,
    k: int,
    m: Message,
)
    requires
        is_inbox_of(inbox, bundles, relay, fabric),
        0 <= k < bundles.len(),
        bundles[k].read == Ok::<Option<Message>, String>(Some(m)),
    ensures
        ({
            let i = bundles.take(k).filter(
                |b: InboxBundle| b.read matches Ok(Some(_)),
            ).len() as int;
            &&& 0 <= i < inbox.len()
            &&& inbox[i].from@ == m.from@
            &&& inbox[i].content_type@ == m.content_type@
            &&& inbox[i].body@ == m.body@
            &&& inbox[i].hops == bundles[k].hops
            &&& inbox[i].created_at == bundles[k].created_at
            &&& inbox[i].trace@.len() == bundles[k].trace@.len()
            &&& forall|j: int|
                0 <= j < inbox[i].trace@.len() ==> (#[trigger] inbox[i].trace@[j]).node@
                    == bundles[k].trace@[j].node@
        }),
{
    let keep = |b: InboxBundle| is_readable(b);
    let plain = |b: InboxBundle| b.read matches Ok(Some(_));
    assert(keep =~= plain);
    lemma_filter_place(bundles, keep, k);
    let i = bundles.take(k).filter(keep).len() as int;
    assert(inbox[i].shows(bundles[k], relay, fabric));
    assert forall|j: int| 0 <= j < inbox[i].trace@.len() implies (#[trigger] inbox[i].trace@[j]).node@
        == bundles[k].trace@[j].node@ by {
        assert(inbox[i].trace@[j].shows(bundles[k].trace@[j], relay, fabric));
    }
}

/// The inbox has one message for each bundle that could be read, and no other.
pub proof fn law_inbox_is_complete(
    inbox: Seq<InboxMessage>,
    bundles: Seq<InboxBundle>,
    relay: Seq<u8>,
    fabric: Seq<u8>,
)
    requires
        is_inbox_of(inbox, bundles, relay, fabric),
    ensures
        inbox.len() == bundles.filter(|b: InboxBundle| b.read matches Ok(Some(_))).len(),
{
    let keep = |b: InboxBundle| is_readable(b);
    let plain = |b: InboxBundle| b.read matches Ok(Some(_));
    assert(keep =~= plain);
}

/// Two messages are told apart in the inbox wherever they differ: in their sender, content type,
/// body, hops or time.
pub proof fn law_messages_are_told_apart(
    a: InboxMessage,
    b: InboxMessage,
    x: InboxBundle,
    y: InboxBundle,
    m: Message,
    n: Message,
    relay: Seq<u8>,
    fabric: Seq<u8>,
)
    requires
        a.shows(x, relay, fabric) && x.read == Ok::<Option<Message>, String>(Some(m)),
        b.shows(y, relay, fabric) && y.read == Ok::<Option<Message>, String>(Some(n)),
    ensures
        a.from@ == b.from@ <==> m.from@ == n.from@,
        a.content_type@ == b.content_type@ <==> m.content_type@ == n.content_type@,
        a.body@ == b.body@ <==> m.body@ == n.body@,
        a.hops == b.hops <==> x.hops == y.hops,
        a.created_at == b.created_at <==> x.created_at == y.created_at,
{
}

/// A message that was sent across the mesh is read as it was sent, where the core hands it out as it
/// was handed it: with the content type and the body that the sender gave, from the sender. It goes
/// to whom it was sent, on the path that was chosen.
pub proof fn law_messages_arrive_as_sent(
    tracing: Tracing,
    dst: Seq<u8>,
    content_type: Seq<char>,
    body: Seq<u8>,
    request_ack: bool,
    call: MessageCall,
    m: Message,
    bundle: InboxBundle,
    relay: Seq<u8>,
    fabric: Seq<u8>,
    received: InboxMessage,
)
    requires
        is_message_call(Ok(call), tracing, dst, content_type, body, request_ack),
        m.content_type@ == call.content_type@ && m.body@ == call.body@,
        bundle.read == Ok::<Option<Message>, String>(Some(m)),
        received.shows(bundle, relay, fabric),
    ensures
        call.tracing == tracing,
        call.dst@ == dst,
        call.request_ack == request_ack,
        received.content_type@ == content_type,
        received.body@ == body,
        received.from@ == m.from@,
{
}

/// The same of a message to a directly-connected peer.
pub proof fn law_direct_messages_arrive_as_sent(
    peer: Seq<u8>,
    content_type: Seq<char>,
    body: Seq<u8>,
    request_ack: bool,
    call: DirectCall,
    m: Message,
    bundle: InboxBundle,
    relay: Seq<u8>,
    fabric: Seq<u8>,
    received: InboxMessage,
)
    requires
        is_direct_call(Ok(call), peer, content_type, body, request_ack),
        m.content_type@ == call.content_type@ && m.body@ == call.body@,
        bundle.read == Ok::<Option<Message>, String>(Some(m)),
        received.shows(bundle, relay, fabric),
    ensures
        call.peer@ == peer,
        call.request_ack == request_ack,
        received.content_type@ == content_type,
        received.body@ == body,
        received.from@ == m.from@,
{
}

/// The core is asked to send exactly if the destination is 32 bytes long; otherwise the host is told
/// that the key is bad.
pub proof fn law_sends_need_an_address(
    tracing: Tracing,
    dst: Seq<u8>,
    content_type: Seq<char>,
    body: Seq<u8>,
    request_ack: bool,
    call: Result<MessageCall, FfiError>,
    direct: Result<DirectCall, FfiError>,
)
    requires
        is_message_call(call, tracing, dst, content_type, body, request_ack),
        is_direct_call(direct, dst, content_type, body, request_ack),
    ensures
        call is Ok <==> dst.len() == 32,
        direct is Ok <==> dst.len() == 32,
        call matches Err(e) ==> e is BadKey,
        direct matches Err(e) ==> e is BadKey,
{
}

/// What the ABI asks the core to send, untraceably, is what its caller's pointers stand for: the 32
/// bytes of `dst`, the text that the bytes of `content_type` encode, and the bytes of `body`, which
/// are none for NULL. It asks exactly if none of the others is NULL and the content type is UTF-8.
pub proof fn law_abi_sends_what_it_is_given(
    step: Step<MessageCall, bool>,
    node: Option<&HopNode>,
    dst: Option<[u8; 32]>,
    content_type: Option<&[u8]>,
    body: Option<&[u8]>,
    request_ack: bool,
)
    requires
        is_abi_send(step, node, dst, content_type, body, request_ack),
    ensures
        step is Ask <==> node is Some && dst is Some && content_type is Some && valid_utf8(
            content_type->0@,
        ),
        step matches Step::Answer(sent) ==> !sent,
        step matches Step::Ask(call) ==> {
            &&& call.tracing is Untraceable
            &&& call.dst@ == dst->0@
            &&& encode_utf8(call.content_type@) == content_type->0@
            &&& body matches Some(bytes) ==> call.body@ == bytes@
            &&& body is None ==> call.body@.len() == 0
            &&& call.request_ack == request_ack
        },
{
    if content_type is Some && valid_utf8(content_type->0@) {
        vstd::utf8::decode_utf8_encode_utf8(content_type->0@);
    }
}

/// The same of a directed send.
pub proof fn law_abi_sends_directly_what_it_is_given(
    step: Step<DirectCall, bool>,
    node: Option<&HopNode>,
    dst: Option<[u8; 32]>,
    content_type: Option<&[u8]>,
    body: Option<&[u8]>,
    request_ack: bool,
)
    requires
        is_abi_direct_send(step, node, dst, content_type, body, request_ack),
    ensures
        step is Ask <==> node is Some && dst is Some && content_type is Some && valid_utf8(
            content_type->0@,
        ),
        step matches Step::Answer(sent) ==> !sent,
        step matches Step::Ask(call) ==> {
            &&& call.peer@ == dst->0@
            &&& encode_utf8(call.content_type@) == content_type->0@
            &&& body matches Some(bytes) ==> call.body@ == bytes@
            &&& body is None ==> call.body@.len() == 0
            &&& call.request_ack == request_ack
        },
{
    if content_type is Some && valid_utf8(content_type->0@) {
        vstd::utf8::decode_utf8_encode_utf8(content_type->0@);
    }
}

/// The two surfaces are one for directed sends too: what the ABI asks the core to send is what the
/// node asks it to send for the same arguments.
pub proof fn law_abi_direct_sends_are_node_sends(
    step: Step<DirectCall, bool>,
    call: Result<DirectCall, FfiError>,
    node: Option<&HopNode>,
    dst: Option<[u8; 32]>,
    content_type: Option<&[u8]>,
    body: Option<&[u8]>,
    request_ack: bool,
)
    requires
        is_abi_direct_send(step, node, dst, content_type, body, request_ack),
        node is Some,
        dst is Some,
        is_c_text(content_type),
        is_direct_call(
            call,
            dst->0@,
            c_text(content_type),
            match body {
                Some(bytes) => bytes@,
                None => Seq::empty(),
            },
            request_ack,
        ),
    ensures
        step is Ask && call is Ok,
        step->Ask_0.peer@ == call->Ok_0.peer@,
        step->Ask_0.content_type@ == call->Ok_0.content_type@,
        step->Ask_0.body@ == call->Ok_0.body@,
        step->Ask_0.request_ack == call->Ok_0.request_ack,
{
}

/// A row of the inbox sink tells the message: the same sender, body, hops and time, and a C string
/// that reads back as the content type, if that holds no NUL.
pub proof fn law_inbox_rows_tell_the_message(row: InboxRow, message: InboxMessage)
    requires
        row.shows(message),
    ensures
        row.from@ == message.from@,
        row.body@ == message.body@,
        row.hops == message.hops,
        row.created_at == message.created_at,
        (forall|i: int| 0 <= i < message.content_type@.len() ==> #[trigger] message.content_type@[i]
            != '\0') ==> row.content_type@ == encode_utf8(message.content_type@),
        forall|i: int| 0 <= i < row.content_type@.len() ==> #[trigger] row.content_type@[i] != 0,
{
    law_stripping_leaves_no_nul(encode_utf8(message.content_type@));
    if forall|i: int| 0 <= i < message.content_type@.len() ==> #[trigger] message.content_type@[i]
        != '\0' {
        law_stripping_nuls_is_lossless(message.content_type@);
    }
}

/// The status of a message is told as the core keeps it, delivered or not, so that any two statuses
/// that differ are told apart; a message that is not known has been handed to nobody and is not
/// delivered.
pub proof fn law_statuses_are_told_apart(
    relayed: u32,
    delivered: bool,
    hops: u8,
    ms: u32,
    other: Option<(u32, bool, u8, u32)>,
)
    ensures
        ({
            let status = told_status(Some((relayed, delivered, hops, ms)));
            &&& status.relayed == relayed
            &&& status.delivered == delivered
            &&& status.delivery_hops == hops
            &&& status.delivery_ms == ms
            &&& status == told_status(other) <==> (other == Some((relayed, delivered, hops, ms)) || (
            other is None && relayed == 0 && !delivered && hops == 0 && ms == 0))
        }),
        told_status(None).relayed == 0,
        !told_status(None).delivered,
        told_status(None).delivery_hops == 0,
        told_status(None).delivery_ms == 0,
{
}

/// The core is asked of 32 bytes, and of these very bytes; of anything else it is not.
pub proof fn law_questions_are_of_the_key_given<T>(
    step: Step<[u8; 32], T>,
    key: Seq<u8>,
    otherwise: T,
)
    requires
        asks_of_key(step, key, otherwise),
    ensures
        step is Ask <==> key.len() == 32,
        step matches Step::Ask(k) ==> k@ == key,
        step matches Step::Answer(t) ==> t == otherwise,
{
}

/// An id that the core gave is told as its bytes, and a refusal in the core's own words: replies that
/// differ are told apart.
pub proof fn law_replies_are_told_apart(
    a: Result<Vec<u8>, FfiError>,
    b: Result<Vec<u8>, FfiError>,
    x: Result<[u8; 32], String>,
    y: Result<[u8; 32], String>,
)
    requires
        tells_id(a, x),
        tells_id(b, y),
    ensures
        a is Ok <==> x is Ok,
        x matches Ok(id) ==> a->Ok_0@ == id@,
        x matches Err(cause) ==> (a->Err_0 matches FfiError::Hop(told) && told@ == cause@),
        (a is Ok && b is Ok) ==> (a->Ok_0@ == b->Ok_0@ <==> x->Ok_0@ == y->Ok_0@),
{
}

/// The message of an error names its cause: the core's own words, behind a fixed prefix, and for a
/// bad key the length that is wanted.
pub proof fn law_errors_name_their_cause(cause: String)
    ensures
        FfiError::Hop(cause).text().take(11) == "hop error: "@,
        FfiError::Hop(cause).text().skip(11) == cause@,
        FfiError::BadKey.text() == "invalid key length (want 32 bytes)"@,
{
    reveal_strlit("hop error: ");
    assert(FfiError::Hop(cause).text().take(11) =~= "hop error: "@);
    assert(FfiError::Hop(cause).text().skip(11) =~= cause@);
}

/// An item of the relay queue tells the bundle; internet egress has no destination.
pub proof fn law_queue_items_tell_the_bundle(item: QueueItem, bundle: QueuedBundle)
    requires
        item.shows(bundle),
    ensures
        item.id@ == bundle.id@,
        item.own == bundle.own,
        bundle.to matches Some(to) ==> item.to@ == to@,
        bundle.to is None ==> item.to@.len() == 0,
        item.priority == bundle.priority,
        item.hops == bundle.hops,
{
}

/// A hop of a trace is told by its address and by the app that carried it: the relay app and the
/// fabric app by name, any other by its hexadecimal digits, which tell it from every other.
pub proof fn law_trace_hops_are_told(
    record: TraceHopInfo,
    hop: TraceHop,
    relay: [u8; 8],
    fabric: [u8; 8],
)
    requires
        record.shows(hop, relay@, fabric@),
    ensures
        record.node@ == hop.node@,
        hop.app@ == relay@ ==> record.app_label@ == "Hop Relay"@,
        hop.app@ != relay@ && hop.app@ == fabric@ ==> record.app_label@ == "device"@,
        hop.app@ != relay@ && hop.app@ != fabric@ ==> record.app_label@.len() == 16 && forall|i: int|
            0 <= i < 8 ==> hex_pair(record.app_label@, i) == #[trigger] hop.app@[i],
{
    assert forall|i: int| 0 <= i < 8 && hop.app@ != relay@ && hop.app@ != fabric@ implies hex_pair(
        record.app_label@,
        i,
    ) == #[trigger] hop.app@[i] by {
        let b = hop.app@[i];
        assert(record.app_label@[2 * i] == hex_char(b as int / 16));
        assert(record.app_label@[2 * i + 1] == hex_char(b as int % 16));
    }
}

/// The value of a small hexadecimal digit.
pub open spec fn hex_value(c: char) -> int {
    if '0' <= c <= '9' {
        c as int - '0' as int
    } else if 'a' <= c <= 'f' {
        c as int - 'a' as int + 10
    } else {
        -1000
    }
}

/// The byte that the digits of pair `i` write.
pub open spec fn hex_pair(text: Seq<char>, i: int) -> int {
    hex_value(text[2 * i]) * 16 + hex_value(text[2 * i + 1])
}

/// Bytes that one node drained for a link are received on a link as they were drained.
pub proof fn law_packets_are_told(record: OutPacket, packet: (u64, Vec<u8>))
    requires
        record.shows(packet),
    ensures
        record.link == packet.0,
        record.bytes@ == packet.1@,
{
}

/// A link to a peer is told by the peer's address and the link's id.
pub proof fn law_peer_links_are_told(record: PeerLink, link: ([u8; 32], u64))
    requires
        record.shows(link),
    ensures
        record.address@ == link.0@,
        record.link == link.1,
{
}

// ---- services -----------------------------------------------------------------------------------

/// A `hops://` request reaches the gateway as the client made it, where the core delivers it as it
/// was asked to send it: the same host, method, path, body and limit. It goes to the endpoint that
/// the client named, without a header.
pub proof fn law_http_requests_arrive_as_made(
    endpoint: Seq<u8>,
    host: Seq<char>,
    method: Seq<char>,
    url: Seq<char>,
    body: Seq<u8>,
    max_resp: u32,
    call: HopsCall,
    request: HttpRequest,
    record: HttpReq,
)
    requires
        call.carries(endpoint, host, method, url, body, max_resp),
        request.host@ == call.host@ && request.method@ == call.method@ && request.url@ == call.url@,
        request.body@ == call.body@ && request.max_resp == call.max_resp,
        record.shows(request),
    ensures
        call.endpoint@ == endpoint,
        call.headers@.len() == 0,
        record.host@ == host,
        record.method@ == method,
        record.url@ == url,
        record.body@ == body,
        record.max_resp == max_resp,
        record.from@ == request.from@,
        record.request_id@ == request.id@,
{
}

/// An HTTP response reaches the requester as the gateway made it, where the core delivers it as it
/// was asked to seal it: the same status and body, for the same request, and without a content type,
/// since no header is sent. It is sealed exactly if both keys are 32 bytes long.
pub proof fn law_http_responses_arrive_as_made(
    to: Seq<u8>,
    for_id: Seq<u8>,
    status: u16,
    body: Seq<u8>,
    call: Result<HttpResponseCall, FfiError>,
    response: HttpResponse,
    record: HttpResp,
)
    requires
        is_http_response_call(call, to, for_id, status, body),
        call matches Ok(c) ==> response.for_id@ == c.for_id@ && response.status == c.status
            && response.headers@ == c.headers@ && response.body@ == c.body@,
        record.shows(response),
    ensures
        call is Ok <==> to.len() == 32 && for_id.len() == 32,
        call matches Err(e) ==> e is BadKey,
        call matches Ok(c) ==> {
            &&& c.to@ == to
            &&& record.for_request_id@ == for_id
            &&& record.status == status
            &&& record.content_type@.len() == 0
            &&& record.body@ == body
        },
        record.from@ == response.from@,
{
}

/// Whatever headers a response came with, it is told with the value of the first one that is called
/// `content-type` in any case, and without one if there is none.
pub proof fn law_content_types_are_read_from_the_headers(
    record: HttpResp,
    response: HttpResponse,
    i: int,
)
    requires
        record.shows(response),
        0 <= i <= response.headers@.len(),
        forall|j: int|
            0 <= j < i ==> !same_ignoring_case(
                (#[trigger] response.headers@[j]).0@,
                "content-type"@,
            ),
        i < response.headers@.len() ==> same_ignoring_case(
            response.headers@[i].0@,
            "content-type"@,
        ),
    ensures
        i < response.headers@.len() ==> record.content_type@ == response.headers@[i].1@,
        i == response.headers@.len() ==> record.content_type@.len() == 0,
        record.from@ == response.from@,
        record.for_request_id@ == response.for_id@,
        record.status == response.status,
        record.body@ == response.body@,
{
    let headers = response.headers@;
    if i < headers.len() {
        assert(is_first_content_type(headers, i));
        assert(is_content_type(headers, headers[i].1@));
        law_content_type_is_settled(headers, record.content_type@, headers[i].1@);
    }
}

/// Two texts are the same in any case exactly if they are as long as each other and each character
/// of one is that of the other, or the other case of the same ASCII letter.
pub proof fn law_case_is_that_of_ascii_letters(a: Seq<char>, b: Seq<char>)
    ensures
        same_ignoring_case(a, b) <==> a.len() == b.len() && forall|i: int|
            0 <= i < a.len() ==> {
                ||| #[trigger] a[i] == b[i]
                ||| 'A' <= a[i] <= 'Z' && b[i] as int == a[i] as int + 32
                ||| 'A' <= b[i] <= 'Z' && a[i] as int == b[i] as int + 32
            },
{
    if same_ignoring_case(a, b) {
        assert forall|i: int| 0 <= i < a.len() implies {
            ||| #[trigger] a[i] == b[i]
            ||| 'A' <= a[i] <= 'Z' && b[i] as int == a[i] as int + 32
            ||| 'A' <= b[i] <= 'Z' && a[i] as int == b[i] as int + 32
        } by {
            assert(folded(a[i]) == folded(b[i]));
            if a[i] as int == b[i] as int {
                assert(a[i] == b[i]);
            }
        }
    }
}

/// A service request reaches the host as the caller made it, where the core delivers it as it was
/// asked to send it: the same service, method and arguments, in the record and, where there is no
/// NUL in it, in the C string of the row for the sink. It goes to whom the caller named.
pub proof fn law_service_requests_arrive_as_made(
    dst: Seq<u8>,
    service: Seq<char>,
    method: Seq<char>,
    args: Seq<u8>,
    call: ServiceCall,
    request: ServiceRequest,
    record: ServiceReq,
    row: RequestRow,
)
    requires
        call.carries(dst, service, method, args),
        request.service@ == call.service@ && request.method@ == call.method@ && request.args@
            == call.args@,
        record.shows(request),
        row.shows(record),
    ensures
        call.dst@ == dst,
        record.service@ == service,
        record.method@ == method,
        record.args@ == args,
        record.from@ == request.from@,
        record.request_id@ == request.id@,
        row.from@ == request.from@,
        row.request_id@ == request.id@,
        row.args@ == args,
        (forall|i: int| 0 <= i < service.len() ==> #[trigger] service[i] != '\0') ==> row.service@
            == encode_utf8(service),
        (forall|i: int| 0 <= i < method.len() ==> #[trigger] method[i] != '\0') ==> row.method@
            == encode_utf8(method),
{
    if forall|i: int| 0 <= i < service.len() ==> #[trigger] service[i] != '\0' {
        law_stripping_nuls_is_lossless(service);
    }
    if forall|i: int| 0 <= i < method.len() ==> #[trigger] method[i] != '\0' {
        law_stripping_nuls_is_lossless(method);
    }
}

/// A service response reaches the caller as the host made it, where the core delivers it as it was
/// asked to seal it: the same status and body, for the same request. It is sealed exactly if both
/// keys are 32 bytes long.
pub proof fn law_service_responses_arrive_as_made(
    to: Seq<u8>,
    for_id: Seq<u8>,
    status: u16,
    body: Seq<u8>,
    call: Result<ServiceResponseCall, FfiError>,
    response: ServiceResponse,
    record: ServiceResp,
)
    requires
        is_service_response_call(call, to, for_id, status, body),
        call matches Ok(c) ==> response.for_id@ == c.for_id@ && response.status == c.status
            && response.body@ == c.body@,
        record.shows(response),
    ensures
        call is Ok <==> to.len() == 32 && for_id.len() == 32,
        call matches Err(e) ==> e is BadKey,
        call matches Ok(c) ==> {
            &&& c.to@ == to
            &&& record.for_request_id@ == for_id
            &&& record.status == status
            &&& record.body@ == body
        },
        record.from@ == response.from@,
{
}

/// A service is found as it was published, where the core gossips the advert as it was asked to
/// publish it: the same service, title, summary and tags, by its publisher, as many hops away and as
/// old as the advert is.
pub proof fn law_services_are_found_as_published(
    service: Seq<char>,
    title: Seq<char>,
    summary: Seq<char>,
    tags: Seq<String>,
    ttl_ms: u32,
    call: PublishCall,
    adverts: Seq<Advert>,
    hits: Seq<ServiceHit>,
    k: int,
)
    requires
        call.announces(service, title, summary, tags, ttl_ms),
        are_hits(hits, adverts),
        0 <= k < adverts.len(),
        adverts[k].kind == (AdvertKind::Service {
            service: call.service,
            title: call.title,
            summary: call.summary,
            tags: call.tags,
        }),
    ensures
        call.ttl_ms == ttl_ms,
        ({
            let i = adverts.take(k).filter(|a: Advert| a.kind is Service).len() as int;
            &&& 0 <= i < hits.len()
            &&& hits[i].service@ == service
            &&& hits[i].title@ == title
            &&& hits[i].summary@ == summary
            &&& hits[i].tags@ == tags
            &&& hits[i].publisher@ == adverts[k].publisher@
            &&& hits[i].hops == adverts[k].hops
            &&& hits[i].created_at == adverts[k].created_at
        }),
        hits.len() == adverts.filter(|a: Advert| a.kind is Service).len(),
{
    let keep = |a: Advert| is_service(a);
    let plain = |a: Advert| a.kind is Service;
    assert(keep =~= plain);
    lemma_filter_place(adverts, keep, k);
    assert(hits[adverts.take(k).filter(keep).len() as int].shows(adverts[k]));
}

/// A node's identity is told as it answered: its address, the name it set or none, and its kind by
/// its own word.
pub proof fn law_identities_are_told(info: IdentityInfo, record: IdentityRecord)
    requires
        info.shows(record),
    ensures
        info.address@ == record.address@,
        record.name matches Some(name) ==> info.name@ == name@,
        record.name is None ==> info.name@.len() == 0,
        record.kind is Device <==> info.kind@ == "device"@,
        record.kind is Relay <==> info.kind@ == "relay"@,
        record.kind is Gateway <==> info.kind@ == "gateway"@,
        record.kind is Endpoint <==> info.kind@ == "endpoint"@,
{
    reveal_strlit("device");
    reveal_strlit("relay");
    reveal_strlit("gateway");
    reveal_strlit("endpoint");
    assert("device"@[0] == 'd' && "relay"@[0] == 'r' && "gateway"@[0] == 'g' && "endpoint"@[0]
        == 'e');
}

/// A name that was set is the name that others are told, where the core answers with what it was
/// handed; a name that was cleared is told as none.
pub proof fn law_names_are_told_to_others(
    name: Seq<char>,
    set: Option<String>,
    record: IdentityRecord,
    info: IdentityInfo,
)
    requires
        is_name_setting(set, name),
        record.name == set,
        info.shows(record),
    ensures
        info.name@ == name,
        set is Some <==> name.len() > 0,
{
    if set is None {
        assert(info.name@ =~= name);
    }
}

/// A finished resolution is told with its domain and its address, or without one.
pub proof fn law_resolutions_are_told(record: HnsRecord, resolution: HnsResolution)
    requires
        record.shows(resolution),
    ensures
        record.domain@ == resolution.domain@,
        resolution.address matches Some(a) ==> record.address@ == a@,
        resolution.address is None ==> record.address@.len() == 0,
{
}

/// How a lookup started is told as it is: a cached address as its bytes, a cached negative as none.
pub proof fn law_lookups_are_told(result: HnsLookupResult, lookup: HnsLookup)
    requires
        result.shows(lookup),
    ensures
        result is Cached <==> lookup is Cached,
        result is Pending <==> lookup is Pending,
        result is NeedsResolver <==> lookup is NeedsResolver,
        lookup matches HnsLookup::Cached(Some(a)) ==> result->address@ == a@,
        lookup == HnsLookup::Cached(None) ==> result->address@.len() == 0,
{
}

/// A cache entry is told with the whole seconds that it has left, unless these need more than 32
/// bits.
pub proof fn law_cache_entries_are_told(
    record: HnsCacheEntry,
    entry: (String, Option<[u8; 32]>, u64),
)
    requires
        record.shows(entry),
    ensures
        record.domain@ == entry.0@,
        entry.1 matches Some(a) ==> record.address@ == a@,
        entry.1 is None ==> record.address@.len() == 0,
        entry.2 < 4_294_967_296_000 ==> record.ttl_secs * 1000 <= entry.2 < (record.ttl_secs + 1)
            * 1000,
{
}

/// A verified record is told with all that it claims, as a record and as a row for the sink; the
/// clock is left out exactly for 0.
pub proof fn law_claims_are_told(
    claim: ReachClaim,
    info: ReachInfo,
    row: ReachRow,
    now_secs: u64,
)
    requires
        info.shows(Some(claim)),
        row.shows(claim),
    ensures
        info.valid,
        info.address@ == claim.address@ && row.address@ == claim.address@,
        info.endpoint@ == claim.endpoint@,
        info.issued_at == claim.issued_at && row.issued_at == claim.issued_at,
        info.ttl_secs == claim.ttl_secs && row.ttl_secs == claim.ttl_secs,
        (forall|i: int| 0 <= i < claim.endpoint@.len() ==> #[trigger] claim.endpoint@[i] != '\0')
            ==> row.endpoint@ == encode_utf8(claim.endpoint@),
        clock(now_secs) is None <==> now_secs == 0,
        now_secs > 0 ==> clock(now_secs) == Some(now_secs),
{
    if forall|i: int| 0 <= i < claim.endpoint@.len() ==> #[trigger] claim.endpoint@[i] != '\0' {
        law_stripping_nuls_is_lossless(claim.endpoint@);
    }
}

/// Of a record that does not verify, nothing is told.
pub proof fn law_nothing_is_told_of_a_bad_record(info: ReachInfo)
    requires
        info.shows(None),
    ensures
        !info.valid,
        info.address@.len() == 0,
        info.endpoint@.len() == 0,
        info.issued_at == 0,
        info.ttl_secs == 0,
{
}

// ---- topics -------------------------------------------------------------------------------------

/// The surface and the core call kinds, access modes and visibilities by the same words.
pub proof fn law_the_core_has_the_same_words(k: HpsKind, a: HpsAccess, v: HpsVisibility)
    ensures
        k is Channel <==> core_kind(k) is Channel,
        k is Service <==> core_kind(k) is Service,
        a is Open <==> core_access(a) is Open,
        a is RequestToJoin <==> core_access(a) is RequestToJoin,
        a is Invite <==> core_access(a) is Invite,
        v is Private <==> core_visibility(v) is Private,
        v is Discoverable <==> core_visibility(v) is Discoverable,
{
}

/// A topic reads back as it was registered, where the core lists it as it was asked to register it:
/// with the same path, kind and access, among one's own topics and, to others, among those to
/// discover. Services and channels are told apart, and so are the access modes. It is announced
/// exactly if it was registered as discoverable.
pub proof fn law_topics_read_back_as_registered(
    path: Seq<char>,
    kind: HpsKind,
    access: HpsAccess,
    visibility: HpsVisibility,
    call: RegisterCall,
    own: OwnTopic,
    mine: HpsMyTopic,
    host: [u8; 32],
    meta: TopicMeta,
    found: HpsTopicInfo,
)
    requires
        call.registers(path, kind, access, visibility),
        own.path@ == call.path@ && own.kind == call.kind && own.access == call.access,
        mine.shows(own),
        meta.path@ == call.path@ && meta.kind == call.kind && meta.access == call.access,
        found.shows((host, meta)),
    ensures
        mine.path@ == path,
        mine.kind == kind,
        mine.access == access,
        mine.hosting == own.hosting,
        mine.host@ == own.host@,
        found.path@ == path,
        found.kind == kind,
        found.access == access,
        found.host@ == host@,
        found.title@ == meta.title@,
        found.summary@ == meta.summary@,
        call.visibility is Discoverable <==> visibility is Discoverable,
        call.kind is Service <==> kind is Service,
{
    law_the_core_has_the_same_words(kind, access, visibility);
    law_the_core_has_the_same_words(mine.kind, mine.access, visibility);
    law_the_core_has_the_same_words(found.kind, found.access, visibility);
}

/// An own topic is told by the core's words for it.
pub proof fn law_own_topics_are_told(mine: HpsMyTopic, own: OwnTopic)
    requires
        mine.shows(own),
    ensures
        mine.host@ == own.host@,
        mine.path@ == own.path@,
        mine.kind is Channel <==> own.kind is Channel,
        mine.kind is Service <==> own.kind is Service,
        mine.hosting == own.hosting,
        mine.access is Open <==> own.access is Open,
        mine.access is RequestToJoin <==> own.access is RequestToJoin,
        mine.access is Invite <==> own.access is Invite,
{
}

/// An invite reaches the invited as it was made, where the core delivers it for the topic it was
/// asked to: with the topic's path, its kind and its host.
pub proof fn law_invites_arrive_as_made(
    path: Seq<char>,
    dest: Seq<u8>,
    kind: HpsKind,
    call: TopicCall,
    invite: TopicInvite,
    record: HpsInvite,
)
    requires
        is_topic_call(Ok(call), TopicDeed::Invite, path, dest),
        invite.path@ == call.path@ && invite.kind == core_kind(kind),
        record.shows(invite),
    ensures
        call.deed is Invite,
        call.peer@ == dest,
        record.path@ == path,
        record.kind == kind,
        record.host@ == invite.host@,
        record.kind is Channel <==> invite.kind is Channel,
{
}

/// What was published to a topic is read from it as it was published, where the core delivers it as
/// it was asked to: the same path and body, by its sender.
pub proof fn law_posts_arrive_as_published(
    path: Seq<char>,
    body: Seq<u8>,
    call: PostCall,
    message: TopicMessage,
    record: HpsMessage,
)
    requires
        call.posts(path, body),
        message.path@ == call.path@ && message.body@ == call.body@,
        record.shows(message),
    ensures
        record.path@ == path,
        record.body@ == body,
        record.sender@ == message.sender@,
{
}

/// What is asked of the core about a topic and a peer is what was meant, of the topic and the peer
/// that were named, exactly if the peer is named by 32 bytes.
pub proof fn law_topic_calls_do_what_was_meant(
    deed: TopicDeed,
    dropped: Dropped,
    path: Seq<char>,
    peer: Seq<u8>,
    call: Result<TopicCall, FfiError>,
    drop: Result<DropCall, FfiError>,
)
    requires
        is_topic_call(call, deed, path, peer),
        is_drop_call(drop, dropped, path, peer),
    ensures
        call is Ok <==> peer.len() == 32,
        drop is Ok <==> peer.len() == 32,
        call matches Ok(c) ==> c.deed == deed && c.path@ == path && c.peer@ == peer,
        drop matches Ok(d) ==> d.dropped == dropped && d.path@ == path && d.peer@ == peer,
        call matches Err(e) ==> e is BadKey,
        drop matches Err(e) ==> e is BadKey,
{
}

/// A list of keys is told as their bytes, one by one and in order, and a list of bytes is taken as
/// keys exactly if each entry is 32 bytes long.
pub proof fn law_key_lists_keep_every_entry(
    keys: Seq<[u8; 32]>,
    addresses: Seq<Vec<u8>>,
    others: Seq<Vec<u8>>,
    i: int,
)
    requires
        are_keys_of(keys, addresses),
        0 <= i < keys.len(),
    ensures
        keys.len() == addresses.len(),
        keys[i]@ == addresses[i]@,
        addresses[i]@.len() == 32,
        are_keys(others) <==> forall|j: int|
            0 <= j < others.len() ==> (#[trigger] others[j])@.len() == 32,
{
    assert(keys[i]@ == addresses[i]@);
    assert(keys[i]@.len() == 32);
    if are_keys(others) {
        assert forall|j: int| 0 <= j < others.len() implies (#[trigger] others[j])@.len() == 32 by {
            assert(is_key(others[j]@));
        }
    }
}

// ---- opening ------------------------------------------------------------------------------------

/// A saved secret of 32 bytes is the node's identity, and anything else makes a fresh one; an app
/// secret of 32 bytes is the app's, and anything else is none.
pub proof fn law_secrets_are_taken_as_they_are(
    source: IdentitySource,
    secret: Seq<u8>,
    key: Option<[u8; 32]>,
    app_secret: Seq<u8>,
)
    requires
        is_identity_of(source, secret),
        is_optional_key(key, app_secret),
    ensures
        source is Saved <==> secret.len() == 32,
        source matches IdentitySource::Saved(s) ==> s@ == secret,
        key is Some <==> app_secret.len() == 32,
        key matches Some(k) ==> k@ == app_secret,
{
}

/// A plan takes each of its parts from the argument that is for it: the identity from the secret, the
/// app from the app secret, and, on the full build alone, the store from the path and the key.
pub proof fn law_plans_take_each_part_from_its_argument(
    plan: OpenPlan,
    path: Seq<char>,
    secret: Seq<u8>,
    app_secret: Seq<u8>,
    key: Seq<u8>,
    build: Build,
)
    requires
        is_open_plan(plan, path, secret, app_secret, key, build),
    ensures
        plan.identity is Saved <==> secret.len() == 32,
        plan.identity matches IdentitySource::Saved(s) ==> s@ == secret,
        plan.app_secret is Some <==> app_secret.len() == 32,
        plan.app_secret matches Some(s) ==> s@ == app_secret,
        plan.store is Some <==> build.full,
        plan.store matches Some(opening) ==> {
            &&& opening@.path == path
            &&& opening@.key == key
            &&& opening@.sqlcipher == build.sqlcipher
            &&& opening@.phase is Open
        },
        !build.full ==> plan.persistence() == Some(false),
        build.full ==> plan.persistence() is None,
{
}

/// A plan says what became of its store: in memory without one, and otherwise what the opening ended
/// with, once it ended.
pub proof fn law_plans_tell_how_the_store_opened(plan: OpenPlan)
    ensures
        plan.store is None ==> plan.persistence() == Some(false),
        plan.store matches Some(opening) ==> (plan.persistence() is Some <==> opening@.phase is Done),
        plan.store matches Some(opening) ==> (opening@.phase matches Phase::Done { persistent }
            ==> plan.persistence() == Some(persistent)),
{
}

// ---- across the boundary ------------------------------------------------------------------------

/// A C string that was given and is UTF-8 is the text that encodes to its bytes; bytes that were
/// given are themselves, and NULL stands for none.
pub proof fn law_pointers_stand_for_their_bytes(p: Option<&[u8]>)
    ensures
        is_c_text(p) <==> p is Some && valid_utf8(p->0@),
        is_c_text(p) ==> encode_utf8(c_text(p)) == p->0@,
        p matches Some(bytes) ==> slice_bytes(p) == bytes@,
        p is None ==> slice_bytes(p).len() == 0,
{
    if is_c_text(p) {
        vstd::utf8::decode_utf8_encode_utf8(p->0@);
    }
}

/// Bytes that are written out stand at the front, and what is behind them stays.
pub proof fn law_writing_keeps_the_rest(out: Seq<u8>, bytes: Seq<u8>)
    requires
        bytes.len() <= out.len(),
    ensures
        overwritten(out, bytes) == bytes + out.skip(bytes.len() as int),
{
    assert(overwritten(out, bytes) =~= bytes + out.skip(bytes.len() as int));
}

/// A base58 text names an address exactly if what it decodes to is 32 bytes long.
pub proof fn law_names_are_of_32_bytes(text: Seq<char>, decoded: Seq<u8>)
    requires
        is_base58(text, decoded),
    ensures
        names_an_address(text) <==> decoded.len() == 32,
{
    if names_an_address(text) {
        let address = choose|address: Seq<u8>|
            address.len() == 32 && #[trigger] is_base58(text, address);
        law_base58_decodes_to_one_address(text, address, decoded);
    }
}

/// Writing a text to a C buffer puts its bytes and a NUL in front and keeps the rest.
pub proof fn law_c_buffers_keep_the_rest(before: Seq<u8>, text: Seq<char>)
    requires
        encode_utf8(text).len() < before.len(),
    ensures
        ({
            let n = encode_utf8(text).len() as int;
            let after = c_written(before, text);
            &&& after.len() == before.len()
            &&& after.take(n) == encode_utf8(text)
            &&& after[n] == 0
            &&& after.skip(n + 1) == before.skip(n + 1)
        }),
{
    let n = encode_utf8(text).len() as int;
    assert(c_written(before, text).take(n) =~= encode_utf8(text));
    assert(c_written(before, text).skip(n + 1) =~= before.skip(n + 1));
}

/// Only 0 is the dialer's number.
pub proof fn law_only_zero_dials(role: u32)
    ensures
        role_of(role) is Dialer <==> role == 0,
        role_of(role) is Acceptor <==> role != 0,
{
}

/// A request of the cluster is the caller's and the id that were given, in this order, exactly if
/// there is a node and neither is NULL.
pub proof fn law_cluster_requests_are_as_given(
    node: Option<&HopNode>,
    from: Option<[u8; 32]>,
    request_id: Option<[u8; 32]>,
)
    ensures
        given_request(node, from, request_id) is Some <==> node is Some && from is Some
            && request_id is Some,
        given_request(node, from, request_id) matches Some((f, i)) ==> from == Some(f)
            && request_id == Some(i),
{
}

// ---- decisions ----------------------------------------------------------------------------------

/// Every reply of the core is told as what it is: that something was done, the id that was given, all
/// the ids that were given, that the peer is not connected, or the core's own words.
pub proof fn law_every_reply_is_told(
    done: Result<(), FfiError>,
    done_reply: Result<(), String>,
    directed: Result<Vec<u8>, FfiError>,
    left: Result<Vec<u8>, FfiError>,
    optional_reply: Result<Option<[u8; 32]>, String>,
    rekeyed: Result<Vec<Vec<u8>>, FfiError>,
    ids_reply: Result<Vec<[u8; 32]>, String>,
    i: int,
)
    requires
        tells_done(done, done_reply),
        tells_directed(directed, optional_reply),
        tells_optional_id(left, optional_reply),
        tells_ids(rekeyed, ids_reply),
    ensures
        done is Ok <==> done_reply is Ok,
        done_reply matches Err(cause) ==> done->Err_0 == FfiError::Hop(cause),
        directed is Ok <==> optional_reply matches Ok(Some(_)),
        left is Ok <==> optional_reply is Ok,
        optional_reply matches Ok(Some(id)) ==> directed->Ok_0@ == id@ && left->Ok_0@ == id@,
        optional_reply matches Ok(None) ==> left->Ok_0@.len() == 0 && (
        directed->Err_0 matches FfiError::Hop(message) && message@ == "peer not connected"@),
        optional_reply matches Err(cause) ==> directed->Err_0 == FfiError::Hop(cause) && left->Err_0
            == FfiError::Hop(cause),
        rekeyed is Ok <==> ids_reply is Ok,
        ids_reply matches Ok(ids) ==> rekeyed->Ok_0@.len() == ids@.len(),
        ids_reply matches Ok(ids) ==> (0 <= i < ids@.len() ==> rekeyed->Ok_0@[i]@ == ids@[i]@),
        ids_reply matches Err(cause) ==> rekeyed->Err_0 == FfiError::Hop(cause),
{
}

/// Browsing asks for the service that was named, under a tag exactly if one was named, and under that
/// very tag.
pub proof fn law_browsing_asks_for_what_was_named(
    call: BrowseCall,
    service: Seq<char>,
    tag: Seq<char>,
)
    requires
        call.asks_for(service, tag),
    ensures
        call.service@ == service,
        call.tag is Some <==> tag.len() > 0,
        call.tag matches Some(t) ==> t@ == tag,
{
}

/// A rotation is asked of the topic that was named, for exactly the members that were named, to the
/// path that was named unless that is blank; and it is refused exactly if some member is not named by
/// 32 bytes.
pub proof fn law_rotations_are_as_asked(
    call: Result<RekeyCall, FfiError>,
    path: Seq<char>,
    new_path: Seq<char>,
    remove: Seq<Vec<u8>>,
    i: int,
)
    requires
        is_rekey_call(call, path, new_path, remove),
    ensures
        call is Ok <==> forall|j: int|
            0 <= j < remove.len() ==> (#[trigger] remove[j])@.len() == 32,
        call matches Err(e) ==> e is BadKey,
        call matches Ok(c) ==> {
            &&& c.path@ == path
            &&& c.new_path is None <==> is_blank_text(new_path)
            &&& c.new_path matches Some(p) ==> p@ == new_path
            &&& c.remove@.len() == remove.len()
            &&& 0 <= i < remove.len() ==> c.remove@[i]@ == remove[i]@
        },
{
    if call is Ok {
        assert forall|j: int| 0 <= j < remove.len() implies (#[trigger] remove[j])@.len() == 32 by {
            assert(is_key(remove[j]@));
        }
    } else if forall|j: int| 0 <= j < remove.len() ==> (#[trigger] remove[j])@.len() == 32 {
        assert(are_keys(remove));
    }
}

/// What the ABI asks the core to call is what its caller's pointers stand for: the 32 bytes of `dst`,
/// the texts that the bytes of `service` and `method` encode, each in its place, and the bytes of
/// `args`, which are none for NULL.
pub proof fn law_abi_calls_what_it_is_given(
    step: Step<ServiceCall, bool>,
    node: Option<&HopNode>,
    dst: Option<[u8; 32]>,
    service: Option<&[u8]>,
    method: Option<&[u8]>,
    args: Option<&[u8]>,
)
    requires
        is_abi_service_request(step, node, dst, service, method, args),
    ensures
        step is Ask <==> node is Some && dst is Some && service is Some && valid_utf8(service->0@)
            && method is Some && valid_utf8(method->0@),
        step matches Step::Answer(sent) ==> !sent,
        step matches Step::Ask(call) ==> {
            &&& call.dst@ == dst->0@
            &&& encode_utf8(call.service@) == service->0@
            &&& encode_utf8(call.method@) == method->0@
            &&& args matches Some(bytes) ==> call.args@ == bytes@
            &&& args is None ==> call.args@.len() == 0
        },
{
    if step is Ask {
        vstd::utf8::decode_utf8_encode_utf8(service->0@);
        vstd::utf8::decode_utf8_encode_utf8(method->0@);
    }
}

/// What the ABI asks the core to answer is what its caller's pointers stand for: to the 32 bytes of
/// `to`, for those of `for_request_id`, with the status and the bytes of `body`, which are none for
/// NULL.
pub proof fn law_abi_answers_what_it_is_given(
    step: Step<ServiceResponseCall, bool>,
    node: Option<&HopNode>,
    to: Option<[u8; 32]>,
    for_request_id: Option<[u8; 32]>,
    status: u16,
    body: Option<&[u8]>,
)
    requires
        is_abi_service_response(step, node, to, for_request_id, status, body),
    ensures
        step is Ask <==> node is Some && to is Some && for_request_id is Some,
        step matches Step::Answer(sent) ==> !sent,
        step matches Step::Ask(call) ==> {
            &&& call.to@ == to->0@
            &&& call.for_id@ == for_request_id->0@
            &&& call.status == status
            &&& body matches Some(bytes) ==> call.body@ == bytes@
            &&& body is None ==> call.body@.len() == 0
        },
{
}

/// The core hears of a link what happened on it: who dialed it, the bytes that arrived, that it went
/// down. What one node drained for a link, another receives as it was drained.
pub proof fn law_links_are_heard_as_they_are(
    up: BearerEvent,
    arrival: BearerEvent,
    down: BearerEvent,
    link: u64,
    dialed: bool,
    packet: (u64, Vec<u8>),
    drained: OutPacket,
)
    requires
        is_link_up(up, link, dialed),
        drained.shows(packet),
        is_arrival(arrival, drained.link, drained.bytes@),
        is_link_down(down, link),
    ensures
        up matches BearerEvent::Connected(l, role) && l == link && (role is Initiator <==> dialed),
        arrival matches BearerEvent::Data(l, bytes) && l == packet.0 && bytes@ == packet.1@,
        down matches BearerEvent::Disconnected(l) && l == link,
{
}

/// A node is made exactly once its store is open, says truly whether that is on disk, and counts the
/// records that were lost, of which a node without a persistent store has none.
pub proof fn law_nodes_are_as_their_plan(plan: OpenPlan, dropped: u32)
    ensures
        plan.store is None ==> (plan.made(dropped) matches Some(n) && !n.persistent
            && n.rehydrate_dropped == 0),
        plan.store matches Some(opening) ==> (plan.made(dropped) is Some <==> opening@.phase is Done),
        plan.store matches Some(opening) ==> (opening@.phase matches Phase::Done { persistent }
            ==> plan.made(dropped)->0.persistent == persistent && plan.made(
            dropped,
        )->0.rehydrate_dropped == dropped),
{
}

} // verus!
