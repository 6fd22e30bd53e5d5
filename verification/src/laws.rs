//! What holds across operations.
use vstd::prelude::*;
use vstd::utf8::{decode_utf8, encode_utf8, valid_utf8};

use crate::base58::{is_base58, law_base58_decodes_to_one_address, law_base58_is_a_c_string};
use crate::bytes::is_key;
use crate::cabi::{
    c_text, c_written, is_abi_send, is_c_text, names_an_address, overwritten, slice_bytes,
    RequestRow,
};
use crate::error::FfiError;
use crate::hps::HpsInvite;
use crate::mesh::{
    Advert, AdvertKind, HttpRequest, HttpResponse, IdentitySource, InboxBundle, ReachClaim,
    ServiceRequest, ServiceResponse, TopicInvite,
};
use crate::messages::{are_hits, is_message_call, told_status, MessageCall, Tracing};
use crate::node::{
    asks_of_key, is_identity_of, is_name_setting, is_open_plan, Build, HopNode, OpenPlan,
};
use crate::reach::{clock, ReachInfo, SignCall, VerifyCall};
use crate::records::{
    is_content_type, is_first_content_type, is_readable, is_service, text_or_empty, HttpReq,
    HttpResp, InboxMessage, MessageStatus, ServiceHit, ServiceReq, ServiceResp,
};
use crate::reply::tells_id;
use crate::services::{
    is_http_response_call, is_service_response_call, HttpResponseCall, ServiceResponseCall,
};
use crate::step::Step;
use crate::store_open::{law_opening_ends, outcome, Disk, Opening};
use crate::text::{
    law_stripping_leaves_no_nul, law_stripping_nuls_is_lossless, law_stripping_nuls_keeps_the_rest,
    same_ignoring_case, without_nul_chars, without_nuls,
};
use crate::topics::{
    are_keys, are_keys_of, is_topic_call, RekeyCall, TopicCall, TopicDeed,
};

verus! {

// ---- text and addresses -------------------------------------------------------------------------

/// A text handed to a sink as a C string reads back as that text without its NUL characters, and as
/// the very text if it has none. The C string holds no NUL before its end.
pub proof fn law_c_strings_read_back(text: Seq<char>)
    ensures
        valid_utf8(without_nuls(encode_utf8(text))),
        decode_utf8(without_nuls(encode_utf8(text))) == without_nul_chars(text),
        forall|i: int|
            0 <= i < without_nuls(encode_utf8(text)).len() ==> #[trigger] without_nuls(
                encode_utf8(text),
            )[i] != 0,
        (forall|i: int| 0 <= i < text.len() ==> #[trigger] text[i] != '\0') ==> decode_utf8(
            without_nuls(encode_utf8(text)),
        ) == text,
{
    law_stripping_nuls_keeps_the_rest(text);
    law_stripping_leaves_no_nul(encode_utf8(text));
    vstd::utf8::encode_utf8_valid_utf8(without_nul_chars(text));
    vstd::utf8::encode_utf8_decode_utf8(without_nul_chars(text));
    if forall|i: int| 0 <= i < text.len() ==> #[trigger] text[i] != '\0' {
        law_stripping_nuls_is_lossless(text);
        vstd::utf8::encode_utf8_decode_utf8(text);
    }
}

/// An address that the ABI wrote out as base58 is read back by the ABI exactly: the C string ends
/// where the text does, names an address, and what it decodes to is the address written.
pub proof fn law_abi_base58_round_trips(
    before: Seq<u8>,
    text: Seq<char>,
    address: Seq<u8>,
    decoded: Seq<u8>,
)
    requires
        is_base58(text, address),
        is_key(address),
        encode_utf8(text).len() < before.len(),
        is_base58(text, decoded),
    ensures
        c_written(before, text).len() == before.len(),
        c_written(before, text).take(text.len() as int) == encode_utf8(text),
        c_written(before, text)[text.len() as int] == 0,
        names_an_address(decode_utf8(c_written(before, text).take(text.len() as int))),
        decoded == address,
{
    law_base58_is_a_c_string(text, address);
    law_base58_decodes_to_one_address(text, address, decoded);
    assert(c_written(before, text).take(text.len() as int) =~= encode_utf8(text));
}

// ---- keys ---------------------------------------------------------------------------------------

/// A secret that a node handed out restores its identity: through the bytes themselves, and through
/// the 32 bytes that the ABI writes out, whatever was there before.
pub proof fn law_secrets_restore_the_identity(
    secret: [u8; 32],
    out: Seq<u8>,
    source: IdentitySource,
    abi_source: IdentitySource,
)
    requires
        is_identity_of(source, secret@),
        is_key(out),
        is_identity_of(abi_source, overwritten(out, secret@)),
    ensures
        source matches IdentitySource::Saved(s) && s@ == secret@,
        abi_source matches IdentitySource::Saved(s) && s@ == secret@,
{
    assert(overwritten(out, secret@) =~= secret@);
}

/// Every id that an operation hands out can be asked of: its delivery status goes to the core.
pub proof fn law_ids_handed_out_are_accepted(
    answer: Result<Vec<u8>, FfiError>,
    reply: Result<[u8; 32], String>,
    step: Step<[u8; 32], MessageStatus>,
)
    requires
        tells_id(answer, reply),
        answer is Ok,
        asks_of_key(step, answer->Ok_0@, MessageStatus::blank_status()),
    ensures
        step is Ask,
        step->Ask_0@ == reply->Ok_0@,
{
}

/// A message in the inbox can be answered: a send to its `from` is never a bad key, and goes to the
/// address that the message came from.
pub proof fn law_senders_can_be_answered(
    message: InboxMessage,
    bundle: InboxBundle,
    relay: Seq<u8>,
    fabric: Seq<u8>,
    call: Result<MessageCall, FfiError>,
    tracing: Tracing,
    content_type: Seq<char>,
    body: Seq<u8>,
    request_ack: bool,
)
    requires
        message.shows(bundle, relay, fabric),
        is_message_call(call, tracing, message.from@, content_type, body, request_ack),
    ensures
        call matches Ok(c) && c.dst@ == bundle.read->Ok_0->0.from@,
{
}

/// A service request can be answered by its `from` and `request_id`: that is never a bad key, and
/// the response goes to the caller, for the request it made.
pub proof fn law_service_requests_can_be_answered(
    record: ServiceReq,
    request: ServiceRequest,
    call: Result<ServiceResponseCall, FfiError>,
    status: u16,
    body: Seq<u8>,
)
    requires
        record.shows(request),
        is_service_response_call(call, record.from@, record.request_id@, status, body),
    ensures
        call matches Ok(c) && c.carries(request.from@, request.id@, status, body),
{
}

/// An HTTP request can be answered by its `from` and `request_id`: that is never a bad key, and the
/// response goes to the requester, for the request it made.
pub proof fn law_http_requests_can_be_answered(
    record: HttpReq,
    request: HttpRequest,
    call: Result<HttpResponseCall, FfiError>,
    status: u16,
    body: Seq<u8>,
)
    requires
        record.shows(request),
        is_http_response_call(call, record.from@, record.request_id@, status, body),
    ensures
        call matches Ok(c) && c.carries(request.from@, request.id@, status, body),
{
}

/// An invite can be accepted by its `host` and `path`: that is never a bad key, and it goes to the
/// host that invited.
pub proof fn law_invites_can_be_accepted(
    record: HpsInvite,
    invite: TopicInvite,
    call: Result<TopicCall, FfiError>,
)
    requires
        record.shows(invite),
        is_topic_call(call, TopicDeed::AcceptInvite, record.path@, record.host@),
    ensures
        call matches Ok(c) && c.path@ == invite.path@ && c.peer@ == invite.host@,
{
}

/// A response names its request: `for_request_id` is the id that the request's sender was given,
/// exactly if the core answers for that id.
pub proof fn law_responses_name_their_request(
    answer: Result<Vec<u8>, FfiError>,
    reply: Result<[u8; 32], String>,
    record: ServiceResp,
    response: ServiceResponse,
    http_record: HttpResp,
    http_response: HttpResponse,
)
    requires
        tells_id(answer, reply),
        answer is Ok,
        record.shows(response),
        http_record.shows(http_response),
    ensures
        record.for_request_id@ == answer->Ok_0@ <==> response.for_id@ == reply->Ok_0@,
        http_record.for_request_id@ == answer->Ok_0@ <==> http_response.for_id@ == reply->Ok_0@,
{
}

/// The two surfaces are one: what the ABI asks the core to send is what the node asks it to send for
/// the same arguments.
pub proof fn law_abi_sends_are_node_sends(
    step: Step<MessageCall, bool>,
    call: Result<MessageCall, FfiError>,
    node: Option<&HopNode>,
    dst: Option<[u8; 32]>,
    content_type: Option<&[u8]>,
    body: Option<&[u8]>,
    request_ack: bool,
)
    requires
        is_abi_send(step, node, dst, content_type, body, request_ack),
        node is Some,
        dst is Some,
        is_c_text(content_type),
        is_message_call(
            call,
            Tracing::Untraceable,
            dst->0@,
            c_text(content_type),
            slice_bytes(body),
            request_ack,
        ),
    ensures
        step is Ask && call is Ok,
        step->Ask_0.tracing == call->Ok_0.tracing,
        step->Ask_0.dst@ == call->Ok_0.dst@,
        step->Ask_0.content_type@ == call->Ok_0.content_type@,
        step->Ask_0.body@ == call->Ok_0.body@,
        step->Ask_0.request_ack == call->Ok_0.request_ack,
{
}

// ---- records ------------------------------------------------------------------------------------

/// A name that was set reads back as it was, and a name that was cleared reads back empty.
pub proof fn law_names_read_back(set: Option<String>, name: Seq<char>)
    requires
        is_name_setting(set, name),
    ensures
        text_or_empty(set) == name,
{
    if set is None {
        assert(name =~= Seq::<char>::empty());
    }
}

/// A bundle that cannot be read hides no other: the inbox shows what it would have shown without it.
pub proof fn law_unreadable_bundles_hide_no_other(
    front: Seq<InboxBundle>,
    bundle: InboxBundle,
    back: Seq<InboxBundle>,
)
    requires
        !is_readable(bundle),
    ensures
        (front.push(bundle) + back).filter(|b: InboxBundle| is_readable(b)) == (front
            + back).filter(|b: InboxBundle| is_readable(b)),
{
    let keep = |b: InboxBundle| is_readable(b);
    Seq::filter_distributes_over_add(front.push(bundle), back, keep);
    Seq::filter_distributes_over_add(front, back, keep);
    assert(front.push(bundle).filter(keep) == front.filter(keep)) by {
        reveal(Seq::filter);
        assert(front.push(bundle).drop_last() =~= front);
    }
}

/// A response's headers settle its content type.
pub proof fn law_content_type_is_settled(
    headers: Seq<(String, String)>,
    a: Seq<char>,
    b: Seq<char>,
)
    requires
        is_content_type(headers, a),
        is_content_type(headers, b),
    ensures
        a == b,
{
    if exists|i: int| is_first_content_type(headers, i) {
        let i = choose|i: int| #[trigger]
            is_first_content_type(headers, i) && a == headers[i].1@;
        let j = choose|j: int| #[trigger]
            is_first_content_type(headers, j) && b == headers[j].1@;
        assert(i == j) by {
            if i < j {
                assert(!same_ignoring_case(headers[i].0@, "content-type"@));
            } else if j < i {
                assert(!same_ignoring_case(headers[j].0@, "content-type"@));
            }
        }
    } else {
        assert(a =~= b);
    }
}

// ---- opening ------------------------------------------------------------------------------------

/// An empty key opens exactly as no key does.
pub proof fn law_empty_key_opens_plain(
    plan: OpenPlan,
    path: Seq<char>,
    secret: Seq<u8>,
    app_secret: Seq<u8>,
    key: Seq<u8>,
    build: Build,
)
    requires
        key.len() == 0,
    ensures
        is_open_plan(plan, path, secret, app_secret, key, build) <==> is_open_plan(
            plan,
            path,
            secret,
            app_secret,
            Seq::empty(),
            build,
        ),
{
    assert(key =~= Seq::<u8>::empty());
}

/// On the embedded build every node runs in memory and says so.
pub proof fn law_embedded_nodes_are_ephemeral(
    plan: OpenPlan,
    path: Seq<char>,
    secret: Seq<u8>,
    app_secret: Seq<u8>,
    key: Seq<u8>,
    build: Build,
)
    requires
        is_open_plan(plan, path, secret, app_secret, key, build),
        !build.full,
    ensures
        plan.persistence() == Some(false),
{
}

/// On the full build a node says that it is persistent exactly if the file opened, or an existing
/// plaintext file was migrated to the key, or an unusable file was moved aside and a fresh one
/// opened in its place. `start` is the plan as it was made, and `done` the plan once the host has
/// done everything that the opening asked for.
pub proof fn law_nodes_tell_their_persistence(
    start: OpenPlan,
    done: OpenPlan,
    path: Seq<char>,
    secret: Seq<u8>,
    app_secret: Seq<u8>,
    key: Seq<u8>,
    build: Build,
    disk: Disk,
)
    requires
        is_open_plan(start, path, secret, app_secret, key, build),
        build.full,
        done.store is Some,
        done.store->0@ == (Opening { phase: outcome(start.store->0@, disk), ..start.store->0@ }),
    ensures
        done.persistence() == Some(
            disk.opens || if key.len() > 0 && disk.exists {
                build.sqlcipher && disk.plaintext && disk.migrates
            } else {
                disk.moves && disk.reopens
            },
        ),
{
    law_opening_ends(start.store->0@, disk);
}

// ---- what the mesh core keeps, the host sees ----------------------------------------------------
//
// Some of what a host may rely on is the core's to keep. These laws say that the surface hands it
// through: the host sees it kept exactly where the core's replies keep it.

/// An undelivered message has no hops and no latency.
pub open spec fn undelivered_is_unmeasured(status: MessageStatus) -> bool {
    !status.delivered ==> status.delivery_hops == 0 && status.delivery_ms == 0
}

/// The host sees hops or latency of an undelivered message exactly if the core's reply has them. Of
/// a message that the core does not know it sees none.
pub proof fn law_status_is_as_measured(reply: Option<(u32, bool, u8, u32)>)
    ensures
        undelivered_is_unmeasured(told_status(reply)) <==> (reply matches Some((_, delivered, hops, ms))
            ==> (!delivered ==> hops == 0 && ms == 0)),
        reply is None ==> told_status(reply) == MessageStatus::blank_status() && !told_status(
            reply,
        ).delivered && undelivered_is_unmeasured(told_status(reply)),
{
}

/// The service is one that the node answers itself.
pub open spec fn is_built_in(service: Seq<char>) -> bool {
    "hop."@.is_prefix_of(service)
}

/// The host is handed exactly the service requests that the core drained: a request that the core
/// dropped, because a sibling handled it or because it is for a built-in service, is in no record
/// and no row, and every other one is. Each can be answered.
pub proof fn law_only_drained_requests_surface(
    requests: Seq<ServiceRequest>,
    records: Seq<ServiceReq>,
    rows: Seq<RequestRow>,
    from: Seq<u8>,
    id: Seq<u8>,
)
    requires
        records.len() == requests.len(),
        forall|i: int| 0 <= i < records.len() ==> (#[trigger] records[i]).shows(requests[i]),
        rows.len() == records.len(),
        forall|i: int| 0 <= i < rows.len() ==> (#[trigger] rows[i]).shows(records[i]),
    ensures
        (exists|i: int|
            0 <= i < rows.len() && (#[trigger] rows[i]).from@ == from && rows[i].request_id@ == id)
            <==> (exists|j: int|
            0 <= j < requests.len() && (#[trigger] requests[j]).from@ == from && requests[j].id@
                == id),
        (forall|i: int| 0 <= i < records.len() ==> !is_built_in((#[trigger] records[i]).service@))
            <==> (forall|j: int|
            0 <= j < requests.len() ==> !is_built_in((#[trigger] requests[j]).service@)),
        forall|i: int|
            0 <= i < records.len() ==> is_key((#[trigger] records[i]).from@) && is_key(
                records[i].request_id@,
            ),
{
    if exists|i: int|
        0 <= i < rows.len() && (#[trigger] rows[i]).from@ == from && rows[i].request_id@ == id {
        let i = choose|i: int|
            0 <= i < rows.len() && (#[trigger] rows[i]).from@ == from && rows[i].request_id@ == id;
        assert(rows[i].shows(records[i]) && records[i].shows(requests[i]));
        assert(requests[i].from@ == from);
    }
    if exists|j: int|
        0 <= j < requests.len() && (#[trigger] requests[j]).from@ == from && requests[j].id@
            == id {
        let j = choose|j: int|
            0 <= j < requests.len() && (#[trigger] requests[j]).from@ == from && requests[j].id@
                == id;
        assert(rows[j].shows(records[j]) && records[j].shows(requests[j]));
        assert(rows[j].from@ == from);
    }
    if forall|i: int| 0 <= i < records.len() ==> !is_built_in((#[trigger] records[i]).service@) {
        assert forall|j: int| 0 <= j < requests.len() implies !is_built_in(
            (#[trigger] requests[j]).service@,
        ) by {
            assert(records[j].shows(requests[j]));
        }
    }
}

/// `a` and `b` tell the same.
pub open spec fn same_reach_info(a: ReachInfo, b: ReachInfo) -> bool {
    &&& a.valid == b.valid
    &&& a.address@ == b.address@
    &&& a.endpoint@ == b.endpoint@
    &&& a.issued_at == b.issued_at
    &&& a.ttl_secs == b.ttl_secs
}

/// Verifying a record at a time and without one differ in the clock alone: the core gets the same
/// bytes, and where its verdict is the same, the host is told the same. A valid record comes with an
/// address, and an invalid one with nothing.
pub proof fn law_verifying_without_a_clock_differs_in_the_clock_alone(
    bytes: Seq<u8>,
    now_secs: u64,
    timed: VerifyCall,
    untimed: VerifyCall,
    timed_claim: Option<ReachClaim>,
    untimed_claim: Option<ReachClaim>,
    timed_info: ReachInfo,
    untimed_info: ReachInfo,
)
    requires
        timed.bytes@ == bytes && timed.now == clock(now_secs),
        untimed.bytes@ == bytes && untimed.now == clock(0),
        timed_info.shows(timed_claim),
        untimed_info.shows(untimed_claim),
    ensures
        timed.bytes@ == untimed.bytes@,
        untimed.now is None,
        timed_info.valid <==> timed_claim is Some,
        timed_info.valid ==> is_key(timed_info.address@),
        !timed_info.valid ==> timed_info.address@.len() == 0 && timed_info.endpoint@.len() == 0
            && timed_info.issued_at == 0 && timed_info.ttl_secs == 0,
        timed_claim == untimed_claim ==> same_reach_info(timed_info, untimed_info),
{
    if timed_claim == untimed_claim && timed_claim is None {
        assert(timed_info.address@ =~= untimed_info.address@);
        assert(timed_info.endpoint@ =~= untimed_info.endpoint@);
    }
}

/// The host is told of a signed record what was signed, exactly if that is what the record claims:
/// the node's address, and the endpoint and lifetime as they were given.
pub proof fn law_signed_records_are_told_as_signed(
    endpoint: Seq<char>,
    ttl_secs: u32,
    call: SignCall,
    address: [u8; 32],
    claim: ReachClaim,
    info: ReachInfo,
)
    requires
        call.endpoint@ == endpoint && call.ttl_secs == ttl_secs,
        info.shows(Some(claim)),
    ensures
        info.valid,
        (info.address@ == address@ && info.endpoint@ == endpoint && info.ttl_secs == ttl_secs)
            <==> (claim.address@ == address@ && claim.endpoint@ == call.endpoint@
            && claim.ttl_secs == call.ttl_secs),
{
}

/// `tag` is among `tags`.
pub open spec fn has_tag(tags: Seq<String>, tag: Seq<char>) -> bool {
    exists|k: int| 0 <= k < tags.len() && (#[trigger] tags[k])@ == tag
}

/// The advert announces a service under `tag`.
pub open spec fn is_tagged(advert: Advert, tag: Seq<char>) -> bool {
    advert.kind matches AdvertKind::Service { tags, .. } && has_tag(tags@, tag)
}

/// `a` and `b` tell the same.
pub open spec fn same_hit(a: ServiceHit, b: ServiceHit) -> bool {
    &&& a.publisher@ == b.publisher@
    &&& a.service@ == b.service@
    &&& a.title@ == b.title@
    &&& a.summary@ == b.summary@
    &&& a.tags@ == b.tags@
    &&& a.hops == b.hops
    &&& a.created_at == b.created_at
}

/// `hit` shows one of `adverts`.
spec fn is_hit_of(hit: ServiceHit, adverts: Seq<Advert>) -> bool {
    exists|a: Advert| #[trigger] adverts.contains(a) && hit.shows(a)
}

/// An advert that announces a service is among the hits, and no other.
proof fn lemma_hits(hits: Seq<ServiceHit>, adverts: Seq<Advert>)
    requires
        are_hits(hits, adverts),
    ensures
        forall|i: int|
            0 <= i < hits.len() ==> is_hit_of(#[trigger] hits[i], adverts),
        forall|a: Advert|
            #[trigger] adverts.contains(a) && is_service(a) ==> exists|i: int|
                0 <= i < hits.len() && (#[trigger] hits[i]).shows(a),
{
    let keep = |a: Advert| is_service(a);
    let services = adverts.filter(keep);
    broadcast use vstd::seq_lib::group_filter_ensures;

    assert forall|i: int| 0 <= i < hits.len() implies is_hit_of(
        #[trigger] hits[i],
        adverts,
    ) by {
        let a = services[i];
        assert(hits[i].shows(a));
        adverts.lemma_filter_contains_rev(keep, a);
        assert(adverts.contains(a));
    }
    assert forall|a: Advert| #[trigger] adverts.contains(a) && is_service(a) implies exists|i: int|
        0 <= i < hits.len() && (#[trigger] hits[i]).shows(a) by {
        assert(keep(a));
        let i = choose|i: int| 0 <= i < adverts.len() && adverts[i] == a;
        assert(keep(adverts[i]) && services.contains(adverts[i]));
        let j = choose|j: int| 0 <= j < services.len() && services[j] == a;
        assert(hits[j].shows(services[j]));
    }
}

/// Browsing by a tag gives the hits of browsing without one that carry the tag, and all of them,
/// where that holds of the adverts that the core finds: `tagged` are those it finds by the tag, and
/// `all` those it finds without one.
pub proof fn law_browsing_by_tag_selects(
    all: Seq<Advert>,
    tagged: Seq<Advert>,
    tag: Seq<char>,
    all_hits: Seq<ServiceHit>,
    tagged_hits: Seq<ServiceHit>,
)
    requires
        are_hits(all_hits, all),
        are_hits(tagged_hits, tagged),
        forall|a: Advert|
            #[trigger] tagged.contains(a) && is_service(a) <==> all.contains(a) && is_tagged(a, tag),
    ensures
        forall|i: int|
            0 <= i < tagged_hits.len() ==> has_tag((#[trigger] tagged_hits[i]).tags@, tag) && exists|
                j: int,
            |
                0 <= j < all_hits.len() && same_hit(#[trigger] all_hits[j], tagged_hits[i]),
        forall|j: int|
            0 <= j < all_hits.len() && has_tag((#[trigger] all_hits[j]).tags@, tag) ==> exists|
                i: int,
            |
                0 <= i < tagged_hits.len() && same_hit(#[trigger] tagged_hits[i], all_hits[j]),
{
    lemma_hits(all_hits, all);
    lemma_hits(tagged_hits, tagged);
    assert forall|i: int| 0 <= i < tagged_hits.len() implies has_tag(
        (#[trigger] tagged_hits[i]).tags@,
        tag,
    ) && exists|j: int|
        0 <= j < all_hits.len() && same_hit(#[trigger] all_hits[j], tagged_hits[i]) by {
        assert(is_hit_of(tagged_hits[i], tagged));
        let a = choose|a: Advert| #[trigger] tagged.contains(a) && tagged_hits[i].shows(a);
        assert(tagged.contains(a) && is_service(a));
        let j = choose|j: int| 0 <= j < all_hits.len() && (#[trigger] all_hits[j]).shows(a);
        assert(same_hit(all_hits[j], tagged_hits[i]));
    }
    assert forall|j: int| 0 <= j < all_hits.len() && has_tag(
        (#[trigger] all_hits[j]).tags@,
        tag,
    ) implies exists|i: int|
        0 <= i < tagged_hits.len() && same_hit(#[trigger] tagged_hits[i], all_hits[j]) by {
        assert(is_hit_of(all_hits[j], all));
        let a = choose|a: Advert| #[trigger] all.contains(a) && all_hits[j].shows(a);
        assert(is_tagged(a, tag));
        assert(tagged.contains(a));
        let i = choose|i: int| 0 <= i < tagged_hits.len() && (#[trigger] tagged_hits[i]).shows(a);
        assert(same_hit(tagged_hits[i], all_hits[j]));
    }
}

/// `address` is among `addresses`.
pub open spec fn lists(addresses: Seq<Vec<u8>>, address: Seq<u8>) -> bool {
    exists|i: int| 0 <= i < addresses.len() && (#[trigger] addresses[i])@ == address
}

/// The keys of a list are the addresses in it.
proof fn lemma_lists(keys: Seq<[u8; 32]>, addresses: Seq<Vec<u8>>, key: [u8; 32])
    requires
        are_keys_of(keys, addresses),
    ensures
        keys.contains(key) <==> lists(addresses, key@),
{
    if keys.contains(key) {
        let i = choose|i: int| 0 <= i < keys.len() && keys[i] == key;
        assert(keys[i]@ == addresses[i]@);
    }
    if lists(addresses, key@) {
        let i = choose|i: int| 0 <= i < addresses.len() && (#[trigger] addresses[i])@ == key@;
        assert(keys[i]@ == addresses[i]@);
        assert(keys[i] =~= key);
    }
}

/// After a rotation the host reads as members exactly the former ones that it did not ask to remove,
/// where the core keeps that of the keys it was handed: `before` and `after` are its members.
pub proof fn law_rekeying_removes_who_was_named(
    call: RekeyCall,
    remove: Seq<Vec<u8>>,
    before: Seq<[u8; 32]>,
    after: Seq<[u8; 32]>,
    told_before: Seq<Vec<u8>>,
    told_after: Seq<Vec<u8>>,
)
    requires
        are_keys_of(call.remove@, remove),
        are_keys_of(before, told_before),
        are_keys_of(after, told_after),
        forall|k: [u8; 32]| #[trigger]
            after.contains(k) <==> before.contains(k) && !call.remove@.contains(k),
    ensures
        forall|k: [u8; 32]| #[trigger]
            lists(told_after, k@) <==> lists(told_before, k@) && !lists(remove, k@),
        are_keys(told_after),
{
    assert forall|k: [u8; 32]| #[trigger]
        lists(told_after, k@) <==> lists(told_before, k@) && !lists(remove, k@) by {
        lemma_lists(after, told_after, k);
        lemma_lists(before, told_before, k);
        lemma_lists(call.remove@, remove, k);
    }
    assert forall|i: int| 0 <= i < told_after.len() implies is_key((#[trigger] told_after[i])@) by {
        assert(after[i]@ == told_after[i]@);
    }
}

} // verus!
