//! The node's surface: what the core is asked, and what the host is told of its replies.
use hop::base58::{address_base58, address_from_base58};
use hop::bytes::{hex8, label_app};
use hop::error::FfiError;
use hop::hps::{
    access_from_core, access_to_core, kind_from_core, kind_to_core, vis_to_core, HpsAccess, HpsKind,
    HpsVisibility,
};
use hop::mesh::{
    AccessMode, Advert, AdvertKind, BearerEvent, HnsLookup, HnsResolution, HttpRequest,
    HttpResponse, IdentityRecord, IdentitySource, InboxBundle, Message, NodeKind, OwnTopic,
    QueuedBundle, ReachClaim, Role, ServiceKind, ServiceRequest, ServiceResponse, TopicInvite,
    TopicMessage, TopicMeta, TraceHop, Visibility,
};
use hop::messages::Tracing;
use hop::node::{identity_from, short_address, short_address_reply, Build, HopNode, PeerQuestion};
use hop::reach::{verify_reach_record, verify_reach_record_reply};
use hop::records::{content_type, decode_identity, HnsLookupResult};
use hop::services::service_identify;
use hop::step::Step;
use hop::topics::{Dropped, TopicDeed, TopicQuestion};

fn node() -> HopNode {
    HopNode::new().opened(0).expect("an in-memory node has nothing to open")
}

fn headers(list: &[(&str, &str)]) -> Vec<(String, String)> {
    list.iter().map(|(k, v)| (k.to_string(), v.to_string())).collect()
}

#[test]
fn rejects_bad_key_length() {
    let a = node();
    let err = a.send_message(vec![0u8; 10], "t".into(), vec![], false);
    assert!(matches!(err, Err(FfiError::BadKey)));
}

#[test]
fn free_functions_and_type_mappers_round_trip() {
    // base58 address: encode -> decode round trip; invalid input decodes to empty.
    let addr: Vec<u8> = (100u8..132).collect();
    let b58 = address_base58(addr.clone());
    assert!(!b58.is_empty());
    assert_eq!(address_from_base58(b58), addr);
    assert!(address_from_base58("!!!not base58!!!".into()).is_empty());

    // short_address: 32-byte -> 8-byte short form; a wrong-length address -> empty.
    assert!(matches!(short_address(addr.clone()), Step::Ask(a) if a.as_slice() == addr));
    assert_eq!(short_address_reply([3u8; 8]).len(), 8);
    assert!(matches!(short_address(vec![0u8; 10]), Step::Answer(short) if short.is_empty()));

    // service_identify is the built-in identity service name.
    assert_eq!(service_identify(), "hop.identify");

    // hex8 renders 8 bytes as 16 lowercase hex chars.
    assert_eq!(hex8(&[0x0a, 0xff, 0, 1, 2, 3, 4, 5]), "0aff000102030405");

    // label_app: relay app -> "Hop Relay", fabric app -> "device", anything else -> hex.
    let (relay, fabric) = ([0xaau8; 8], [0x55u8; 8]);
    assert_eq!(label_app(&relay, &relay, &fabric), "Hop Relay");
    assert_eq!(label_app(&fabric, &relay, &fabric), "device");
    let other = label_app(&[1, 2, 3, 4, 5, 6, 7, 8], &relay, &fabric);
    assert_eq!(other.len(), 16, "an unknown app renders as 8-byte hex");
    assert_ne!(other, "Hop Relay");
    assert_ne!(other, "device");

    // identity_from: a valid 32-byte secret is deterministic; a wrong-length one falls back to
    // a fresh identity (both arms exercised).
    let s = [9u8; 32];
    assert!(matches!(identity_from(&s), IdentitySource::Saved(k) if k == s));
    assert!(matches!(identity_from(&[1, 2, 3]), IdentitySource::Fresh));

    // hps enum <-> core mappers, both directions, every variant.
    assert!(matches!(kind_to_core(&HpsKind::Channel), ServiceKind::Channel));
    assert!(matches!(kind_to_core(&HpsKind::Service), ServiceKind::Service));
    assert!(matches!(kind_from_core(ServiceKind::Channel), HpsKind::Channel));
    assert!(matches!(kind_from_core(ServiceKind::Service), HpsKind::Service));
    assert!(matches!(access_to_core(&HpsAccess::Open), AccessMode::Open));
    assert!(matches!(access_to_core(&HpsAccess::RequestToJoin), AccessMode::RequestToJoin));
    assert!(matches!(access_to_core(&HpsAccess::Invite), AccessMode::Invite));
    assert!(matches!(access_from_core(AccessMode::Open), HpsAccess::Open));
    assert!(matches!(access_from_core(AccessMode::RequestToJoin), HpsAccess::RequestToJoin));
    assert!(matches!(access_from_core(AccessMode::Invite), HpsAccess::Invite));
    assert!(matches!(vis_to_core(&HpsVisibility::Private), Visibility::Private));
    assert!(matches!(vis_to_core(&HpsVisibility::Discoverable), Visibility::Discoverable));

    // decode_identity rejects bytes that aren't a valid identity record.
    assert!(decode_identity(None).is_none());
}

#[test]
fn node_scalar_getters_error_paths_and_local_mutators() {
    let node = node();
    let peer: Vec<u8> = vec![42u8; 32];
    let id = [6u8; 32];

    // send_message_traced: wrong-length dst -> BadKey; good dst -> Ok(id).
    assert!(matches!(
        node.send_message_traced(vec![0u8; 10], "t".into(), vec![], false),
        Err(FfiError::BadKey)
    ));
    let call = node
        .send_message_traced(peer.clone(), "text/plain".into(), b"hi".to_vec(), false)
        .unwrap();
    assert_eq!(call.dst.as_slice(), peer);
    assert!(call.tracing == Tracing::Traced);
    assert_eq!(call.content_type, "text/plain");
    assert_eq!(call.body, b"hi");
    assert!(!call.request_ack);
    let tid = node.send_message_reply(Ok(id)).unwrap();
    assert_eq!(tid.len(), 32);

    // publish_service + browse: our own advert is browsable; the tag-filter branch runs too.
    let call = node.publish_service(
        "presence".into(),
        "Alice".into(),
        "here".into(),
        vec!["tag1".into()],
        60_000,
    );
    assert_eq!((call.service.as_str(), call.title.as_str()), ("presence", "Alice"));
    assert_eq!((call.summary.as_str(), call.ttl_ms), ("here", 60_000));
    assert_eq!(call.tags, ["tag1"]);
    assert_eq!(node.publish_service_reply(Ok(id)).unwrap(), id);
    assert!(node.publish_service_reply(Err("full".into())).is_err());
    assert!(node.browse("presence".into(), String::new()).tag.is_none());
    let call = node.browse("presence".into(), "tag1".into());
    assert_eq!(call.service, "presence");
    assert_eq!(call.tag.as_deref(), Some("tag1"));
    let hits = node.browse_reply(vec![Advert {
        publisher: [1u8; 32],
        kind: AdvertKind::Service {
            service: "presence".into(),
            title: "Alice".into(),
            summary: "here".into(),
            tags: vec!["tag1".into()],
        },
        hops: 0,
        created_at: 60_000,
    }]);
    assert!(
        hits.iter().any(|h| h.service == "presence" && h.title == "Alice"),
        "own service advert is browsable"
    );

    // message_status: a wrong-length id -> blank; the just-sent traced id -> tracked/undelivered.
    let Step::Answer(blank) = node.message_status(vec![1u8; 10]) else {
        panic!("a wrong-length id is not asked of");
    };
    assert!(!blank.delivered && blank.relayed == 0);
    assert!(matches!(node.message_status(tid), Step::Ask(i) if i == id));
    assert!(!node.message_status_reply(Some((1, false, 0, 0))).delivered);

    // is_secured / knows_route: wrong-length -> false; of a valid key the core is asked.
    assert!(matches!(node.is_secured(vec![0u8; 10]), Step::Answer(false)));
    assert!(matches!(
        node.is_secured(peer.clone()),
        Step::Ask(PeerQuestion::HasSession(a)) if a.as_slice() == peer
    ));
    assert!(!node.is_secured_reply(false));
    assert!(matches!(node.knows_route(vec![0u8; 10]), Step::Answer(false)));
    assert!(matches!(
        node.knows_route(peer.clone()),
        Step::Ask(PeerQuestion::KnowsRoute(a)) if a.as_slice() == peer
    ));
    assert!(!node.knows_route_reply(false));

    // peers / peer_links empty on an unconnected node; pending_count runs.
    assert!(node.peers(vec![]).is_empty());
    assert!(node.peer_links(vec![]).is_empty());
    assert_eq!(node.pending_count(3), 3);

    // send_hops_request: wrong-length endpoint -> BadKey; good -> Ok(id).
    assert!(matches!(
        node.send_hops_request(
            vec![0u8; 10],
            "h".into(),
            "GET".into(),
            "/".into(),
            vec![],
            1000
        ),
        Err(FfiError::BadKey)
    ));
    let call = node
        .send_hops_request(
            peer.clone(),
            "example.com".into(),
            "GET".into(),
            "/x".into(),
            vec![],
            64_000,
        )
        .unwrap();
    assert_eq!(call.endpoint.as_slice(), peer);
    assert_eq!((call.host.as_str(), call.method.as_str(), call.url.as_str()), ("example.com", "GET", "/x"));
    assert!(call.headers.is_empty() && call.body.is_empty());
    assert_eq!(call.max_resp, 64_000);
    assert_eq!(node.send_hops_request_reply(Ok(id)).unwrap(), id);

    // queue: an own (pinned) device-addressed bundle surfaces with a non-empty destination, and one
    // for internet egress with an empty one.
    let q = node.queue(vec![
        QueuedBundle { id, own: true, to: Some([42u8; 32]), priority: 2, hops: 1 },
        QueuedBundle { id: [7u8; 32], own: false, to: None, priority: 0, hops: 3 },
    ]);
    assert!(q.iter().any(|i| i.own && !i.to.is_empty()), "our own queued bundle is pinned");
    assert_eq!(q[0].id, id);
    assert_eq!((q[0].priority, q[0].hops), (2, 1));
    assert!(!q[1].own && q[1].to.is_empty());
    assert!(node.queue(vec![]).is_empty());

    // register_service: a Channel has no service pubkey; a Service exposes one.
    let call = node.register_service(
        "room".into(),
        HpsKind::Channel,
        HpsAccess::Open,
        HpsVisibility::Private,
    );
    assert_eq!(call.path, "room");
    assert!(matches!(
        (call.kind, call.access, call.visibility),
        (ServiceKind::Channel, AccessMode::Open, Visibility::Private)
    ));
    assert!(node.register_service_reply(None).is_empty(), "a channel has no service pubkey");
    let call = node.register_service(
        "feed".into(),
        HpsKind::Service,
        HpsAccess::RequestToJoin,
        HpsVisibility::Discoverable,
    );
    assert!(matches!(
        (call.kind, call.access, call.visibility),
        (ServiceKind::Service, AccessMode::RequestToJoin, Visibility::Discoverable)
    ));
    assert!(
        !node.register_service_reply(Some([8u8; 32])).is_empty(),
        "a service exposes its pubkey"
    );

    // hps_my_topics reflects both hosted topics (record mapper).
    let own = |path: &str, kind| OwnTopic {
        host: [3u8; 32],
        path: path.to_string(),
        kind,
        hosting: true,
        access: AccessMode::Open,
    };
    let mine =
        node.hps_my_topics(vec![own("room", ServiceKind::Channel), own("feed", ServiceKind::Service)]);
    assert!(mine.iter().any(|t| t.path == "room" && t.hosting));
    assert!(mine.iter().any(|t| t.path == "feed"));

    // invite (we host "room"): wrong-length dest -> BadKey; good -> Ok(id).
    assert!(matches!(node.hps_invite("room".into(), vec![0u8; 10]), Err(FfiError::BadKey)));
    let call = node.hps_invite("room".into(), peer.clone()).unwrap();
    assert_eq!((call.path.as_str(), call.peer.as_slice()), ("room", peer.as_slice()));
    assert!(call.deed == TopicDeed::Invite);
    assert_eq!(node.hps_reply(Ok(id)).unwrap(), id);

    // accept/decline: wrong-length host -> BadKey; a good host sends regardless of a match.
    assert!(matches!(
        node.hps_accept_invite(vec![0u8; 10], "room".into()),
        Err(FfiError::BadKey)
    ));
    let call = node.hps_accept_invite(peer.clone(), "room".into()).unwrap();
    assert!(call.deed == TopicDeed::AcceptInvite);
    assert!(matches!(
        node.hps_decline_invite(vec![0u8; 10], "room".into()),
        Err(FfiError::BadKey)
    ));
    let call = node.hps_decline_invite(peer.clone(), "room".into()).unwrap();
    assert!(call.dropped == Dropped::Invite);
    assert_eq!((call.path.as_str(), call.peer.as_slice()), ("room", peer.as_slice()));
    node.hps_dropped().unwrap();

    // subscribe: wrong-length host -> BadKey; good -> Ok(id).
    assert!(matches!(node.hps_subscribe(vec![0u8; 10], "room".into()), Err(FfiError::BadKey)));
    let call = node.hps_subscribe(peer.clone(), "room".into()).unwrap();
    assert!(call.deed == TopicDeed::Subscribe);

    // pending/approve/deny (host side): approve/deny reject a wrong-length requester.
    assert!(matches!(node.hps_pending("feed".into()), TopicQuestion::Pending(p) if p == "feed"));
    assert!(node.hps_pending_reply(vec![]).is_empty());
    assert!(matches!(node.hps_approve("feed".into(), vec![0u8; 10]), Err(FfiError::BadKey)));
    assert!(matches!(node.hps_deny("feed".into(), vec![0u8; 10]), Err(FfiError::BadKey)));
    let call = node.hps_deny("feed".into(), peer.clone()).unwrap();
    assert!(call.dropped == Dropped::Request);
    assert_eq!((call.path.as_str(), call.peer.as_slice()), ("feed", peer.as_slice()));
    node.hps_dropped().unwrap();

    // reach / members are zero/empty on a just-registered topic.
    assert_eq!(node.hps_reach("room".into()).path, "room");
    assert_eq!(node.hps_reach_reply(0), 0);
    assert!(matches!(node.hps_members("room".into()), TopicQuestion::Members(p) if p == "room"));
    assert!(node.hps_members_reply(vec![]).is_empty());

    // rekey: a wrong-length member entry -> BadKey; then both new_path branches (keep / move).
    assert!(matches!(
        node.hps_rekey("room".into(), String::new(), vec![vec![0u8; 10]]),
        Err(FfiError::BadKey)
    ));
    let keep = node.hps_rekey("room".into(), String::new(), vec![]).unwrap(); // keep-path branch
    assert!(keep.new_path.is_none());
    let moved = node.hps_rekey("room".into(), "room2".into(), vec![]).unwrap(); // move-path branch
    assert_eq!(moved.new_path.as_deref(), Some("room2"));
    assert_eq!(moved.path, "room");

    // publish: to a hosted topic -> Ok; to an unknown path -> Err.
    let call = node.hps_publish("feed".into(), b"news".to_vec());
    assert_eq!((call.path.as_str(), call.body.as_slice()), ("feed", b"news".as_slice()));
    node.hps_publish_reply(Ok(id)).unwrap();
    assert!(node.hps_publish_reply(Err("unknown topic".into())).is_err());

    // leave a path we host (not a subscription) -> Ok(empty bundle id).
    assert_eq!(node.hps_leave("feed".into()).path, "feed");
    assert!(node.hps_leave_reply(Ok(None)).unwrap().is_empty());

    // empty drains still exercise their bodies; browse_discoverable runs.
    assert!(node.take_hps_invites(vec![]).is_empty());
    assert!(node.take_hps_messages(vec![]).is_empty());
    assert!(node.browse_discoverable(vec![]).is_empty());

    // http response: wrong-length `to` or `for_request_id` -> BadKey; good -> Ok(()).
    assert!(matches!(
        node.send_http_response(vec![0u8; 10], vec![1u8; 32], 200, vec![]),
        Err(FfiError::BadKey)
    ));
    assert!(matches!(
        node.send_http_response(peer.clone(), vec![1u8; 10], 200, vec![]),
        Err(FfiError::BadKey)
    ));
    let call = node.send_http_response(peer.clone(), vec![1u8; 32], 200, b"ok".to_vec()).unwrap();
    assert_eq!((call.to.as_slice(), call.for_id), (peer.as_slice(), [1u8; 32]));
    assert_eq!((call.status, call.body.as_slice()), (200, b"ok".as_slice()));
    assert!(call.headers.is_empty());
    node.send_http_response_reply(Ok(())).unwrap();
    assert!(node.take_http_requests(vec![]).is_empty());
    assert!(node.take_http_responses(vec![]).is_empty());

    // name: unset -> ""; set -> reflected; cleared -> "".
    assert_eq!(node.name(None), "");
    assert_eq!(node.name(node.set_name("alice".into())), "alice");
    assert!(node.set_name(String::new()).is_none());
    assert_eq!(node.name(node.set_name(String::new())), "");
}

#[test]
fn hns_resolution_flow_populates_cache_and_results() {
    let node = node();

    // Offline -> NeedsResolver; with internet on -> Pending.
    assert_eq!(node.resolve_hns("example.com".into()).domain, "example.com");
    assert!(matches!(
        node.resolve_hns_reply(HnsLookup::NeedsResolver),
        HnsLookupResult::NeedsResolver
    ));
    assert!(matches!(node.resolve_hns_reply(HnsLookup::Pending), HnsLookupResult::Pending));

    // Feed back unverifiable reach-record bytes -> a cached negative + a finished (empty) result.
    let call = node.provide_reach_record("example.com".into(), vec![0u8; 8]);
    assert_eq!((call.domain.as_str(), call.record.as_slice()), ("example.com", [0u8; 8].as_slice()));
    let results =
        node.take_hns_results(vec![HnsResolution { domain: "example.com".into(), address: None }]);
    assert_eq!(results.len(), 1, "one finished resolution");
    assert!(results[0].address.is_empty(), "a negative resolution");
    assert!(
        node.hns_cache(vec![("example.com".into(), None, 59_999)])
            .iter()
            .any(|e| e.domain.contains("example.com") && e.address.is_empty() && e.ttl_secs == 59),
        "the negative is cached and surfaced with an empty address"
    );

    // Now cached: resolve serves the cached negative straight back.
    assert!(matches!(
        node.resolve_hns_reply(HnsLookup::Cached(None)),
        HnsLookupResult::Cached { address } if address.is_empty()
    ));

    // A positive one comes with its address, everywhere.
    let a = [4u8; 32];
    assert!(matches!(
        node.resolve_hns_reply(HnsLookup::Cached(Some(a))),
        HnsLookupResult::Cached { address } if address == a
    ));
    let hit = HnsResolution { domain: "hop.example".into(), address: Some(a) };
    assert_eq!(node.take_hns_results(vec![hit])[0].address, a);
    let cache = node.hns_cache(vec![("hop.example".into(), Some(a), 999)]);
    assert_eq!(cache[0].address, a);
    assert_eq!(cache[0].ttl_secs, 0, "less than a second is no second");
}

#[test]
fn remaining_seconds_keep_their_low_32_bits() {
    let cache = node().hns_cache(vec![
        ("a".into(), None, u64::MAX),
        ("b".into(), None, 4_294_967_295_999),
        ("c".into(), None, 4_294_967_296_000),
    ]);
    assert_eq!(cache[0].ttl_secs, (u64::MAX / 1000) as u32);
    assert_eq!(cache[1].ttl_secs, u32::MAX);
    assert_eq!(cache[2].ttl_secs, 0);
}

#[test]
fn hops_http_request_and_response_drains_populate() {
    let node = node();
    let req_id = node.send_hops_request_reply(Ok([5u8; 32])).unwrap();

    // Endpoint side: the request surfaces for the operator (take_http_requests mapper).
    let reqs = node.take_http_requests(vec![HttpRequest {
        from: [1u8; 32],
        id: [5u8; 32],
        host: "example.hopme.sh".into(),
        method: "GET".into(),
        url: "/hello".into(),
        body: vec![],
        max_resp: 64_000,
    }]);
    assert_eq!(reqs.len(), 1);
    assert_eq!(reqs[0].host, "example.hopme.sh");
    assert_eq!(reqs[0].method, "GET");
    assert_eq!(reqs[0].url, "/hello");
    assert_eq!(reqs[0].max_resp, 64_000);
    let (from, rid) = (reqs[0].from.clone(), reqs[0].request_id.clone());

    let call = node.send_http_response(from, rid, 200, b"world".to_vec()).unwrap();
    assert_eq!((call.to, call.for_id), ([1u8; 32], [5u8; 32]));

    // Client side: the response arrives, correlated by id (take_http_responses mapper).
    let resps = node.take_http_responses(vec![HttpResponse {
        from: [2u8; 32],
        for_id: call.for_id,
        status: call.status,
        headers: headers(&[("X-A", "1"), ("CONTENT-type", "text/html"), ("content-type", "no")]),
        body: call.body,
    }]);
    assert_eq!(resps.len(), 1);
    assert_eq!(resps[0].for_request_id, req_id);
    assert_eq!(resps[0].status, 200);
    assert_eq!(resps[0].body, b"world");
    assert_eq!(resps[0].content_type, "text/html");
}

#[test]
fn the_first_content_type_counts() {
    assert_eq!(content_type(&headers(&[])), "");
    assert_eq!(content_type(&headers(&[("content-length", "3")])), "");
    assert_eq!(content_type(&headers(&[("Content-Type", ""), ("content-type", "b")])), "");
    assert_eq!(content_type(&headers(&[("a", "x"), ("CoNtEnT-TyPe", "b")])), "b");
}

#[test]
fn identify_service_round_trips_and_decodes_to_identity_info() {
    let node = node();
    let call = node
        .send_service_request(vec![2u8; 32], service_identify(), String::new(), vec![])
        .unwrap();
    assert_eq!((call.dst, call.service.as_str()), ([2u8; 32], "hop.identify"));
    let info = decode_identity(Some(IdentityRecord {
        address: [2u8; 32],
        name: Some("Bob's Phone".into()),
        kind: NodeKind::Device,
    }))
    .expect("a valid identity record decodes");
    assert_eq!(info.name, "Bob's Phone");
    assert_eq!(info.kind, "device");
    assert_eq!(info.address, [2u8; 32]);
    // The other kinds, unnamed.
    for (kind, word) in [
        (NodeKind::Relay, "relay"),
        (NodeKind::Gateway, "gateway"),
        (NodeKind::Endpoint, "endpoint"),
    ] {
        let info = decode_identity(Some(IdentityRecord { address: [2u8; 32], name: None, kind }));
        let info = info.expect("a valid identity record decodes");
        assert_eq!((info.name.as_str(), info.kind.as_str()), ("", word));
    }
}

#[test]
fn constructors_plan_identity_and_app() {
    let plan = HopNode::new();
    assert!(matches!(plan.identity, IdentitySource::Fresh));
    assert!(plan.app_secret.is_none() && plan.store.is_none());

    let plan = HopNode::with_secret(vec![5u8; 32]);
    assert!(matches!(plan.identity, IdentitySource::Saved(k) if k == [5u8; 32]));
    assert!(plan.store.is_none());
    assert!(matches!(HopNode::with_secret(vec![5u8; 31]).identity, IdentitySource::Fresh));

    let build = Build { full: true, sqlcipher: false };
    let plan = HopNode::open(":memory:".into(), Vec::new(), vec![7u8; 32], build);
    assert!(matches!(plan.identity, IdentitySource::Fresh));
    assert_eq!(plan.app_secret, Some([7u8; 32]));
    assert!(plan.store.is_some());
    // Short or long app-secret bytes stay on the open fabric.
    for len in [0, 31, 33] {
        let plan = HopNode::open(":memory:".into(), Vec::new(), vec![7u8; len], build);
        assert!(plan.app_secret.is_none());
    }
}

#[test]
fn identity_is_handed_out_as_it_is() {
    let node = node();
    assert_eq!(node.secret([8u8; 32]), [8u8; 32]);
    assert_eq!(node.address([9u8; 32]), [9u8; 32]);
    assert!(!node.is_persistent());
    assert_eq!(node.rehydrate_dropped(), 0);
}

#[test]
fn bearer_events() {
    let node = node();
    assert!(matches!(node.connected(1, true), BearerEvent::Connected(1, Role::Initiator)));
    assert!(matches!(node.connected(2, false), BearerEvent::Connected(2, Role::Responder)));
    assert!(matches!(node.disconnected(3), BearerEvent::Disconnected(3)));
    assert!(matches!(node.received(4, vec![1, 2]), BearerEvent::Data(4, b) if b == [1, 2]));
    let out = node.drain_outgoing(vec![(1, vec![1]), (2, vec![])]);
    assert_eq!(out.len(), 2);
    assert_eq!((out[0].link, out[0].bytes.as_slice()), (1, [1u8].as_slice()));
    assert_eq!((out[1].link, out[1].bytes.len()), (2, 0));
}

#[test]
fn peers_and_links() {
    let node = node();
    let (a, b) = ([1u8; 32], [2u8; 32]);
    assert_eq!(node.peers(vec![a, b]), [a, b]);
    let links = node.peer_links(vec![(a, 7), (b, 10_000)]);
    assert_eq!((links[0].address.as_slice(), links[0].link), (a.as_slice(), 7));
    assert_eq!((links[1].address.as_slice(), links[1].link), (b.as_slice(), 10_000));
    assert_eq!(node.cluster_members(2), 2);
}

fn bundle(read: Result<Option<Message>, String>, hops: u8) -> InboxBundle {
    let trace = vec![
        TraceHop { node: [1u8; 8], app: [0xaau8; 8] },
        TraceHop { node: [2u8; 8], app: [0x55u8; 8] },
        TraceHop { node: [3u8; 8], app: [0x0fu8; 8] },
    ];
    InboxBundle { hops, created_at: 1_000 + hops as u64, trace, read }
}

#[test]
fn unreadable_bundles_hide_no_other() {
    let node = node();
    let message = |body: &[u8]| {
        Ok(Some(Message {
            from: [4u8; 32],
            content_type: "text/plain".into(),
            body: body.to_vec(),
        }))
    };
    let inbox = node.take_inbox(
        vec![
            bundle(Err("no session".into()), 1),
            bundle(message(b"one"), 2),
            bundle(Ok(None), 3),
            bundle(message(b"two"), 4),
        ],
        &[0xaau8; 8],
        &[0x55u8; 8],
    );
    assert_eq!(inbox.len(), 2);
    assert_eq!(inbox[0].body, b"one");
    assert_eq!(inbox[0].from, [4u8; 32]);
    assert_eq!(inbox[0].content_type, "text/plain");
    assert_eq!((inbox[0].hops, inbox[0].created_at), (2, 1_002));
    assert_eq!((inbox[1].body.as_slice(), inbox[1].hops), (b"two".as_slice(), 4));
    let labels: Vec<&str> = inbox[0].trace.iter().map(|h| h.app_label.as_str()).collect();
    assert_eq!(labels, ["Hop Relay", "device", "0f0f0f0f0f0f0f0f"]);
    assert_eq!(inbox[0].trace[2].node, [3u8; 8]);

    // A sender can be answered.
    let call = node.send_message(inbox[0].from.clone(), "t".into(), vec![], true).unwrap();
    assert_eq!(call.dst, [4u8; 32]);
    assert!(call.request_ack);
    assert!(call.tracing == Tracing::Untraceable);
}

#[test]
fn browsing_keeps_services_alone() {
    let advert = |kind, n: u8| Advert { publisher: [n; 32], kind, hops: n, created_at: n as u64 };
    let service = |title: &str| AdvertKind::Service {
        service: "presence".into(),
        title: title.into(),
        summary: "s".into(),
        tags: vec!["a".into(), "b".into()],
    };
    let hits = node().browse_reply(vec![
        advert(AdvertKind::Other, 1),
        advert(service("Alice"), 2),
        advert(service("Bob"), 3),
        advert(AdvertKind::Other, 4),
    ]);
    assert_eq!(hits.len(), 2);
    assert_eq!((hits[0].title.as_str(), hits[1].title.as_str()), ("Alice", "Bob"));
    assert_eq!(hits[0].publisher, [2u8; 32]);
    assert_eq!((hits[0].hops, hits[0].created_at), (2, 2));
    assert_eq!(hits[0].tags, ["a", "b"]);
    assert_eq!(hits[0].summary, "s");
}

#[test]
fn replies_are_told() {
    let node = node();
    let id = [6u8; 32];
    assert_eq!(node.send_message_reply(Ok(id)).unwrap(), id);
    let refused = node.send_message_reply(Err("too big".into()));
    assert!(matches!(refused, Err(FfiError::Hop(cause)) if cause == "too big"));
    assert_eq!(node.publish_prekey(Ok(id)).unwrap(), id);
    assert_eq!(node.send_to_reply(Ok(Some(id))).unwrap(), id);
    assert!(matches!(
        node.send_to_reply(Ok(None)),
        Err(FfiError::Hop(cause)) if cause == "peer not connected"
    ));
    assert!(matches!(
        node.send_to_reply(Err("sealed".into())),
        Err(FfiError::Hop(cause)) if cause == "sealed"
    ));
    assert!(matches!(node.send_to(vec![], "t".into(), vec![], true), Err(FfiError::BadKey)));
    assert_eq!(node.hps_leave_reply(Ok(Some(id))).unwrap(), id);
    assert!(node.hps_leave_reply(Err("x".into())).is_err());
    assert_eq!(node.hps_rekey_reply(Ok(vec![id, [7u8; 32]])).unwrap(), [id, [7u8; 32]]);
    assert!(node.hps_rekey_reply(Ok(vec![])).unwrap().is_empty());
    assert!(node.hps_rekey_reply(Err("not hosted".into())).is_err());
    assert!(node.send_http_response_reply(Err("x".into())).is_err());
    assert_eq!(node.send_service_request_reply(Ok(id)).unwrap(), id);
    assert_eq!(node.send_service_response_reply(Ok(id)).unwrap(), id);
}

#[test]
fn message_status_is_told() {
    let node = node();
    let status = node.message_status_reply(Some((3, true, 2, 150)));
    assert_eq!((status.relayed, status.delivered), (3, true));
    assert_eq!((status.delivery_hops, status.delivery_ms), (2, 150));
    let unknown = node.message_status_reply(None);
    assert!(!unknown.delivered);
    assert_eq!((unknown.relayed, unknown.delivery_hops, unknown.delivery_ms), (0, 0, 0));
}

#[test]
fn rekey_takes_every_member_or_none() {
    let node = node();
    let (a, b) = (vec![1u8; 32], vec![2u8; 32]);
    let call = node.hps_rekey("p".into(), " \t".into(), vec![a.clone(), b.clone()]).unwrap();
    assert!(call.new_path.is_none(), "white space alone keeps the path");
    assert_eq!(call.remove, [[1u8; 32], [2u8; 32]]);
    assert!(matches!(
        node.hps_rekey("p".into(), "q".into(), vec![a, vec![0u8; 33], b]),
        Err(FfiError::BadKey)
    ));
    let spaced = node.hps_rekey("p".into(), " q ".into(), vec![]).unwrap();
    assert_eq!(spaced.new_path.as_deref(), Some(" q "), "the path itself is not trimmed");
}

#[test]
fn service_calls_round_trip() {
    let node = node();
    assert!(matches!(
        node.send_service_request(vec![1u8; 31], "s".into(), "m".into(), vec![]),
        Err(FfiError::BadKey)
    ));
    let call = node
        .send_service_request(vec![1u8; 32], "weather".into(), "report".into(), b"temp=21".to_vec())
        .unwrap();
    assert_eq!((call.service.as_str(), call.method.as_str()), ("weather", "report"));
    let req_id = node.send_service_request_reply(Ok([3u8; 32])).unwrap();

    let reqs = node.take_service_requests(vec![ServiceRequest {
        from: [9u8; 32],
        id: [3u8; 32],
        service: call.service,
        method: call.method,
        args: call.args,
    }]);
    assert_eq!(reqs[0].request_id, req_id);
    assert_eq!((reqs[0].service.as_str(), reqs[0].method.as_str()), ("weather", "report"));
    assert_eq!(reqs[0].args, b"temp=21");

    let call = node
        .send_service_response(
            reqs[0].from.clone(),
            reqs[0].request_id.clone(),
            200,
            b"stored".to_vec(),
        )
        .unwrap();
    assert_eq!((call.to, call.for_id), ([9u8; 32], [3u8; 32]));
    assert!(matches!(
        node.send_service_response(vec![], vec![3u8; 32], 200, vec![]),
        Err(FfiError::BadKey)
    ));
    assert!(matches!(
        node.send_service_response(vec![9u8; 32], vec![], 200, vec![]),
        Err(FfiError::BadKey)
    ));

    let resps = node.take_service_responses(vec![ServiceResponse {
        from: [1u8; 32],
        for_id: call.for_id,
        status: call.status,
        body: call.body,
    }]);
    assert_eq!(resps[0].for_request_id, req_id);
    assert_eq!(resps[0].from, [1u8; 32]);
    assert_eq!((resps[0].status, resps[0].body.as_slice()), (200, b"stored".as_slice()));
}

#[test]
fn topics_are_told() {
    let node = node();
    let invites = node.take_hps_invites(vec![TopicInvite {
        path: "vip".into(),
        host: [1u8; 32],
        kind: ServiceKind::Service,
    }]);
    assert_eq!(invites.len(), 1);
    assert_eq!(invites[0].path, "vip");
    assert!(invites[0].kind == HpsKind::Service);
    let call = node.hps_accept_invite(invites[0].host.clone(), invites[0].path.clone()).unwrap();
    assert_eq!((call.path.as_str(), call.peer), ("vip", [1u8; 32]));

    let msgs = node.take_hps_messages(vec![TopicMessage {
        path: "vip".into(),
        sender: [2u8; 32],
        body: b"hello vip".to_vec(),
    }]);
    assert_eq!((msgs[0].path.as_str(), msgs[0].body.as_slice()), ("vip", b"hello vip".as_slice()));
    assert_eq!(msgs[0].sender, [2u8; 32]);

    let found = node.browse_discoverable(vec![(
        [1u8; 32],
        TopicMeta {
            path: "vip".into(),
            kind: ServiceKind::Channel,
            title: "VIP".into(),
            summary: "members".into(),
            access: AccessMode::Invite,
        },
    )]);
    assert_eq!(found[0].host, [1u8; 32]);
    assert_eq!((found[0].title.as_str(), found[0].summary.as_str()), ("VIP", "members"));
    assert!(found[0].kind == HpsKind::Channel && found[0].access == HpsAccess::Invite);

    let mine = node.hps_my_topics(vec![OwnTopic {
        host: [1u8; 32],
        path: "vip".into(),
        kind: ServiceKind::Channel,
        hosting: false,
        access: AccessMode::RequestToJoin,
    }]);
    assert!(!mine[0].hosting && mine[0].access == HpsAccess::RequestToJoin);
    assert_eq!(mine[0].host, [1u8; 32]);
    assert_eq!(node.hps_members_reply(vec![[5u8; 32]]), [[5u8; 32]]);
    assert_eq!(node.hps_pending_reply(vec![[6u8; 32]]), [[6u8; 32]]);
    assert_eq!(node.hps_reach_reply(4), 4);
}

#[test]
fn reach_records_are_told() {
    let call = node().sign_reach_record("wss://myaddress.com/_hop".into(), 3600);
    assert_eq!((call.endpoint.as_str(), call.ttl_secs), ("wss://myaddress.com/_hop", 3600));
    let call = verify_reach_record(vec![1, 2, 3], 0);
    assert_eq!(call.bytes, [1, 2, 3]);
    assert!(call.now.is_none(), "0 skips the expiry check");
    assert_eq!(verify_reach_record(vec![], 1_700_000_100).now, Some(1_700_000_100));

    let info = verify_reach_record_reply(Some(ReachClaim {
        address: [7u8; 32],
        endpoint: "wss://myaddress.com/_hop".into(),
        issued_at: 1_700_000_000,
        ttl_secs: 3600,
    }));
    assert!(info.valid);
    assert_eq!(info.address, [7u8; 32]);
    assert_eq!(info.endpoint, "wss://myaddress.com/_hop");
    assert_eq!((info.issued_at, info.ttl_secs), (1_700_000_000, 3600));

    let bad = verify_reach_record_reply(None);
    assert!(!bad.valid && bad.address.is_empty() && bad.endpoint.is_empty());
    assert_eq!((bad.issued_at, bad.ttl_secs), (0, 0));
}

#[test]
fn peers_are_told_as_the_core_has_them() {
    let node = node();
    assert!(node.is_secured_reply(true));
    assert!(node.knows_route_reply(true));
}

#[test]
fn identity_secret_round_trips_address() {
    // The core's identity is the secret it was made from; a stand-in address per secret.
    let address_of = |source: IdentitySource| match source {
        IdentitySource::Saved(secret) => secret.map(|b| b ^ 0xff),
        IdentitySource::Fresh => [0u8; 32],
    };
    let a = node();
    let addr = a.address(address_of(IdentitySource::Saved([21u8; 32])));
    let sec = a.secret([21u8; 32]);
    assert_eq!(sec.len(), 32, "secret is the 32-byte Ed25519 seed");
    // Restoring from the saved secret MUST reproduce the same address.
    let b = HopNode::with_secret(sec.clone());
    assert_eq!(
        a.address(address_of(b.identity)),
        addr,
        "restored identity keeps the same address"
    );
    // And the persistent constructor must do the same.
    let build = Build { full: true, sqlcipher: false };
    let c = HopNode::open(":memory:".into(), sec, Vec::new(), build);
    assert_eq!(
        a.address(address_of(c.identity)),
        addr,
        "persistent restore keeps the same address"
    );
}

#[test]
fn two_nodes_handshake_and_message_over_ffi() {
    let a = node();
    let b = node();
    let (a_addr, b_addr) = ([0xa1u8; 32], [0xb2u8; 32]);

    a.publish_prekey(Ok([1u8; 32])).unwrap();
    b.publish_prekey(Ok([2u8; 32])).unwrap();

    assert!(matches!(a.connected(1, true), BearerEvent::Connected(1, Role::Initiator)));
    assert!(matches!(b.connected(1, false), BearerEvent::Connected(1, Role::Responder)));
    // What A drains, B receives, on the same link.
    for packet in a.drain_outgoing(vec![(1, b"hello".to_vec())]) {
        assert!(matches!(
            b.received(packet.link, packet.bytes),
            BearerEvent::Data(1, bytes) if bytes == b"hello"
        ));
    }

    let call = a
        .send_message(b.address(b_addr), "text/plain".into(), b"hi over ffi".to_vec(), false)
        .unwrap();
    assert_eq!(call.dst, b_addr);
    a.send_message_reply(Ok([3u8; 32])).unwrap();

    let inbox = b.take_inbox(
        vec![InboxBundle {
            hops: 0,
            created_at: 0,
            trace: vec![],
            read: Ok(Some(Message {
                from: a_addr,
                content_type: call.content_type,
                body: call.body,
            })),
        }],
        &[1u8; 8],
        &[2u8; 8],
    );
    assert_eq!(inbox.len(), 1);
    assert_eq!(inbox[0].body, b"hi over ffi");
    assert_eq!(inbox[0].from, a.address(a_addr));
}

#[test]
fn hps_invite_channel_delivers_and_populates_host_and_member_views() {
    // Two nodes on the SAME app secret.
    let build = Build { full: true, sqlcipher: false };
    let plan = |_| HopNode::open(":memory:".into(), Vec::new(), vec![6u8; 32], build);
    let secrets: Vec<_> = [0, 1].map(plan).iter().map(|p| p.app_secret).collect();
    assert_eq!(secrets, [Some([6u8; 32]), Some([6u8; 32])]);
    let (a, b) = (node(), node());
    let (a_addr, b_addr) = ([0xa1u8; 32], vec![0xb2u8; 32]);

    // Host a Discoverable Invite channel.
    let hosted = a.register_service(
        "vip".into(),
        HpsKind::Channel,
        HpsAccess::Invite,
        HpsVisibility::Discoverable,
    );
    assert!(a.register_service_reply(None).is_empty());
    let meta = TopicMeta {
        path: hosted.path,
        kind: hosted.kind,
        title: String::new(),
        summary: String::new(),
        access: hosted.access,
    };
    assert!(
        b.browse_discoverable(vec![(a_addr, meta)]).iter().any(|t| t.path == "vip"),
        "the member sees the discoverable topic (browse_discoverable mapper)"
    );

    // Host invites the member; the member drains the invite (invite record mapper).
    let invite = a.hps_invite("vip".into(), b_addr.clone()).unwrap();
    assert!(invite.deed == TopicDeed::Invite);
    assert_eq!(invite.peer.as_slice(), b_addr);
    let invites = b.take_hps_invites(vec![TopicInvite {
        path: invite.path,
        host: a_addr,
        kind: ServiceKind::Channel,
    }]);
    assert_eq!(invites.len(), 1);
    assert_eq!(invites[0].path, "vip");

    // Member accepts; the host seals keys and records the member.
    let accept = b.hps_accept_invite(a.address(a_addr), "vip".into()).unwrap();
    assert!(accept.deed == TopicDeed::AcceptInvite);
    assert_eq!((accept.peer, accept.path.as_str()), (a_addr, "vip"));
    assert!(
        a.hps_members_reply(vec![invite.peer]).contains(&b_addr),
        "the accepted member is recorded on the host (members mapper)"
    );

    // Host publishes; the member receives it (take_hps_messages record mapper).
    a.hps_publish_reply(Ok([9u8; 32])).unwrap();
    let msgs = b.take_hps_messages(vec![TopicMessage {
        path: "vip".into(),
        sender: a_addr,
        body: b"hello vip".to_vec(),
    }]);
    assert_eq!(msgs.len(), 1);
    assert_eq!(msgs[0].body, b"hello vip");

    // The member's own topic list now includes the followed topic (member-side mapper).
    let followed = OwnTopic {
        host: a_addr,
        path: "vip".into(),
        kind: ServiceKind::Channel,
        hosting: false,
        access: AccessMode::Invite,
    };
    assert!(b.hps_my_topics(vec![followed]).iter().any(|t| t.path == "vip"));
    assert_eq!(a.hps_reach_reply(1), 1);
}

#[test]
fn hps_request_to_join_approval_keys_the_member() {
    let (a, b) = (node(), node());
    let (a_addr, b_addr) = ([0xa1u8; 32], vec![0xb2u8; 32]);

    let lobby = a.register_service(
        "lobby".into(),
        HpsKind::Channel,
        HpsAccess::RequestToJoin,
        HpsVisibility::Private,
    );
    assert!(matches!(
        (lobby.access, lobby.visibility),
        (AccessMode::RequestToJoin, Visibility::Private)
    ));
    let join = b.hps_subscribe(a.address(a_addr), "lobby".into()).unwrap();
    assert!(join.deed == TopicDeed::Subscribe);
    assert_eq!((join.peer, join.path.as_str()), (a_addr, "lobby"));
    b.hps_reply(Ok([1u8; 32])).unwrap();

    // Queued for approval, not auto-keyed.
    assert!(
        a.hps_pending_reply(vec![[0xb2u8; 32]]).contains(&b_addr),
        "the requester is queued pending host approval"
    );

    // Approve; the host seals the keys, then a publish reaches the now-member.
    let approve = a.hps_approve("lobby".into(), b_addr).unwrap();
    assert!(approve.deed == TopicDeed::Approve);
    assert_eq!((approve.peer, approve.path.as_str()), ([0xb2u8; 32], "lobby"));
    a.hps_reply(Ok([2u8; 32])).unwrap();
    a.hps_publish_reply(Ok([3u8; 32])).unwrap();
    let msgs = b.take_hps_messages(vec![TopicMessage {
        path: "lobby".into(),
        sender: a_addr,
        body: b"welcome".to_vec(),
    }]);
    assert_eq!(msgs.len(), 1);
    assert_eq!(msgs[0].body, b"welcome");
}

#[test]
fn browsing_by_tag_selects() {
    let advert = |title: &str, tags: &[&str]| Advert {
        publisher: [1u8; 32],
        kind: AdvertKind::Service {
            service: "s".into(),
            title: title.into(),
            summary: String::new(),
            tags: tags.iter().map(|t| t.to_string()).collect(),
        },
        hops: 1,
        created_at: 1,
    };
    let node = node();
    let all = node.browse_reply(vec![
        advert("one", &["a"]),
        advert("two", &["b"]),
        advert("three", &["b", "a"]),
    ]);
    let tagged = node.browse_reply(vec![advert("one", &["a"]), advert("three", &["b", "a"])]);
    let selected: Vec<_> = all
        .iter()
        .filter(|h| h.tags.iter().any(|t| t == "a"))
        .map(|h| h.title.clone())
        .collect();
    let titles: Vec<_> = tagged.iter().map(|h| h.title.clone()).collect();
    assert_eq!(titles, selected);
}

#[test]
fn rekeying_removes_who_was_named() {
    let node = node();
    let before = node.hps_members_reply(vec![[1u8; 32], [2u8; 32], [3u8; 32]]);
    let call = node.hps_rekey("p".into(), String::new(), vec![before[1].clone()]).unwrap();
    let kept = [[1u8; 32], [2u8; 32], [3u8; 32]]
        .into_iter()
        .filter(|k| !call.remove.contains(k))
        .collect();
    let after = node.hps_members_reply(kept);
    assert_eq!(after, [before[0].clone(), before[2].clone()]);
}
