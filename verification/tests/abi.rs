//! The C ABI's rules: NULL, UTF-8 and contained panics.
use hop::cabi::{
    hop_abi_version, hop_bytes_received, hop_cluster_join, hop_cluster_join_passphrase,
    hop_cluster_mark_done, hop_cluster_members, hop_cluster_set_quorum, hop_cluster_would_drop,
    hop_cluster_would_drop_reply, hop_is_secured_reply,
    hop_drain_outgoing, hop_drain_outgoing_reply, hop_is_secured, hop_link_down, hop_link_up,
    hop_message_status, hop_message_status_reply, hop_node_address, hop_node_is_persistent,
    hop_node_new, hop_node_open, hop_node_open_keyed, hop_node_rehydrate_dropped, hop_node_secret,
    hop_node_set_name, hop_node_tick, hop_node_with_secret, hop_poll_inbox, hop_poll_inbox_reply,
    hop_poll_service_requests, hop_poll_service_requests_reply, hop_poll_service_responses,
    hop_poll_service_responses_reply, hop_publish_prekey, hop_send_message, hop_send_message_reply,
    hop_send_service_request, hop_send_service_request_reply, hop_send_service_response,
    hop_send_service_response_reply, hop_send_to, hop_send_to_reply, hop_sign_reach_record,
    hop_sign_reach_record_reply, hop_subscribe, hop_verify_reach_record,
    hop_verify_reach_record_reply, HopLinkRole, HOP_ABI_VERSION,
};
use hop::error::FfiError;
use hop::mesh::{BearerEvent, IdentitySource, ReachClaim, Role};
use hop::messages::Tracing;
use hop::node::{Build, HopNode, PeerQuestion};
use hop::records::{InboxMessage, OutPacket, ServiceReq, ServiceResp};
use hop::step::Step;
use hop::store_open::StoreAction;

const FULL: Build = Build { full: true, sqlcipher: true };

fn node() -> HopNode {
    HopNode::new().opened(0).expect("an in-memory node has nothing to open")
}

#[test]
fn abi_version_matches_the_constant() {
    assert_eq!(hop_abi_version(), HOP_ABI_VERSION);
    assert_eq!(HOP_ABI_VERSION, 3);
}

#[test]
fn null_handles_are_safe_and_falsey() {
    // Every accessor must tolerate a NULL handle (a host that failed a ctor) without UB.
    let mut buf = [0u8; 32];
    assert!(!hop_node_address(None, Some(&mut buf)));
    assert_eq!(hop_node_secret(None, Some(&mut buf)), 0);
    assert_eq!(buf, [0u8; 32]);
    assert!(!hop_node_is_persistent(None));
    assert_eq!(hop_node_rehydrate_dropped(None), 0);
}

#[test]
fn identity_is_written_out() {
    let address: Vec<u8> = (1..33).collect();
    let mut out = [0u8; 32];
    assert!(hop_node_address(Some(address.clone()), Some(&mut out)));
    assert_eq!(out.as_slice(), address);
    assert!(!hop_node_address(Some(address.clone()), None));
    let mut secret = [0u8; 32];
    assert_eq!(hop_node_secret(Some(address.clone()), Some(&mut secret)), 32);
    assert_eq!(secret.as_slice(), address);
    assert_eq!(hop_node_secret(Some(address), None), 0);
}

#[test]
fn constructors_take_c_pointers() {
    // NULL path is rejected with a NULL handle (documented sentinel), not a crash.
    assert!(hop_node_open(None, None, None, FULL).is_none());
    assert!(hop_node_open(Some(&[0xff]), None, None, FULL).is_none());
    assert!(hop_node_open_keyed(None, None, None, None, FULL).is_none());

    let secret = [3u8; 32];
    let key = [0x5Au8; 32];
    let plan =
        hop_node_open_keyed(Some(b"node.db"), Some(&secret), None, Some(&key), FULL).expect("a plan");
    assert!(matches!(plan.identity, IdentitySource::Saved(k) if k == secret));
    assert!(plan.app_secret.is_none());
    let opening = plan.store.expect("a store to open");
    assert!(matches!(
        opening.action(),
        StoreAction::Open { path, key: k } if path == "node.db" && k == key
    ));

    let plan = hop_node_open(Some(b"node.db"), None, Some(&[6u8; 32]), FULL).expect("a plan");
    assert!(matches!(plan.identity, IdentitySource::Fresh));
    assert_eq!(plan.app_secret, Some([6u8; 32]));
    let opening = plan.store.expect("a store to open");
    assert!(matches!(opening.action(), StoreAction::Open { key, .. } if key.is_empty()));

    assert!(matches!(hop_node_new().identity, IdentitySource::Fresh));
    assert!(matches!(
        hop_node_with_secret(Some(&[7u8; 32])).identity,
        IdentitySource::Saved(k) if k == [7u8; 32]
    ));
    assert!(matches!(hop_node_with_secret(None).identity, IdentitySource::Fresh));
}

#[test]
fn secrets_restore_the_identity() {
    // A secret read out through the ABI restores the identity it came from.
    let secret: Vec<u8> = (50..82).collect();
    let node = node();
    let handed_out = node.secret(<[u8; 32]>::try_from(secret.as_slice()).expect("32 bytes"));
    let mut out = [0xeeu8; 32];
    assert_eq!(hop_node_secret(Some(handed_out), Some(&mut out)), 32);
    assert!(matches!(
        hop_node_with_secret(Some(&out)).identity,
        IdentitySource::Saved(s) if s.as_slice() == secret
    ));
}

#[test]
fn a_null_key_opens_plain() {
    let keyed = hop_node_open_keyed(Some(b"p"), None, None, None, FULL).expect("a plan");
    let empty = hop_node_open_keyed(Some(b"p"), None, None, Some(b""), FULL).expect("a plan");
    for plan in [keyed, empty] {
        let opening = plan.store.expect("a store to open");
        assert!(matches!(
            opening.action(),
            StoreAction::Open { path, key } if path == "p" && key.is_empty()
        ));
    }
}

#[test]
fn abi_sends_are_node_sends() {
    let node = node();
    let Step::Ask(abi) = hop_send_message(
        Some(&node),
        Some([9u8; 32]),
        Some(b"text/plain"),
        Some(b"hi"),
        true,
    ) else {
        panic!("a complete send goes to the core");
    };
    let own = node
        .send_message(vec![9u8; 32], "text/plain".into(), b"hi".to_vec(), true)
        .expect("a key");
    assert_eq!((abi.dst, abi.content_type, abi.body), (own.dst, own.content_type, own.body));
    assert_eq!(abi.request_ack, own.request_ack);
}

#[test]
fn a_live_handle_answers() {
    let node = node();
    assert!(!hop_node_is_persistent(Some(&node)));
    assert_eq!(hop_node_rehydrate_dropped(Some(&node)), 0);
    assert_eq!(hop_node_tick(Some(&node), 1_000), Some(1_000));
    assert_eq!(hop_node_tick(None, 1_000), None);
}

#[test]
fn null_and_garbage_inputs_return_sentinels_across_the_send_surface() {
    // Every send/query entry point must reject NULL node / NULL required pointers with its
    // documented sentinel (false / 0), never dereference NULL, never unwind.
    let ct: Option<&[u8]> = Some(b"text/plain");
    let dst = Some([1u8; 32]);
    let body: Option<&[u8]> = Some(b"x");
    // NULL node on each send path.
    assert!(matches!(hop_send_message(None, dst, ct, body, false), Step::Answer(false)));
    assert!(matches!(hop_send_to(None, dst, ct, body, false), Step::Answer(false)));
    assert!(!hop_publish_prekey(None));
    assert!(matches!(hop_is_secured(None, dst), Step::Answer(false)));
    assert!(matches!(hop_message_status(None, dst), Step::Answer(false)));

    // Live node, but NULL required pointers -> documented false, no deref.
    let live = node();
    let node = Some(&live);
    assert!(
        matches!(hop_send_message(node, None, ct, body, false), Step::Answer(false)),
        "NULL dst rejected"
    );
    assert!(
        matches!(hop_send_message(node, dst, None, body, false), Step::Answer(false)),
        "NULL content_type rejected"
    );
    assert!(matches!(hop_is_secured(node, None), Step::Answer(false)), "NULL addr rejected");
    assert!(matches!(hop_message_status(node, None), Step::Answer(false)), "NULL id rejected");
    assert!(
        matches!(hop_send_service_request(node, None, ct, ct, None), Step::Answer(false)),
        "NULL dst on service request rejected"
    );
    assert!(
        matches!(hop_send_service_response(node, None, None, 200, None), Step::Answer(false)),
        "NULL to/request_id on service response rejected"
    );

    // Text that is not UTF-8 is refused like NULL.
    let garbage: Option<&[u8]> = Some(&[0x80]);
    assert!(matches!(hop_send_message(node, dst, garbage, body, false), Step::Answer(false)));
    assert!(matches!(hop_send_to(node, dst, garbage, body, false), Step::Answer(false)));
    assert!(matches!(
        hop_send_service_request(node, dst, garbage, ct, None),
        Step::Answer(false)
    ));
    assert!(matches!(
        hop_send_service_request(node, dst, ct, garbage, None),
        Step::Answer(false)
    ));
}

#[test]
fn complete_sends_reach_the_core_as_they_are() {
    let live = node();
    let node = Some(&live);
    let ct: Option<&[u8]> = Some("töxt".as_bytes());
    let Step::Ask(call) = hop_send_message(node, Some([1u8; 32]), ct, Some(b"hello"), true) else {
        panic!("a complete send goes to the core");
    };
    assert!(call.tracing == Tracing::Untraceable);
    assert_eq!((call.dst, call.content_type.as_str()), ([1u8; 32], "töxt"));
    assert_eq!((call.body.as_slice(), call.request_ack), (b"hello".as_slice(), true));
    let Step::Ask(call) = hop_send_to(node, Some([2u8; 32]), ct, None, false) else {
        panic!("a complete send goes to the core");
    };
    assert_eq!((call.peer, call.body.len(), call.request_ack), ([2u8; 32], 0, false));

    let Step::Ask(call) =
        hop_send_service_request(node, Some([3u8; 32]), Some(b"weather"), Some(b""), Some(b"a"))
    else {
        panic!("a complete request goes to the core");
    };
    assert_eq!((call.dst, call.service.as_str(), call.method.as_str()), ([3u8; 32], "weather", ""));
    assert_eq!(call.args, b"a");

    let (to, id) = (Some([4u8; 32]), Some([5u8; 32]));
    let Step::Ask(call) = hop_send_service_response(node, to, id, 404, Some(b"none")) else {
        panic!("a complete response goes to the core");
    };
    assert_eq!((call.to, call.for_id, call.status), ([4u8; 32], [5u8; 32], 404));
    assert_eq!(call.body, b"none");

    assert!(matches!(
        hop_is_secured(node, Some([6u8; 32])),
        Step::Ask(PeerQuestion::HasSession(a)) if a == [6u8; 32]
    ));
    assert!(matches!(hop_message_status(node, Some([7u8; 32])), Step::Ask(i) if i == [7u8; 32]));
}

#[test]
fn sends_tell_their_outcome() {
    let node = node();
    let id = [8u8; 32];
    let mut out = [0u8; 32];
    assert!(hop_send_message_reply(&node, Some(Ok(id)), Some(&mut out)));
    assert_eq!(out, id);
    assert!(hop_send_message_reply(&node, Some(Ok(id)), None), "a NULL out_id is fine");
    let mut out = [1u8; 32];
    assert!(!hop_send_message_reply(&node, Some(Err("refused".into())), Some(&mut out)));
    assert!(!hop_send_message_reply(&node, None, Some(&mut out)), "a panic is a dropped send");
    assert_eq!(out, [1u8; 32], "nothing is written for a failed send");

    assert!(hop_send_to_reply(&node, Some(Ok(Some(id))), Some(&mut out)));
    assert_eq!(out, id);
    assert!(!hop_send_to_reply(&node, Some(Err("refused".into())), None));
    assert!(!hop_send_to_reply(&node, None, None));

    let mut out = [1u8; 32];
    assert!(hop_send_service_request_reply(&node, Some(Ok(id)), Some(&mut out)));
    assert_eq!(out, id);
    assert!(!hop_send_service_request_reply(&node, Some(Err("x".into())), Some(&mut out)));
    assert!(!hop_send_service_request_reply(&node, None, None));
    assert!(hop_send_service_response_reply(&node, Some(Ok(id))));
    assert!(!hop_send_service_response_reply(&node, Some(Err("x".into()))));
    assert!(!hop_send_service_response_reply(&node, None));

    assert!(hop_publish_prekey(Some(node.publish_prekey(Ok(id)))));
    assert!(!hop_publish_prekey(Some(Err(FfiError::Hop("x".into())))));
}

#[test]
fn wrapped_send_paths_run_clean_on_the_happy_path() {
    let node = node();
    assert!(hop_publish_prekey(Some(Ok(vec![1u8; 32]))), "prekey publishes cleanly");

    // Not connected to the peer, so send_to must return false (its documented failure).
    let mut out_id = [0u8; 32];
    let sent = hop_send_to_reply(&node, Some(Ok(None)), Some(&mut out_id));
    assert!(!sent, "send_to to an unconnected peer is a clean false");
    assert_eq!(out_id, [0u8; 32]);

    // message_status for an unknown id returns true (fields written) with delivered=false.
    let mut relayed = 1u32;
    let mut delivered = true;
    let ok = hop_message_status_reply(
        &node,
        Some(None),
        Some(&mut relayed),
        Some(&mut delivered),
        None,
        None,
    );
    assert!(ok);
    assert!(!delivered, "an unknown bundle id is not delivered");
    assert_eq!(relayed, 0);
}

#[test]
fn message_status_is_written_out() {
    let node = node();
    let (mut relayed, mut delivered, mut hops, mut ms) = (0u32, false, 0u8, 0u32);
    assert!(hop_message_status_reply(
        &node,
        Some(Some((4, true, 3, 120))),
        Some(&mut relayed),
        Some(&mut delivered),
        Some(&mut hops),
        Some(&mut ms),
    ));
    assert_eq!((relayed, delivered, hops, ms), (4, true, 3, 120));
    // A contained panic writes nothing.
    assert!(!hop_message_status_reply(&node, None, Some(&mut relayed), None, None, None));
    assert_eq!(relayed, 4);
}

#[test]
fn drain_and_poll_are_noops_with_a_null_sink_or_null_node() {
    // The poll-model drains must tolerate a NULL sink and a NULL node without UB (a host that
    // passes a bad callback, or drains a node that failed to open).
    let live = node();
    let node = Some(&live);
    assert!(!hop_drain_outgoing(node, false));
    assert!(!hop_poll_inbox(node, false));
    assert!(!hop_poll_service_requests(node, false));
    assert!(!hop_poll_service_responses(node, false));
    // NULL node with a real-looking sink is also safe.
    assert!(!hop_drain_outgoing(None, true));
    assert!(!hop_poll_inbox(None, true));
    assert!(!hop_poll_service_requests(None, true));
    assert!(!hop_poll_service_responses(None, true));
    // With both there is something to do.
    assert!(hop_drain_outgoing(node, true));
    assert!(hop_poll_inbox(node, true));
    assert!(hop_poll_service_requests(node, true));
    assert!(hop_poll_service_responses(node, true));
}

#[test]
fn a_drain_that_panicked_is_an_empty_batch() {
    assert!(hop_drain_outgoing_reply(None).is_empty());
    assert!(hop_poll_inbox_reply(None).is_empty());
    assert!(hop_poll_service_requests_reply(None).is_empty());
    assert!(hop_poll_service_responses_reply(None).is_empty());
    assert!(hop_sign_reach_record_reply(None).is_empty());
    assert_eq!(hop_cluster_members(None), 0);
}

#[test]
fn sinks_get_rows_in_order() {
    let packets = vec![OutPacket { link: 1, bytes: vec![1] }, OutPacket { link: 2, bytes: vec![] }];
    let rows = hop_drain_outgoing_reply(Some(packets));
    assert_eq!((rows.len(), rows[0].link, rows[1].link), (2, 1, 2));

    let message = |content_type: &str, hops| InboxMessage {
        from: vec![1u8; 32],
        content_type: content_type.to_string(),
        body: b"b".to_vec(),
        hops,
        created_at: 99,
        trace: vec![],
    };
    let rows = hop_poll_inbox_reply(Some(vec![message("text/plain", 1), message("a\0b", 2)]));
    assert_eq!(rows.len(), 2);
    assert_eq!((rows[0].content_type.as_slice(), rows[0].hops), (b"text/plain".as_slice(), 1));
    assert_eq!((rows[1].content_type.as_slice(), rows[1].hops), (b"ab".as_slice(), 2));
    assert_eq!((rows[0].from.as_slice(), rows[0].created_at), ([1u8; 32].as_slice(), 99));
    assert_eq!(rows[0].body, b"b");

    let rows = hop_poll_service_requests_reply(Some(vec![ServiceReq {
        from: vec![1u8; 32],
        request_id: vec![2u8; 32],
        service: "wea\0ther".into(),
        method: "report\0".into(),
        args: b"x".to_vec(),
    }]));
    assert_eq!((rows[0].service.as_slice(), rows[0].method.as_slice()), (b"weather".as_slice(), b"report".as_slice()));
    assert_eq!((rows[0].from.as_slice(), rows[0].request_id.as_slice()), ([1u8; 32].as_slice(), [2u8; 32].as_slice()));
    assert_eq!(rows[0].args, b"x");

    let rows = hop_poll_service_responses_reply(Some(vec![ServiceResp {
        from: vec![1u8; 32],
        for_request_id: vec![2u8; 32],
        status: 200,
        body: b"ok".to_vec(),
    }]));
    assert_eq!((rows[0].status, rows[0].body.as_slice()), (200, b"ok".as_slice()));
}

#[test]
fn subscribe_and_set_name_are_tolerant_and_effect_free_of_panics() {
    let topic: Option<&[u8]> = Some(b"hops.chat");
    let name: Option<&[u8]> = Some(b"esp32-01");
    // NULL node: no-op.
    assert!(hop_subscribe(None, topic).is_none());
    assert!(hop_node_set_name(None, name).is_none());

    let live = node();
    let node = Some(&live);
    // NULL string args: no-op, no deref.
    assert!(hop_subscribe(node, None).is_none());
    assert!(hop_node_set_name(node, None).is_none());
    // Valid calls run clean.
    assert_eq!(hop_subscribe(node, topic).as_deref(), Some("hops.chat"));
    assert_eq!(hop_node_set_name(node, name), Some(Some("esp32-01".to_string())));
    // An empty name clears; a name that is not UTF-8 changes nothing.
    assert_eq!(hop_node_set_name(node, Some(b"")), Some(None));
    assert_eq!(hop_node_set_name(node, Some(&[0xc0])), None);
}

#[test]
fn link_role_out_of_range_is_treated_as_acceptor_not_ub() {
    // Only 0 selects Dialer; anything else is Acceptor, also an out-of-range int (here 7).
    let live = node();
    let node = Some(&live);
    assert!(matches!(
        hop_link_up(node, 11, 0),
        Some(BearerEvent::Connected(11, Role::Initiator))
    ));
    assert!(matches!(
        hop_link_up(node, 22, 7),
        Some(BearerEvent::Connected(22, Role::Responder))
    ));
    assert!(matches!(
        hop_link_up(node, 11, HopLinkRole::Dialer as u32),
        Some(BearerEvent::Connected(11, Role::Initiator))
    ));
    assert!(matches!(
        hop_link_up(node, 22, HopLinkRole::Acceptor as u32),
        Some(BearerEvent::Connected(22, Role::Responder))
    ));
    assert!(hop_link_up(None, 11, 0).is_none());
}

#[test]
fn link_bytes_and_link_down() {
    let live = node();
    let node = Some(&live);
    let junk = [0xABu8; 128];
    assert!(matches!(
        hop_bytes_received(node, 5, Some(&junk)),
        Some(BearerEvent::Data(5, b)) if b == junk
    ));
    // Zero-length frame.
    assert!(matches!(
        hop_bytes_received(node, 5, None),
        Some(BearerEvent::Data(5, b)) if b.is_empty()
    ));
    assert!(hop_bytes_received(None, 5, Some(&junk)).is_none());
    assert!(matches!(hop_link_down(node, 11), Some(BearerEvent::Disconnected(11))));
    assert!(hop_link_down(None, 11).is_none());
}

#[test]
fn cluster_calls_need_all_their_pointers() {
    let live = node();
    let node = Some(&live);
    let (a, b) = (Some([1u8; 32]), Some([2u8; 32]));
    assert_eq!(hop_cluster_join(node, a), a);
    assert_eq!(hop_cluster_join(node, None), None);
    assert_eq!(hop_cluster_join(None, a), None);

    assert_eq!(hop_cluster_join_passphrase(node, Some(b"pass")), Some(b"pass".to_vec()));
    assert_eq!(hop_cluster_join_passphrase(node, Some(b"")), Some(vec![]));
    assert_eq!(hop_cluster_join_passphrase(node, None), None, "a NULL passphrase is a no-op");
    assert_eq!(hop_cluster_join_passphrase(None, Some(b"pass")), None);

    assert_eq!(hop_cluster_mark_done(node, a, b), Some(([1u8; 32], [2u8; 32])));
    assert_eq!(hop_cluster_mark_done(node, a, None), None);
    assert_eq!(hop_cluster_mark_done(node, None, b), None);
    assert_eq!(hop_cluster_mark_done(None, a, b), None);

    assert!(matches!(
        hop_cluster_would_drop(node, a, b),
        Step::Ask((f, i)) if f == [1u8; 32] && i == [2u8; 32]
    ));
    assert!(matches!(hop_cluster_would_drop(node, None, b), Step::Answer(false)));
    assert!(matches!(hop_cluster_would_drop(node, a, None), Step::Answer(false)));
    assert!(matches!(hop_cluster_would_drop(None, a, b), Step::Answer(false)));

    assert_eq!(hop_cluster_members(Some(live.cluster_members(3))), 3);
    assert_eq!(hop_cluster_set_quorum(node, 2), Some(2));
    assert_eq!(hop_cluster_set_quorum(None, 2), None);
}

#[test]
fn reach_records_cross_the_boundary() {
    let live = node();
    let node = Some(&live);
    let endpoint: Option<&[u8]> = Some(b"wss://myaddress.com/_hop");
    let call = hop_sign_reach_record(node, endpoint, 3600, true).expect("a record to sign");
    assert_eq!((call.endpoint.as_str(), call.ttl_secs), ("wss://myaddress.com/_hop", 3600));
    assert!(hop_sign_reach_record(node, endpoint, 3600, false).is_none());
    assert!(hop_sign_reach_record(node, None, 3600, true).is_none());
    assert!(hop_sign_reach_record(node, Some(&[0xff]), 3600, true).is_none());
    assert!(hop_sign_reach_record(None, endpoint, 3600, true).is_none());
    assert_eq!(hop_sign_reach_record_reply(Some(vec![1, 2])), [1, 2]);

    let call = hop_verify_reach_record(Some(&[1, 2]), 1_700_000_100);
    assert_eq!((call.bytes.as_slice(), call.now), ([1u8, 2].as_slice(), Some(1_700_000_100)));
    assert!(hop_verify_reach_record(None, 0).now.is_none());

    let claim = || ReachClaim {
        address: [7u8; 32],
        endpoint: "wss://my\0address.com/_hop".into(),
        issued_at: 1_700_000_000,
        ttl_secs: 3600,
    };
    let (valid, row) = hop_verify_reach_record_reply(Some(claim()), true);
    let row = row.expect("a row for the sink");
    assert!(valid);
    assert_eq!(row.address, [7u8; 32]);
    assert_eq!(row.endpoint, b"wss://myaddress.com/_hop");
    assert_eq!((row.issued_at, row.ttl_secs), (1_700_000_000, 3600));
    let (valid, row) = hop_verify_reach_record_reply(Some(claim()), false);
    assert!(valid && row.is_none(), "valid also without a sink");
    let (valid, row) = hop_verify_reach_record_reply(None, true);
    assert!(!valid && row.is_none(), "a tampered record is rejected");
}

#[test]
fn yes_and_no_come_through_and_a_panic_is_no() {
    assert!(hop_is_secured_reply(Some(true)));
    assert!(!hop_is_secured_reply(Some(false)));
    assert!(!hop_is_secured_reply(None));
    assert!(hop_cluster_would_drop_reply(Some(true)));
    assert!(!hop_cluster_would_drop_reply(Some(false)));
    assert!(!hop_cluster_would_drop_reply(None));
}

#[test]
fn with_secret_is_deterministic_across_the_abi() {
    // A host persists the secret and restores the SAME identity.
    let seed = [7u8; 32];
    let a = hop_node_with_secret(Some(&seed));
    let b = hop_node_with_secret(Some(&seed));
    assert!(
        matches!(
            (a.identity, b.identity),
            (IdentitySource::Saved(aa), IdentitySource::Saved(ba)) if aa == ba
        ),
        "same secret -> same identity through the ABI"
    );

    // And the secret read back out re-creates the same identity.
    let node = a.opened(0).expect("nothing to open");
    let mut secret_out = [0u8; 32];
    assert_eq!(hop_node_secret(Some(node.secret(seed)), Some(&mut secret_out)), 32);
    let c = hop_node_with_secret(Some(&secret_out));
    assert!(
        matches!(c.identity, IdentitySource::Saved(ca) if ca == seed),
        "secret read back re-creates the identity"
    );
}

#[test]
fn garbage_bytes_on_a_link_are_swallowed_not_unwound() {
    let live = node();
    let node = Some(&live);
    assert!(matches!(
        hop_link_up(node, 5, HopLinkRole::Acceptor as u32),
        Some(BearerEvent::Connected(5, Role::Responder))
    ));
    let junk = [0xABu8; 128];
    assert!(matches!(
        hop_bytes_received(node, 5, Some(&junk)),
        Some(BearerEvent::Data(5, bytes)) if bytes == junk
    ));
    // A never-up link id, too.
    assert!(matches!(
        hop_bytes_received(node, 999, Some(&junk)),
        Some(BearerEvent::Data(999, bytes)) if bytes == junk
    ));
    // Zero-length frame.
    assert!(matches!(
        hop_bytes_received(node, 5, None),
        Some(BearerEvent::Data(5, bytes)) if bytes.is_empty()
    ));

    // The node still answers accessors afterwards.
    let mut addr = [0u8; 32];
    assert!(
        hop_node_address(Some(live.address([4u8; 32])), Some(&mut addr)),
        "node still usable after hostile bytes"
    );
    assert_ne!(addr, [0u8; 32]);
}

#[test]
fn new_node_yields_a_nonzero_address_then_frees() {
    let plan = hop_node_new();
    assert!(matches!(plan.identity, IdentitySource::Fresh), "a generated identity");
    let node = plan.opened(0).expect("ctor returns a handle");
    let mut addr = [0u8; 32];
    assert!(hop_node_address(Some(node.address([0x3du8; 32])), Some(&mut addr)));
    assert_ne!(addr, [0u8; 32], "a real Ed25519 address, not zeros");
    assert_eq!(addr, [0x3du8; 32]);
}

#[test]
fn abi_cluster_dedup_propagates_between_replicas() {
    // Two nodes with the SAME identity (endpoint replicas) cluster over the ABI. What a replica
    // knows as handled is kept here, as the core keeps it.
    let secret = vec![5u8; 32];
    let (plan_a, plan_b) = (HopNode::with_secret(secret.clone()), HopNode::with_secret(secret));
    assert!(
        matches!(
            (plan_a.identity, plan_b.identity),
            (IdentitySource::Saved(x), IdentitySource::Saved(y)) if x == y
        ),
        "replicas share the identity"
    );
    let a = plan_a.opened(0).expect("nothing to open");
    let b = plan_b.opened(0).expect("nothing to open");
    let cs = [7u8; 32];
    assert_eq!(hop_cluster_join(Some(&a), Some(cs)), Some(cs));
    assert_eq!(hop_cluster_join(Some(&b), Some(cs)), Some(cs));

    let from = [1u8; 32];
    let id = [2u8; 32];
    let mut handled: Vec<([u8; 32], [u8; 32])> = Vec::new();
    let would_drop = |handled: &Vec<([u8; 32], [u8; 32])>, from, id| {
        match hop_cluster_would_drop(Some(&b), Some(from), Some(id)) {
            Step::Ask(request) => hop_cluster_would_drop_reply(Some(handled.contains(&request))),
            Step::Answer(dropped) => dropped,
        }
    };
    assert!(!would_drop(&handled, from, id), "B has not learned it yet");

    handled.extend(hop_cluster_mark_done(Some(&a), Some(from), Some(id)));

    assert!(would_drop(&handled, from, id), "B learned A's HANDLED via the ABI cluster path");
    assert!(
        hop_cluster_members(Some(b.cluster_members(2))) >= 2,
        "the replicas see each other"
    );
    assert!(!would_drop(&handled, from, [9u8; 32]), "unrelated request not dropped");
}
