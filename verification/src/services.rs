//! Requests and responses: services, `hops://` fetches, and name resolution.
use vstd::prelude::*;

use crate::bytes::{is_key, to32};
use crate::error::FfiError;
use crate::mesh::{
    HnsLookup, HnsResolution, HttpRequest, HttpResponse, ServiceRequest, ServiceResponse,
};
use crate::node::HopNode;
use crate::reach::SignCall;
use crate::records::{
    HnsCacheEntry, HnsLookupResult, HnsRecord, HttpReq, HttpResp, ServiceReq, ServiceResp,
};
use crate::reply::{id_reply, tells_done, tells_id, unit_reply};
use crate::vecs::map_vec;

verus! {

/// A service request for the core to send.
pub struct ServiceCall {
    pub dst: [u8; 32],
    pub service: String,
    pub method: String,
    pub args: Vec<u8>,
}

impl ServiceCall {
    pub open spec fn carries(
        self,
        dst: Seq<u8>,
        service: Seq<char>,
        method: Seq<char>,
        args: Seq<u8>,
    ) -> bool {
        &&& self.dst@ == dst
        &&& self.service@ == service
        &&& self.method@ == method
        &&& self.args@ == args
    }
}

/// A service response for the core to seal back to the caller.
pub struct ServiceResponseCall {
    pub to: [u8; 32],
    pub for_id: [u8; 32],
    pub status: u16,
    pub body: Vec<u8>,
}

impl ServiceResponseCall {
    pub open spec fn carries(
        self,
        to: Seq<u8>,
        for_id: Seq<u8>,
        status: u16,
        body: Seq<u8>,
    ) -> bool {
        &&& self.to@ == to
        &&& self.for_id@ == for_id
        &&& self.status == status
        &&& self.body@ == body
    }
}

/// An HTTP response for the core to seal back to the requester.
pub struct HttpResponseCall {
    pub to: [u8; 32],
    pub for_id: [u8; 32],
    pub status: u16,
    /// No header is ever sent.
    pub headers: Vec<(String, String)>,
    pub body: Vec<u8>,
}

impl HttpResponseCall {
    pub open spec fn carries(
        self,
        to: Seq<u8>,
        for_id: Seq<u8>,
        status: u16,
        body: Seq<u8>,
    ) -> bool {
        &&& self.to@ == to
        &&& self.for_id@ == for_id
        &&& self.status == status
        &&& self.headers@.len() == 0
        &&& self.body@ == body
    }
}

/// What becomes of a response to service request `for_id` of `to`: the core is asked to seal it as
/// it is, exactly if both are keys.
pub open spec fn is_service_response_call(
    call: Result<ServiceResponseCall, FfiError>,
    to: Seq<u8>,
    for_id: Seq<u8>,
    status: u16,
    body: Seq<u8>,
) -> bool {
    match call {
        Ok(c) => is_key(to) && is_key(for_id) && c.carries(to, for_id, status, body),
        Err(e) => !(is_key(to) && is_key(for_id)) && e == FfiError::BadKey,
    }
}

/// What becomes of a response to HTTP request `for_id` of `to`: the core is asked to seal it as it
/// is, without a header, exactly if both are keys.
pub open spec fn is_http_response_call(
    call: Result<HttpResponseCall, FfiError>,
    to: Seq<u8>,
    for_id: Seq<u8>,
    status: u16,
    body: Seq<u8>,
) -> bool {
    match call {
        Ok(c) => is_key(to) && is_key(for_id) && c.carries(to, for_id, status, body),
        Err(e) => !(is_key(to) && is_key(for_id)) && e == FfiError::BadKey,
    }
}

/// Take both as keys; `BadKey` if one of them is not.
fn to32_both(a: &[u8], b: &[u8]) -> (keys: Result<([u8; 32], [u8; 32]), FfiError>)
    ensures
        match keys {
            Ok(k) => is_key(a@) && is_key(b@) && k.0@ == a@ && k.1@ == b@,
            Err(e) => !(is_key(a@) && is_key(b@)) && e == FfiError::BadKey,
        },
{
    match (to32(a), to32(b)) {
        (Ok(a), Ok(b)) => Ok((a, b)),
        _ => Err(FfiError::BadKey),
    }
}

/// A `hops://` request for the core to send.
pub struct HopsCall {
    pub endpoint: [u8; 32],
    pub host: String,
    pub method: String,
    pub url: String,
    /// No header is ever sent.
    pub headers: Vec<(String, String)>,
    pub body: Vec<u8>,
    pub max_resp: u32,
}

impl HopsCall {
    pub open spec fn carries(
        self,
        endpoint: Seq<u8>,
        host: Seq<char>,
        method: Seq<char>,
        url: Seq<char>,
        body: Seq<u8>,
        max_resp: u32,
    ) -> bool {
        &&& self.endpoint@ == endpoint
        &&& self.host@ == host
        &&& self.method@ == method
        &&& self.url@ == url
        &&& self.headers@.len() == 0
        &&& self.body@ == body
        &&& self.max_resp == max_resp
    }
}

/// A domain for the core to resolve.
pub struct ResolveCall {
    pub domain: String,
}

/// A reach record that the host fetched, for the core to check and cache.
pub struct ProvideCall {
    pub domain: String,
    pub record: Vec<u8>,
}

impl HopNode {
    /// Send a `hops://` request sealed and addressed to a specific endpoint's Hop address. `host`
    /// is the authorized domain (the endpoint validates it and refuses anything else); `url` is the
    /// path and query only. Gives the request for the core to send, whose reply
    /// `send_hops_request_reply` tells; the response arrives via `take_http_responses`.
    pub fn send_hops_request(
        &self,
        endpoint: Vec<u8>,
        host: String,
        method: String,
        url: String,
        body: Vec<u8>,
        max_resp: u32,
    ) -> (call: Result<HopsCall, FfiError>)
        ensures
            match call {
                Ok(c) => is_key(endpoint@) && c.carries(
                    endpoint@,
                    host@,
                    method@,
                    url@,
                    body@,
                    max_resp,
                ),
                Err(e) => !is_key(endpoint@) && e == FfiError::BadKey,
            },
            call is Ok <==> endpoint@.len() == 32,
            call matches Ok(c) ==> c.endpoint@ == endpoint@ && c.host@ == host@ && c.method@ == method@
                && c.url@ == url@ && c.headers@.len() == 0 && c.body@ == body@ && c.max_resp
                == max_resp,
    {
        match to32(endpoint.as_slice()) {
            Ok(endpoint) => Ok(
                HopsCall { endpoint, host, method, url, headers: Vec::new(), body, max_resp },
            ),
            Err(e) => Err(e),
        }
    }

    /// The request's bundle id, or why the core refused it.
    pub fn send_hops_request_reply(&self, reply: Result<[u8; 32], String>) -> (answer: Result<
        Vec<u8>,
        FfiError,
    >)
        ensures
            tells_id(answer, reply),
    {
        id_reply(reply)
    }

    /// Seal an HTTP response back to a requester (gateway side). Gives the response for the core to
    /// seal, whose reply `send_http_response_reply` tells.
    pub fn send_http_response(
        &self,
        to: Vec<u8>,
        for_request_id: Vec<u8>,
        status: u16,
        body: Vec<u8>,
    ) -> (call: Result<HttpResponseCall, FfiError>)
        ensures
            is_http_response_call(call, to@, for_request_id@, status, body@),
            call is Ok <==> to@.len() == 32 && for_request_id@.len() == 32,
            call matches Ok(c) ==> c.to@ == to@ && c.for_id@ == for_request_id@ && c.status == status
                && c.body@ == body@ && c.headers@.len() == 0,
            call matches Err(e) ==> e == FfiError::BadKey,
    {
        match to32_both(to.as_slice(), for_request_id.as_slice()) {
            Ok((to, for_id)) => Ok(HttpResponseCall { to, for_id, status, headers: Vec::new(), body }),
            Err(e) => Err(e),
        }
    }

    /// Whether the response was sealed, or why the core refused it.
    pub fn send_http_response_reply(&self, reply: Result<(), String>) -> (answer: Result<
        (),
        FfiError,
    >)
        ensures
            tells_done(answer, reply),
            match (answer, reply) {
                (Ok(_), Ok(_)) => true,
                (Err(e), Err(cause)) => e == FfiError::Hop(cause),
                _ => false,
            },
    {
        unit_reply(reply)
    }

    /// Egress HTTP requests addressed to this node as a gateway. Takes what the core drained.
    pub fn take_http_requests(&self, requests: Vec<HttpRequest>) -> (records: Vec<HttpReq>)
        ensures
            records@.len() == requests@.len(),
            forall|i: int| 0 <= i < records@.len() ==> (#[trigger] records@[i]).shows(requests@[i]),
    {
        map_vec(requests, HttpReq::of)
    }

    /// HTTP responses sealed back to this node as a requester. Takes what the core drained.
    pub fn take_http_responses(&self, responses: Vec<HttpResponse>) -> (records: Vec<HttpResp>)
        ensures
            records@.len() == responses@.len(),
            forall|i: int|
                0 <= i < records@.len() ==> (#[trigger] records@[i]).shows(responses@[i]),
    {
        map_vec(responses, HttpResp::of)
    }

    /// Call a service/command on `dst`. For the built-in identity service pass `service_identify()`
    /// as `service`; the reply arrives via `take_service_responses` (decode an identify reply with
    /// `decode_identity`). Gives the request for the core to send, whose reply
    /// `send_service_request_reply` tells.
    pub fn send_service_request(
        &self,
        dst: Vec<u8>,
        service: String,
        method: String,
        args: Vec<u8>,
    ) -> (call: Result<ServiceCall, FfiError>)
        ensures
            match call {
                Ok(c) => is_key(dst@) && c.carries(dst@, service@, method@, args@),
                Err(e) => !is_key(dst@) && e == FfiError::BadKey,
            },
            call is Ok <==> dst@.len() == 32,
            call matches Ok(c) ==> c.dst@ == dst@ && c.service@ == service@ && c.method@ == method@
                && c.args@ == args@,
    {
        match to32(dst.as_slice()) {
            Ok(dst) => Ok(ServiceCall { dst, service, method, args }),
            Err(e) => Err(e),
        }
    }

    /// The request id, or why the core refused the request.
    pub fn send_service_request_reply(&self, reply: Result<[u8; 32], String>) -> (answer: Result<
        Vec<u8>,
        FfiError,
    >)
        ensures
            tells_id(answer, reply),
    {
        id_reply(reply)
    }

    /// Seal a response to a custom service request back to its caller (app side). Use the
    /// `ServiceReq`'s `from` as `to` and its `request_id` as `for_request_id`. Gives the response
    /// for the core to seal, whose reply `send_service_response_reply` tells.
    pub fn send_service_response(
        &self,
        to: Vec<u8>,
        for_request_id: Vec<u8>,
        status: u16,
        body: Vec<u8>,
    ) -> (call: Result<ServiceResponseCall, FfiError>)
        ensures
            is_service_response_call(call, to@, for_request_id@, status, body@),
            call is Ok <==> to@.len() == 32 && for_request_id@.len() == 32,
            call matches Ok(c) ==> c.to@ == to@ && c.for_id@ == for_request_id@ && c.status == status
                && c.body@ == body@,
            call matches Err(e) ==> e == FfiError::BadKey,
    {
        match to32_both(to.as_slice(), for_request_id.as_slice()) {
            Ok((to, for_id)) => Ok(ServiceResponseCall { to, for_id, status, body }),
            Err(e) => Err(e),
        }
    }

    /// The response's bundle id, or why the core refused it.
    pub fn send_service_response_reply(&self, reply: Result<[u8; 32], String>) -> (answer: Result<
        Vec<u8>,
        FfiError,
    >)
        ensures
            tells_id(answer, reply),
    {
        id_reply(reply)
    }

    /// Custom service requests addressed to this node (built-in `hop.` services are answered by the
    /// core and never appear here). Takes what the core drained.
    pub fn take_service_requests(&self, requests: Vec<ServiceRequest>) -> (records: Vec<ServiceReq>)
        ensures
            records@.len() == requests@.len(),
            forall|i: int| 0 <= i < records@.len() ==> (#[trigger] records@[i]).shows(requests@[i]),
    {
        map_vec(requests, ServiceReq::of)
    }

    /// Service responses sealed back to this node as a caller. Takes what the core drained.
    pub fn take_service_responses(&self, responses: Vec<ServiceResponse>) -> (records: Vec<
        ServiceResp,
    >)
        ensures
            records@.len() == responses@.len(),
            forall|i: int|
                0 <= i < records@.len() ==> (#[trigger] records@[i]).shows(responses@[i]),
    {
        map_vec(responses, ServiceResp::of)
    }

    /// Resolve `domain` to its hops endpoint address. Gives the domain for the core to resolve, and
    /// `resolve_hns_reply` tells how that started.
    pub fn resolve_hns(&self, domain: String) -> (call: ResolveCall)
        ensures
            call.domain@ == domain@,
    {
        ResolveCall { domain }
    }

    /// How the core's lookup started.
    pub fn resolve_hns_reply(&self, lookup: HnsLookup) -> (result: HnsLookupResult)
        ensures
            result.shows(lookup),
    {
        HnsLookupResult::of(lookup)
    }

    /// Feed back the reach-record bytes fetched from a domain's `/.well-known/hop`. Gives what to
    /// hand to the core, which verifies the self-certifying record and caches the address only if it
    /// verifies.
    pub fn provide_reach_record(&self, domain: String, record: Vec<u8>) -> (call: ProvideCall)
        ensures
            call.domain@ == domain@,
            call.record@ == record@,
    {
        ProvideCall { domain, record }
    }

    /// Sign a self-certifying reachability record for this node's address, binding it to `endpoint`
    /// (e.g. `wss://myaddress.com/_hop`) for `ttl_secs`. Gives the record for the core to sign.
    pub fn sign_reach_record(&self, endpoint: String, ttl_secs: u32) -> (call: SignCall)
        ensures
            call.endpoint@ == endpoint@,
            call.ttl_secs == ttl_secs,
    {
        SignCall { endpoint, ttl_secs }
    }

    /// A snapshot of the live HNS cache (for the debug view): each cached domain, its address
    /// (empty = negative), and the remaining TTL in seconds (ticks down to expiry). Takes the
    /// core's, with the remaining lifetimes in milliseconds.
    pub fn hns_cache(&self, entries: Vec<(String, Option<[u8; 32]>, u64)>) -> (records: Vec<
        HnsCacheEntry,
    >)
        ensures
            records@.len() == entries@.len(),
            forall|i: int| 0 <= i < records@.len() ==> (#[trigger] records@[i]).shows(entries@[i]),
    {
        map_vec(entries, HnsCacheEntry::of)
    }

    /// Finished HNS resolutions (positive or negative). Takes what the core drained.
    pub fn take_hns_results(&self, results: Vec<HnsResolution>) -> (records: Vec<HnsRecord>)
        ensures
            records@.len() == results@.len(),
            forall|i: int| 0 <= i < records@.len() ==> (#[trigger] records@[i]).shows(results@[i]),
    {
        map_vec(results, HnsRecord::of)
    }
}

/// The built-in identity service name: call it on a peer to learn its display name and kind.
pub fn service_identify() -> (name: String)
    ensures
        name@ == "hop.identify"@,
{
    "hop.identify".to_string()
}

} // verus!
