//! Reachability records: self-certifying endpoint discovery.
use vstd::prelude::*;

use crate::bytes::to_vec;
use crate::mesh::ReachClaim;

verus! {

/// A verified reachability record. `valid` false = the signature failed or the record expired; the
/// other fields are then meaningless.
#[derive(Debug)]
pub struct ReachInfo {
    pub valid: bool,
    /// The reachable Hop address (32 bytes) the record self-certifies.
    pub address: Vec<u8>,
    /// The endpoint spec, e.g. `wss://myaddress.com/_hop` or `1.2.3.4:9944`.
    pub endpoint: String,
    pub issued_at: u64,
    pub ttl_secs: u32,
}

impl ReachInfo {
    /// What the record says of a verification that gave `claim`.
    pub open spec fn shows(self, claim: Option<ReachClaim>) -> bool {
        match claim {
            Some(c) => {
                &&& self.valid
                &&& self.address@ == c.address@
                &&& self.endpoint@ == c.endpoint@
                &&& self.issued_at == c.issued_at
                &&& self.ttl_secs == c.ttl_secs
            },
            None => {
                &&& !self.valid
                &&& self.address@.len() == 0
                &&& self.endpoint@.len() == 0
                &&& self.issued_at == 0
                &&& self.ttl_secs == 0
            },
        }
    }
}

/// A reach record for the core to sign.
pub struct SignCall {
    pub endpoint: String,
    pub ttl_secs: u32,
}

/// A reach record for the core to verify.
pub struct VerifyCall {
    pub bytes: Vec<u8>,
    /// The clock to check its expiry against; `None` skips that.
    pub now: Option<u64>,
}

/// The clock that `now_secs` stands for: none if it is 0.
pub open spec fn clock(now_secs: u64) -> Option<u64> {
    if now_secs == 0 {
        None
    } else {
        Some(now_secs)
    }
}

/// Verify a self-certifying reachability record (signed by the address it names, served at
/// `/.well-known/hop`, or gossiped). `now_secs` = current Unix time to enforce expiry, or 0 to skip
/// the expiry check. Gives the record for the core to verify, whose reply
/// `verify_reach_record_reply` tells.
pub fn verify_reach_record(bytes: Vec<u8>, now_secs: u64) -> (call: VerifyCall)
    ensures
        call.bytes@ == bytes@,
        call.now == clock(now_secs),
{
    let now = if now_secs == 0 {
        None
    } else {
        Some(now_secs)
    };
    VerifyCall { bytes, now }
}

/// What the host is told of a verification: `claim` is what a valid record claims, and `None` stands
/// for a bad signature or an expired record.
pub fn verify_reach_record_reply(claim: Option<ReachClaim>) -> (info: ReachInfo)
    ensures
        info.shows(claim),
{
    match claim {
        Some(c) => {
            let ReachClaim { address, endpoint, issued_at, ttl_secs } = c;
            ReachInfo { valid: true, address: to_vec(&address), endpoint, issued_at, ttl_secs }
        },
        None => ReachInfo {
            valid: false,
            address: Vec::new(),
            endpoint: String::new(),
            issued_at: 0,
            ttl_secs: 0,
        },
    }
}

} // verus!
