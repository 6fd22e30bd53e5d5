//! What the host is told of a call that the mesh core carried out or refused.
use vstd::prelude::*;

use crate::bytes::to_vec;
use crate::error::FfiError;
use crate::node::keys_to_vecs;

verus! {

/// `answer` tells the host what the core's `reply` was: the bytes of the id it gave, or the core's
/// own message of why it refused.
pub open spec fn tells_id(
    answer: Result<Vec<u8>, FfiError>,
    reply: Result<[u8; 32], String>,
) -> bool {
    match (answer, reply) {
        (Ok(bytes), Ok(id)) => bytes@ == id@,
        (Err(e), Err(cause)) => e == FfiError::Hop(cause),
        _ => false,
    }
}

/// `answer` tells the host whether the core did it, or its own message of why it refused.
pub open spec fn tells_done(answer: Result<(), FfiError>, reply: Result<(), String>) -> bool {
    match (answer, reply) {
        (Ok(_), Ok(_)) => true,
        (Err(e), Err(cause)) => e == FfiError::Hop(cause),
        _ => false,
    }
}

/// `answer` tells the host of a directed send: the bytes of the id, that the peer is not connected
/// where there is none, or the core's own message of why it refused.
pub open spec fn tells_directed(
    answer: Result<Vec<u8>, FfiError>,
    reply: Result<Option<[u8; 32]>, String>,
) -> bool {
    match (answer, reply) {
        (Ok(bytes), Ok(Some(id))) => bytes@ == id@,
        (Err(FfiError::Hop(message)), Ok(None)) => message@ == "peer not connected"@,
        (Err(e), Err(cause)) => e == FfiError::Hop(cause),
        _ => false,
    }
}

/// `answer` tells the host the bytes of the id, none where there is none, or the core's own message
/// of why it refused.
pub open spec fn tells_optional_id(
    answer: Result<Vec<u8>, FfiError>,
    reply: Result<Option<[u8; 32]>, String>,
) -> bool {
    match (answer, reply) {
        (Ok(bytes), Ok(Some(id))) => bytes@ == id@,
        (Ok(bytes), Ok(None)) => bytes@.len() == 0,
        (Err(e), Err(cause)) => e == FfiError::Hop(cause),
        _ => false,
    }
}

/// `answer` tells the host the bytes of every id, in order, or the core's own message of why it
/// refused.
pub open spec fn tells_ids(
    answer: Result<Vec<Vec<u8>>, FfiError>,
    reply: Result<Vec<[u8; 32]>, String>,
) -> bool {
    match (answer, reply) {
        (Ok(vecs), Ok(ids)) => {
            &&& vecs@.len() == ids@.len()
            &&& forall|i: int| 0 <= i < ids@.len() ==> (#[trigger] vecs@[i])@ == ids@[i]@
        },
        (Err(e), Err(cause)) => e == FfiError::Hop(cause),
        _ => false,
    }
}

/// The answer to an operation that gives an id: a bundle's, an advert's or a request's.
pub fn id_reply(reply: Result<[u8; 32], String>) -> (answer: Result<Vec<u8>, FfiError>)
    ensures
        tells_id(answer, reply),
{
    match reply {
        Ok(id) => Ok(to_vec(&id)),
        Err(cause) => Err(FfiError::Hop(cause)),
    }
}

/// The answer to an operation that gives nothing but whether it went well.
pub fn unit_reply(reply: Result<(), String>) -> (answer: Result<(), FfiError>)
    ensures
        tells_done(answer, reply),
        match (answer, reply) {
            (Ok(_), Ok(_)) => true,
            (Err(e), Err(cause)) => e == FfiError::Hop(cause),
            _ => false,
        },
{
    match reply {
        Ok(_) => Ok(()),
        Err(cause) => Err(FfiError::Hop(cause)),
    }
}

/// The answer to a directed send. The core gives no id where it is not connected to the peer.
pub fn directed_reply(reply: Result<Option<[u8; 32]>, String>) -> (answer: Result<
    Vec<u8>,
    FfiError,
>)
    ensures
        tells_directed(answer, reply),
        match (answer, reply) {
            (Ok(bytes), Ok(Some(id))) => bytes@ == id@,
            (Err(FfiError::Hop(message)), Ok(None)) => message@ == "peer not connected"@,
            (Err(e), Err(cause)) => e == FfiError::Hop(cause),
            _ => false,
        },
{
    match reply {
        Ok(Some(id)) => Ok(to_vec(&id)),
        Ok(None) => Err(FfiError::Hop("peer not connected".to_string())),
        Err(cause) => Err(FfiError::Hop(cause)),
    }
}

/// The answer to an operation that may have nothing to send: no id is told as no bytes.
pub fn optional_id_reply(reply: Result<Option<[u8; 32]>, String>) -> (answer: Result<
    Vec<u8>,
    FfiError,
>)
    ensures
        tells_optional_id(answer, reply),
        match (answer, reply) {
            (Ok(bytes), Ok(Some(id))) => bytes@ == id@,
            (Ok(bytes), Ok(None)) => bytes@.len() == 0,
            (Err(e), Err(cause)) => e == FfiError::Hop(cause),
            _ => false,
        },
{
    match reply {
        Ok(Some(id)) => Ok(to_vec(&id)),
        Ok(None) => Ok(Vec::new()),
        Err(cause) => Err(FfiError::Hop(cause)),
    }
}

/// The answer to an operation that gives several ids.
pub fn ids_reply(reply: Result<Vec<[u8; 32]>, String>) -> (answer: Result<Vec<Vec<u8>>, FfiError>)
    ensures
        tells_ids(answer, reply),
        match (answer, reply) {
            (Ok(vecs), Ok(ids)) => {
                &&& vecs@.len() == ids@.len()
                &&& forall|i: int| 0 <= i < ids@.len() ==> (#[trigger] vecs@[i])@ == ids@[i]@
            },
            (Err(e), Err(cause)) => e == FfiError::Hop(cause),
            _ => false,
        },
{
    match reply {
        Ok(ids) => Ok(keys_to_vecs(ids)),
        Err(cause) => Err(FfiError::Hop(cause)),
    }
}

} // verus!
