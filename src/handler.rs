//! The bodies of the requests and responses of the service's operations.
use vstd::prelude::*;

verus! {

/// The answer to a ping.
#[derive(Clone, Debug)]
pub struct PingResponse {
    pub version: String,
}

#[derive(Clone, Debug)]
pub struct LoadRequest {
    pub key: String,
}

#[derive(Clone, Debug)]
pub struct LoadResponse {
    pub value: String,
}

/// A store; `expiry` is in milliseconds, `-1` to refresh a record and keep
/// its remaining lifetime.
#[derive(Clone, Debug)]
pub struct StoreRequest {
    pub key: String,
    pub value: String,
    pub expiry: i64,
}

#[derive(Clone, Debug)]
pub struct ExistsRequest {
    pub key: String,
}

#[derive(Clone, Debug)]
pub struct ExistsResponse {
    pub value: bool,
}

#[derive(Clone, Debug)]
pub struct ListRequest {
    pub prefix: String,
    pub is_recursive: bool,
}

#[derive(Clone, Debug)]
pub struct ListResponse {
    pub keys_list: Vec<String>,
}

#[derive(Clone, Debug)]
pub struct StatRequest {
    pub key: String,
}

#[derive(Clone, Debug)]
pub struct DeleteRequest {
    pub key: String,
}

#[derive(Clone, Debug)]
pub struct LockRequest {
    pub key: String,
}

#[derive(Clone, Debug)]
pub struct LockResponse {
    pub lock_id: Vec<u8>,
}

#[derive(Clone, Debug)]
pub struct UnlockRequest {
    pub key: String,
    pub lock_id: Vec<u8>,
}

/// The version that a ping reports.
pub fn ping() -> (r: PingResponse)
    ensures
        r.version@ == seq!['0', '.', '0', '.', '1'],
{
    proof {
        reveal_strlit("0.0.1");
    }
    let version = String::from_str("0.0.1");
    assert(version@ =~= seq!['0', '.', '0', '.', '1']);
    PingResponse { version }
}

} // verus!
