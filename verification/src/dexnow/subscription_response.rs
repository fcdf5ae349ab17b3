//! The RPC node's answer to an account-subscribe request.

use vstd::prelude::*;

verus! {

#[derive(Debug)]
pub struct SubscriptionResponse {
    pub jsonrpc: String,
    pub result: u64,
    pub id: u64,
}

} // verus!
