//! The JSON-RPC message that subscribes to an account's changes.

use vstd::prelude::*;
use vstd::string::StringExecFns;

verus! {

/// How finalized the subscribed account data must be.
#[derive(Clone, Copy, Debug, PartialEq, Eq, Structural)]
pub enum CommitmentLevel {
    Processed,
    Confirmed,
    Finalized,
}

impl CommitmentLevel {
    /// The level's wire name.
    pub fn as_str(&self) -> (r: &'static str)
        ensures
            *self is Processed ==> r@ == "processed"@,
            *self is Confirmed ==> r@ == "confirmed"@,
            *self is Finalized ==> r@ == "finalized"@,
    {
        match self {
            CommitmentLevel::Processed => "processed",
            CommitmentLevel::Confirmed => "confirmed",
            CommitmentLevel::Finalized => "finalized",
        }
    }
}

#[derive(Debug)]
pub struct SubscribeConfig {
    pub encoding: String,
    pub commitment: String,
}

/// The positional parameters: the account key in its text form, then the
/// subscription configuration.
#[derive(Debug)]
pub struct Params(pub String, pub SubscribeConfig);

#[derive(Debug)]
pub struct SubscribeMessage {
    pub jsonrpc: String,
    pub id: u64,
    pub method: String,
    pub params: Params,
}

impl SubscribeMessage {
    /// The account-subscribe request for one account key (already in its
    /// text form), asking for base64-encoded data at the given commitment.
    pub fn new(account_pubkey: &str, commitment_level: CommitmentLevel) -> (r: SubscribeMessage)
        ensures
            r.jsonrpc@ == "2.0"@,
            r.id == 1,
            r.method@ == "accountSubscribe"@,
            r.params.0@ == account_pubkey@,
            r.params.1.encoding@ == "base64"@,
            commitment_level is Processed ==> r.params.1.commitment@ == "processed"@,
            commitment_level is Confirmed ==> r.params.1.commitment@ == "confirmed"@,
            commitment_level is Finalized ==> r.params.1.commitment@ == "finalized"@,
    {
        SubscribeMessage {
            jsonrpc: String::from_str("2.0"),
            id: 1,
            method: String::from_str("accountSubscribe"),
            params: Params(
                String::from_str(account_pubkey),
                SubscribeConfig {
                    encoding: String::from_str("base64"),
                    commitment: String::from_str(commitment_level.as_str()),
                },
            ),
        }
    }
}

} // verus!
