//! The JSON-RPC notification that delivers an account's new content, and the
//! decoding of its base64 payload.

use vstd::prelude::*;

verus! {

#[derive(Debug)]
pub struct AccountNotification {
    pub jsonrpc: String,
    pub method: String,
    pub params: Params,
}

#[derive(Debug)]
pub struct Params {
    pub result: NotificationResult,
    pub subscription: u64,
}

#[derive(Debug)]
pub struct NotificationResult {
    pub context: Context,
    pub value: Value,
}

#[derive(Debug)]
pub struct Context {
    pub slot: u64,
}

#[derive(Debug)]
pub struct Value {
    /// The account's raw bytes, already decoded from the wire encoding.
    pub data: Vec<u8>,
    pub executable: bool,
    pub lamports: u64,
    pub owner: String,
    pub rent_epoch: u64,
    pub space: u64,
}

/// Why an account payload could not be decoded.
#[derive(Clone, Copy, Debug, PartialEq, Eq, Structural)]
pub enum AccountDataError {
    /// The notification named an encoding other than base64.
    UnsupportedEncoding,
    /// The payload was not valid base64 text.
    InvalidBase64,
}

/// What base64's standard-alphabet decoder returns for a text: the decoded
/// bytes, or nothing when the text is not valid base64.
pub uninterp spec fn base64_decode_of(text: Seq<char>) -> Option<Seq<u8>>;

/// Relies on base64's `Engine::decode` with the `STANDARD` engine: success
/// and output depend on the input text alone.
#[verifier::external_body]
fn base64_decode(text: &str) -> (r: Option<Vec<u8>>)
    ensures
        r is Some <==> base64_decode_of(text@) is Some,
        r matches Some(v) ==> base64_decode_of(text@) == Some(v@),
{
    base64::Engine::decode(&base64::engine::general_purpose::STANDARD, text.as_bytes()).ok()
}

/// Decodes a notification's account payload. Only the "base64" encoding is
/// supported; an invalid payload is rejected.
pub fn decode_account_data(data: &String, encoding: &String) -> (r: Result<
    Vec<u8>,
    AccountDataError,
>)
    ensures
        encoding@ != "base64"@ ==> r == Result::<Vec<u8>, AccountDataError>::Err(
            AccountDataError::UnsupportedEncoding,
        ),
        encoding@ == "base64"@ ==> match r {
            Ok(v) => base64_decode_of(data@) == Some(v@),
            Err(e) => e == AccountDataError::InvalidBase64 && base64_decode_of(data@) is None,
        },
{
    let base64_name = <String as vstd::string::StringExecFns>::from_str("base64");
    if !(*encoding == base64_name) {
        return Err(AccountDataError::UnsupportedEncoding);
    }
    match base64_decode(data.as_str()) {
        Some(v) => Ok(v),
        None => Err(AccountDataError::InvalidBase64),
    }
}

} // verus!
