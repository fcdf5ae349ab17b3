//! The subscription handshake message.

use vstd::prelude::*;
use vstd::string::StringExecFns;

verus! {

/// Represents a request to subscribe to a WebSocket stream.
#[derive(Debug)]
pub struct SubscribeRequest {
    /// The operation type.
    pub op: String,
    /// List of topics to subscribe to.
    pub args: Vec<String>,
}

impl SubscribeRequest {
    /// Creates a new subscription request for the given symbols: one
    /// depth-1 orderbook topic per symbol.
    pub fn new(symbols: &Vec<String>) -> (r: SubscribeRequest)
        ensures
            r.op@ == "subscribe"@,
            r.args@.len() == symbols@.len(),
            forall|i: int|
                0 <= i < symbols@.len() ==> (#[trigger] r.args@[i])@ == "orderbook.1."@
                    + symbols@[i]@,
    {
        let mut args: Vec<String> = Vec::new();
        let mut i: usize = 0;
        while i < symbols.len()
            invariant
                i <= symbols@.len(),
                args@.len() == i,
                forall|j: int|
                    0 <= j < i ==> (#[trigger] args@[j])@ == "orderbook.1."@ + symbols@[j]@,
            decreases symbols@.len() - i,
        {
            let topic = String::from_str("orderbook.1.").concat(symbols[i].as_str());
            args.push(topic);
            i = i + 1;
        }
        SubscribeRequest { op: String::from_str("subscribe"), args }
    }
}

} // verus!
