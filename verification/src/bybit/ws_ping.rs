//! The application-level liveness probe.

use vstd::prelude::*;
use vstd::string::StringExecFns;

verus! {

/// Represents a ping message for the server.
#[derive(Debug)]
pub struct PingMessage {
    /// The operation type.
    pub op: String,
    /// Customised ID, which is optional.
    pub req_id: String,
}

impl PingMessage {
    /// Creates a new ping message with the given operation type and optional
    /// request ID.
    pub fn new(req_id: Option<String>) -> (r: PingMessage)
        ensures
            r.op@ == "ping"@,
            match req_id {
                Some(id) => r.req_id == id,
                None => r.req_id@ == Seq::<char>::empty(),
            },
    {
        let id = match req_id {
            Some(id) => id,
            None => String::new(),
        };
        PingMessage { op: String::from_str("ping"), req_id: id }
    }
}

} // verus!
