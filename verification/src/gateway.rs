//! The client side of the gateway's line-based JSON-RPC channel.
use vstd::prelude::*;
use crate::delegate::{decimal_string, decimal_text};
use crate::text::{join2, owned};

verus! {

/// A client of the gateway listening on a Unix socket; the path is held as text.
#[derive(Debug)]
pub struct GatewayClient {
    socket_path: String,
}

impl GatewayClient {
    pub closed spec fn path(&self) -> Seq<char> {
        self.socket_path@
    }

    pub fn new(socket_path: &str) -> (r: Self)
        ensures
            r.path() == socket_path@,
    {
        GatewayClient { socket_path: owned(socket_path) }
    }

    pub fn socket_path(&self) -> (r: &str)
        ensures
            r@ == self.path(),
    {
        self.socket_path.as_str()
    }
}

/// The decimal text of a signed number, with a leading minus when negative.
pub open spec fn signed_decimal_text(n: i64) -> Seq<char> {
    if n < 0 { "-"@ + decimal_text((-(n as int)) as nat) } else { decimal_text(n as nat) }
}

pub fn signed_decimal_string(n: i64) -> (r: String)
    ensures
        r@ == signed_decimal_text(n),
{
    if n < 0 {
        let magnitude: u64 = if n == i64::MIN { 9223372036854775808u64 } else { (-n) as u64 };
        let digits = decimal_string(magnitude);
        join2("-", digits.as_str())
    } else {
        decimal_string(n as u64)
    }
}

/// The error a call reports for an error reply: its code and message.
pub open spec fn rpc_error_text(code: i64, message: Seq<char>) -> Seq<char> {
    "RPC error "@ + signed_decimal_text(code) + ": "@ + message
}

pub fn rpc_error_message(code: i64, message: &str) -> (r: String)
    ensures
        r@ == rpc_error_text(code, message@),
{
    let digits = signed_decimal_string(code);
    let head = join2("RPC error ", digits.as_str());
    head.concat(": ").concat(message)
}

} // verus!
