//! The health query surface: the status record handed to the foreground
//! layer after one liveness request against the service.
//!
//! The runtime performs the HTTP request; given the status code it obtained,
//! [`health_report`] renders the record the foreground layer receives. A
//! failed request never reaches this point — the runtime surfaces its own
//! error instead.

use vstd::prelude::*;

use crate::digits::dec_digits;
use crate::digits::u64_to_dec;

verus! {

/// The status record: `{"status":"ok","port":<port>,"statusCode":<code>}`.
pub open spec fn health_json_spec(port: u16, status_code: u16) -> Seq<char> {
    "{\"status\":\"ok\",\"port\":"@ + dec_digits(port as nat) + ",\"statusCode\":"@ + dec_digits(
        status_code as nat,
    ) + "}"@
}

/// Render the health status record for a service on `port` that answered
/// its liveness request with `status_code`.
pub fn health_report(port: u16, status_code: u16) -> (r: String)
    ensures
        r@ == health_json_spec(port, status_code),
{
    let mut s = String::new();
    s.append("{\"status\":\"ok\",\"port\":");
    let port_digits = u64_to_dec(port as u64);
    s.append(port_digits.as_str());
    s.append(",\"statusCode\":");
    let code_digits = u64_to_dec(status_code as u64);
    s.append(code_digits.as_str());
    s.append("}");
    proof {
        assert(s@ =~= health_json_spec(port, status_code));
    }
    s
}

} // verus!
