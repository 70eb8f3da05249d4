//! What the core itself holds of the HTTP transport: its configuration,
//! and the status-code classification the wire contract prescribes. The
//! network exchange itself is an external collaborator satisfying the
//! `DnsClient` contract.

use vstd::prelude::*;
use vstd::string::StringExecFns;
use core::time::Duration;
use crate::response::DnsError;

verus! {

/// The configuration of the concrete HTTPS transport: the timeout each
/// single attempt must honor.
pub struct HttpsClient {
    pub timeout: Duration,
}

impl HttpsClient {
    pub fn new(timeout: Duration) -> (r: HttpsClient)
        ensures
            r.timeout == timeout,
    {
        HttpsClient { timeout }
    }
}

/// Classifies the HTTP status of a DoH exchange: 200 is success, 400 and
/// 413 are the provider rejections the wire contract names, and any other
/// status passes through with the caller's representation of the body as
/// the message.
pub fn error_for_status(status: u16, body: String) -> (r: Option<DnsError>)
    ensures
        r is None <==> status == 200,
        status == 400 ==> (r matches Some(e) && e.code == 400 && e.message@
            == "DNS query not specified or too small."@),
        status == 413 ==> (r matches Some(e) && e.code == 413 && e.message@
            == "DNS query is larger than maximum allowed DNS message size."@),
        status != 200 && status != 400 && status != 413 ==> (r matches Some(e) && e.code == status
            && e.message == body),
{
    if status == 200 {
        Option::None
    } else if status == 400 {
        Option::Some(
            DnsError {
                code: 400,
                message: String::from_str("DNS query not specified or too small."),
            },
        )
    } else if status == 413 {
        Option::Some(
            DnsError {
                code: 413,
                message: String::from_str(
                    "DNS query is larger than maximum allowed DNS message size.",
                ),
            },
        )
    } else {
        Option::Some(DnsError { code: status, message: body })
    }
}

} // verus!
