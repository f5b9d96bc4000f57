//! Testing a proxy configuration: a bounded client is built from it and
//! one GET is sent to a fixed, well-known address.

use crate::client::{create_http_client, creation_outcome, TimeoutPolicy};
use crate::error::{ErrorModel, RelayError};
use crate::proxy::ProxyConfig;
use crate::response::{is_success, status_is_success};
use crate::text::{decimal_digits, push_decimal};
use vstd::prelude::*;

verus! {

/// The address that the probe request goes to.
pub open spec fn probe_url_text() -> Seq<char> {
    "https://www.google.com"@
}

/// The address that the probe request goes to.
pub fn probe_url() -> (r: &'static str)
    ensures
        r@ == probe_url_text(),
{
    "https://www.google.com"
}

/// The acknowledgment of a successful probe that ended with `status`.
pub open spec fn probe_ack(status: u16) -> Seq<char> {
    "代理连接成功！已成功访问 Google (状态码: "@ + decimal_digits(status as nat) + ")"@
}

/// What the probe reports, from how sending the request ended: the
/// acknowledgment for a success status, the status as a failure for any
/// other, the transport's failure where no response came.
pub open spec fn probe_result(sent: Result<u16, String>) -> Result<Seq<char>, ErrorModel> {
    match sent {
        Err(cause) => Err(ErrorModel::Transport(cause@)),
        Ok(status) => if is_success(status) {
            Ok(probe_ack(status))
        } else {
            Err(ErrorModel::HttpStatus(status))
        },
    }
}

/// A probe that is answered with a success status succeeds, whenever it
/// is made: the verdict depends on the status alone, and nothing is kept
/// from one probe to the next.
pub proof fn lemma_probe_succeeds_on_success_status(status: u16)
    requires
        is_success(status),
    ensures
        probe_result(Ok(status)) == Ok::<Seq<char>, ErrorModel>(probe_ack(status)),
{
}

/// Builds the client for the probe: the bounded client for `config`. A
/// disabled configuration gives a client that connects directly.
pub fn probe_client(config: &ProxyConfig) -> (r: Result<reqwest::Client, RelayError>)
    requires
        config.within_limits(),
    ensures
        creation_outcome(r, Some(*config), TimeoutPolicy::Bounded),
{
    create_http_client(Some(config))
}

/// Judges the probe from how sending the request ended: the status of
/// the response, or the cause for which there is none.
pub fn probe_verdict(sent: Result<u16, String>) -> (r: Result<String, RelayError>)
    ensures
        match r {
            Ok(ack) => probe_result(sent) == Ok::<Seq<char>, ErrorModel>(ack@),
            Err(e) => probe_result(sent) == Err::<Seq<char>, ErrorModel>(e@),
        },
{
    match sent {
        Err(cause) => Err(RelayError::Transport(cause)),
        Ok(status) => {
            if status_is_success(status) {
                let mut ack = String::from_str("代理连接成功！已成功访问 Google (状态码: ");
                push_decimal(&mut ack, status as u64);
                ack.append(")");
                Ok(ack)
            } else {
                Err(RelayError::HttpStatus(status))
            }
        },
    }
}

} // verus!
