//! The message a bot hands to the dispatcher, and the one it gets back.

use vstd::prelude::*;

verus! {

#[verifier::external_type_specification]
#[verifier::external_body]
pub struct ExValue(serde_json::Value);

/// Relies on the derived `Clone` of `serde_json::Value`: a deep copy, equal
/// to the value copied.
pub assume_specification[ <serde_json::Value as Clone>::clone ](v: &serde_json::Value) -> (r:
    serde_json::Value)
    ensures
        r == *v,
;

/// How a request reaches the remote API: reads are GETs, writes are POSTs.
#[derive(Debug, Clone, Copy, PartialEq, Eq, Structural)]
pub enum Method {
    Get,
    Post,
}

/// A request from a bot (no `response`), or the answer to one (`response`
/// holds the body, or a description of what went wrong).
#[derive(Debug, Clone)]
pub struct InternalPacket {
    pub bot_id: String,
    pub method: Method,
    pub endpoint: String,
    pub query_params: Vec<(String, String)>,
    pub data: Option<serde_json::Value>,
    pub response: Option<String>,
}

/// A copy of a list of query parameters, in the same order.
pub fn copy_pairs(v: &Vec<(String, String)>) -> (r: Vec<(String, String)>)
    ensures
        r@ == v@,
{
    let mut r: Vec<(String, String)> = Vec::new();
    let mut i: usize = 0;
    while i < v.len()
        invariant
            i <= v@.len(),
            r@ == v@.subrange(0, i as int),
        decreases v@.len() - i,
    {
        let name = v[i].0.clone();
        let value = v[i].1.clone();
        r.push((name, value));
        i = i + 1;
        assert(r@ =~= v@.subrange(0, i as int));
    }
    assert(r@ =~= v@);
    r
}

impl InternalPacket {
    /// A request, with no response yet.
    pub fn new(
        bot_id: String,
        method: Method,
        endpoint: String,
        query_params: Vec<(String, String)>,
        data: Option<serde_json::Value>,
    ) -> (r: Self)
        ensures
            r.bot_id == bot_id,
            r.method == method,
            r.endpoint == endpoint,
            r.query_params == query_params,
            r.data == data,
            r.response is None,
    {
        InternalPacket { bot_id, method, endpoint, query_params, data, response: None }
    }

    /// The answer to `packet`: the same request, carrying `response`.
    pub fn response_from_existing(packet: &InternalPacket, response: String) -> (r: Self)
        ensures
            r.bot_id == packet.bot_id,
            r.method == packet.method,
            r.endpoint == packet.endpoint,
            r.query_params@ == packet.query_params@,
            r.data == packet.data,
            r.response == Some(response),
    {
        let data = match &packet.data {
            Some(v) => Some(v.clone()),
            None => None,
        };
        InternalPacket {
            bot_id: packet.bot_id.clone(),
            method: packet.method,
            endpoint: packet.endpoint.clone(),
            query_params: copy_pairs(&packet.query_params),
            data,
            response: Some(response),
        }
    }
}

} // verus!
