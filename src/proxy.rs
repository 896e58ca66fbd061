use vstd::prelude::*;
use std::collections::HashMap;
use crate::command::{last_value, Command, OpaqueGenerator};
use crate::util;

verus! {

/// Why a topic's route could not be had.
#[derive(Debug, Clone, PartialEq, Eq)]
pub enum RouteFailure {
    /// The request itself failed.
    Remoting(util::Error),
    /// The response carried no body.
    NoBody,
    /// The response body did not hold route data.
    InvalidBody(String),
}

/// The failures of the proxy's route queries.
#[derive(Debug, Clone, PartialEq, Eq)]
pub enum Error {
    /// The route of the topic could not be had.
    TopicNotFound(String, RouteFailure),
    /// An unexpected failure.
    InternalError(String),
}

/// The operation codes the proxy sends.
#[derive(Debug, Clone, Copy, PartialEq, Eq, Structural)]
pub enum RequestCode {
    GetTopicRouteInfo,
}

impl RequestCode {
    /// The code of the operation on the wire.
    pub fn code(&self) -> (r: u8)
        ensures
            *self == RequestCode::GetTopicRouteInfo ==> r == 105,
    {
        match self {
            RequestCode::GetTopicRouteInfo => 105,
        }
    }
}

/// The queues a broker serves for a topic.
#[derive(Debug, Clone)]
pub struct QueueData {
    pub broker_name: String,
    pub read_queue_nums: i32,
    pub write_queue_nums: i32,
    pub perm: u32,
}

/// A broker and its addresses, by broker id.
#[derive(Debug, Clone)]
pub struct BrokerData {
    pub cluster: String,
    pub broker_name: String,
    pub broker_addrs: HashMap<i64, String>,
}

/// The route of a topic: its queues and the brokers that serve them.
#[derive(Debug, Clone)]
pub struct TopicRouteData {
    pub queue_datas: Vec<QueueData>,
    pub broker_datas: Vec<BrokerData>,
}

impl Default for TopicRouteData {
    fn default() -> (r: TopicRouteData)
        ensures
            r.queue_datas@.len() == 0,
            r.broker_datas@.len() == 0,
    {
        TopicRouteData { queue_datas: Vec::new(), broker_datas: Vec::new() }
    }
}

/// The gRPC-facing server of the proxy.
pub struct GrpcMessagingServer {}

impl GrpcMessagingServer {
    pub fn new() -> (r: GrpcMessagingServer) {
        GrpcMessagingServer {}
    }
}

/// The request for the route of `topic`: code 105, with the fields `topic` and
/// `acceptStandardJsonOnly` = `true`, and the next opaque of `ids`.
pub fn route_query_command(topic: &str, ids: &mut OpaqueGenerator) -> (r: Command)
    requires
        old(ids).wf(),
        old(ids).next_value() < usize::MAX,
    ensures
        r.wf(),
        r.header.code == 105,
        r.property(seq!['t', 'o', 'p', 'i', 'c']) == Some(topic@),
        r.property(seq!['a', 'c', 'c', 'e', 'p', 't', 'S', 't', 'a', 'n', 'd', 'a', 'r', 'd', 'J', 's', 'o', 'n', 'O', 'n', 'l', 'y'])
            == Some(seq!['t', 'r', 'u', 'e']),
        r.body is None,
        final(ids).wf(),
        r.header.opaque == old(ids).next_value(),
        final(ids).next_value() == old(ids).next_value() + 1,
        final(ids).issued() == old(ids).issued().push(r.header.opaque),
{
    let mut fields: Vec<(String, String)> = Vec::new();
    fields.push(("topic".to_owned(), topic.to_owned()));
    fields.push(("acceptStandardJsonOnly".to_owned(), "true".to_owned()));
    let code = RequestCode::GetTopicRouteInfo.code();
    let r = Command::new_with_header(code, fields, ids);
    proof {
        reveal_strlit("topic");
        reveal_strlit("acceptStandardJsonOnly");
        reveal_strlit("true");
        let f = fields@;
        let k1 = seq!['t', 'o', 'p', 'i', 'c'];
        let k2 = seq!['a', 'c', 'c', 'e', 'p', 't', 'S', 't', 'a', 'n', 'd', 'a', 'r', 'd', 'J', 's', 'o', 'n', 'O', 'n', 'l', 'y'];
        assert(f.last().0@ == k2);
        assert(f.last().0@ != k1);
        assert(f.drop_last().last().0@ == k1);
        assert(last_value(f, k1) == last_value(f.drop_last(), k1));
    }
    r
}

/// The body of the response to a route query of `topic`, or why there is none.
pub fn route_response_body(topic: &str, response: Result<Command, util::Error>) -> (r: Result<Vec<u8>, Error>)
    ensures
        match response {
            Ok(cmd) => match cmd.body {
                Some(b) => r matches Ok(v) && v@ == b@,
                None => r matches Err(Error::TopicNotFound(t, RouteFailure::NoBody)) && t@ == topic@,
            },
            Err(e) => r matches Err(Error::TopicNotFound(t, RouteFailure::Remoting(e2))) && t@ == topic@
                && e2 == e,
        },
{
    match response {
        Ok(cmd) => match cmd.body {
            Some(b) => Ok(b),
            None => Err(Error::TopicNotFound(topic.to_owned(), RouteFailure::NoBody)),
        },
        Err(e) => Err(Error::TopicNotFound(topic.to_owned(), RouteFailure::Remoting(e))),
    }
}

} // verus!
