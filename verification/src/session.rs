//! The session protocol with the remote service: ask whether an instance is
//! already hosted, then register this node as its host.

use vstd::prelude::*;
use crate::instance::InstanceConfig;
use crate::service::ServiceCheck;
use crate::launcher::joined;
use crate::text::decimal;

verus! {

/// The HTTP method of a request to the remote service.
#[derive(Debug, PartialEq, Eq, Structural)]
pub enum HttpMethod {
    Get,
    Post,
}

/// A request to the remote service: method, URL, `Authorization` header and,
/// for a POST, the JSON body.
#[derive(Debug)]
pub struct ServiceRequest {
    pub method: HttpMethod,
    pub url: String,
    pub authorization: String,
    pub json_body: Option<String>,
}

/// `"/session/check"`
pub open spec fn check_path() -> Seq<char> {
    seq!['/', 's', 'e', 's', 's', 'i', 'o', 'n', '/', 'c', 'h', 'e', 'c', 'k']
}

/// `"/session/start"`
pub open spec fn start_path() -> Seq<char> {
    seq!['/', 's', 'e', 's', 's', 'i', 'o', 'n', '/', 's', 't', 'a', 'r', 't']
}

/// The `Authorization` header of an instance: `"{username} {token}"`.
pub open spec fn authorization_text(username: Seq<char>, token: Seq<char>) -> Seq<char> {
    username + seq![' '] + token
}

/// Writes the `Authorization` header of an instance.
pub fn authorization(config: &InstanceConfig) -> (a: String)
    ensures
        a@ == authorization_text(config.username@, config.token@),
{
    let mut a = config.username.clone();
    a.append(" ");
    a.append(config.token.as_str());
    proof {
        reveal_strlit(" ");
    }
    a
}

/// The request that asks whether the instance's session runs: a GET of
/// `{service}/session/check`.
pub fn session_check_request(config: &InstanceConfig) -> (r: ServiceRequest)
    ensures
        r.method == HttpMethod::Get,
        r.url@ == config.service@ + check_path(),
        r.authorization@ == authorization_text(config.username@, config.token@),
        r.json_body is None,
{
    let mut url = config.service.clone();
    url.append("/session/check");
    proof {
        reveal_strlit("/session/check");
    }
    ServiceRequest {
        method: HttpMethod::Get,
        url,
        authorization: authorization(config),
        json_body: None,
    }
}

/// `[b0,b1,...]`: the bytes written as a JSON array of decimal numbers.
pub open spec fn json_byte_array(bytes: Seq<u8>) -> Seq<char> {
    seq!['['] + joined(bytes.map_values(|b: u8| decimal(b as nat)), seq![',']) + seq![']']
}

/// A key that JSON writes as it is: printable ASCII with no quote and no
/// backslash.
pub open spec fn plain_key(k: Seq<char>) -> bool {
    forall|i: int|
        0 <= i < k.len() ==> ' ' <= #[trigger] k[i] <= '~' && k[i] != '"' && k[i] != '\\'
}

/// `a` comes strictly before `b` in the order of their characters.
pub open spec fn key_before(a: Seq<char>, b: Seq<char>) -> bool
    decreases a.len(),
{
    if a.len() == 0 {
        b.len() > 0
    } else if b.len() == 0 {
        false
    } else if a[0] != b[0] {
        (a[0] as u32) < (b[0] as u32)
    } else {
        key_before(a.drop_first(), b.drop_first())
    }
}

/// `{"k1":[..],"k2":[..]}`: a JSON object of two byte arrays, without spaces.
pub open spec fn json_object_text(k1: Seq<char>, v1: Seq<u8>, k2: Seq<char>, v2: Seq<u8>) -> Seq<
    char,
> {
    seq!['{', '"'] + k1 + seq!['"', ':'] + json_byte_array(v1) + seq![',', '"'] + k2 + seq![
        '"',
        ':',
    ] + json_byte_array(v2) + seq!['}']
}

/// Builds the `serde_json::Value` object of two byte lists under two keys (as
/// `serde_json::json!` does) and writes it with its `Display`
/// (`serde_json::to_string`). The object's map is a `BTreeMap` (serde_json
/// without `preserve_order`), so the keys come out in their order, which the
/// `requires` fixes; plain keys are written unescaped, numbers in decimal,
/// and the compact form has no spaces.
#[verifier::external_body]
fn json_object_of_arrays(first_key: &str, first: &Vec<u8>, second_key: &str, second: &Vec<u8>) -> (text: String)
    requires
        plain_key(first_key@),
        plain_key(second_key@),
        key_before(first_key@, second_key@),
    ensures
        text@ == json_object_text(first_key@, first@, second_key@, second@),
{
    let mut object = serde_json::Map::new();
    object.insert(first_key.to_string(), serde_json::Value::from(first.clone()));
    object.insert(second_key.to_string(), serde_json::Value::from(second.clone()));
    serde_json::Value::Object(object).to_string()
}

/// `"alpn"`
pub open spec fn alpn_key() -> Seq<char> {
    seq!['a', 'l', 'p', 'n']
}

/// `"nodeid"`
pub open spec fn nodeid_key() -> Seq<char> {
    seq!['n', 'o', 'd', 'e', 'i', 'd']
}

/// The body that registers a node: `{"alpn":[..],"nodeid":[..]}`.
pub open spec fn session_body_text(nodeid: Seq<u8>, alpn: Seq<u8>) -> Seq<char> {
    json_object_text(alpn_key(), alpn, nodeid_key(), nodeid)
}

/// Writes the body that registers a node: its key under `"nodeid"` and its
/// protocol name under `"alpn"`.
pub fn session_body(nodeid: &Vec<u8>, alpn: &Vec<u8>) -> (body: String)
    ensures
        body@ == session_body_text(nodeid@, alpn@),
{
    proof {
        reveal_strlit("alpn");
        reveal_strlit("nodeid");
    }
    assert("alpn"@ =~= alpn_key());
    assert("nodeid"@ =~= nodeid_key());
    assert(key_before(alpn_key(), nodeid_key()));
    json_object_of_arrays("alpn", alpn, "nodeid", nodeid)
}

/// The request that registers this node as the instance's host: a POST of
/// `{service}/session/start` whose JSON body holds the node's key and
/// protocol name.
pub fn session_start_request(config: &InstanceConfig, nodeid: &Vec<u8>, alpn: &Vec<u8>) -> (r:
    ServiceRequest)
    ensures
        r.method == HttpMethod::Post,
        r.url@ == config.service@ + start_path(),
        r.authorization@ == authorization_text(config.username@, config.token@),
        r.json_body is Some,
        r.json_body->0@ == session_body_text(nodeid@, alpn@),
{
    let mut url = config.service.clone();
    url.append("/session/start");
    proof {
        reveal_strlit("/session/start");
    }
    ServiceRequest {
        method: HttpMethod::Post,
        url,
        authorization: authorization(config),
        json_body: Some(session_body(nodeid, alpn)),
    }
}

/// `"running"`: the status of a session that some node hosts.
pub open spec fn running_status() -> Seq<char> {
    seq!['r', 'u', 'n', 'n', 'i', 'n', 'g']
}

/// Tells whether the service reports the session as running.
pub fn is_running(check: &ServiceCheck) -> (r: bool)
    ensures
        r == (check.status@ == running_status()),
{
    let running = String::from_str("running");
    proof {
        reveal_strlit("running");
    }
    assert(running@ =~= running_status());
    check.status == running
}

/// What came back from a request to the remote service.
#[derive(Debug)]
pub enum ServiceReply {
    /// The request could not be sent.
    Unsent,
    /// The response was no session answer.
    Unreadable,
    /// The service's answer.
    Answered(ServiceCheck),
}

/// The request that a reply answers.
#[derive(Debug, PartialEq, Eq, Structural, Clone, Copy)]
pub enum SessionStage {
    /// Asking whether the session runs.
    Checking,
    /// Registering this node as the host.
    Registering,
}

/// What follows a reply while hosting an instance.
#[derive(Debug)]
pub enum SessionStep {
    /// No session runs: register this node as the host.
    Register,
    /// Registered: this node hosts the session.
    Hosting,
    /// The session already runs, hosted by this user.
    Occupied { host: String, stage: SessionStage },
    /// The service's response could not be read.
    Unreadable { stage: SessionStage },
    /// The request could not be sent.
    Unsent { stage: SessionStage },
}

impl SessionStep {
    /// The user is asked to press a key before going back: after a failed
    /// request, not after finding the session occupied.
    pub fn pauses(&self) -> (p: bool)
        ensures
            p == (self is Unreadable || self is Unsent),
    {
        match self {
            SessionStep::Unreadable { .. } => true,
            SessionStep::Unsent { .. } => true,
            _ => false,
        }
    }
}

/// The reply tells of a running session without naming its host.
pub open spec fn running_without_host(reply: ServiceReply) -> bool {
    reply matches ServiceReply::Answered(c) && c.status@ == running_status() && c.host is None
}

/// The step after a reply at a stage of hosting: a failed request ends the
/// attempt; a running session ends it with its host's name; otherwise the
/// check leads to registering, and the registration to hosting.
pub fn session_step(stage: SessionStage, reply: ServiceReply) -> (step: SessionStep)
    requires
        !running_without_host(reply),
    ensures
        match reply {
            ServiceReply::Unsent => step matches SessionStep::Unsent { stage: s } && s == stage,
            ServiceReply::Unreadable => step matches SessionStep::Unreadable { stage: s } && s
                == stage,
            ServiceReply::Answered(c) => if c.status@ == running_status() {
                step matches SessionStep::Occupied { host, stage: s } && s == stage && Some(host@)
                    == crate::instance::opt_text(c.host)
            } else if stage == SessionStage::Checking {
                step is Register
            } else {
                step is Hosting
            },
        },
        // The session goes on only after an answer that no session runs.
        (step is Register || step is Hosting) <==> (reply matches ServiceReply::Answered(c)
            && c.status@ != running_status()),
{
    match reply {
        ServiceReply::Unsent => SessionStep::Unsent { stage },
        ServiceReply::Unreadable => SessionStep::Unreadable { stage },
        ServiceReply::Answered(check) => {
            if is_running(&check) {
                SessionStep::Occupied { host: check.host.unwrap(), stage }
            } else {
                match stage {
                    SessionStage::Checking => SessionStep::Register,
                    SessionStage::Registering => SessionStep::Hosting,
                }
            }
        },
    }
}

/// Why the session of an instance could not be found.
#[derive(Debug, PartialEq, Eq, Structural)]
pub enum DiscoveryFailure {
    /// The request could not be sent.
    Unsent,
    /// The response was no session answer.
    Unreadable,
}

/// The session found for an instance before connecting to its host: the
/// service's answer, whatever its status, or why there is none.
pub fn discovered(reply: ServiceReply) -> (r: Result<ServiceCheck, DiscoveryFailure>)
    ensures
        match reply {
            ServiceReply::Unsent => r == Err::<ServiceCheck, DiscoveryFailure>(DiscoveryFailure::Unsent),
            ServiceReply::Unreadable => r == Err::<ServiceCheck, DiscoveryFailure>(DiscoveryFailure::Unreadable),
            ServiceReply::Answered(c) => r == Ok::<ServiceCheck, DiscoveryFailure>(c),
        },
{
    match reply {
        ServiceReply::Unsent => Err(DiscoveryFailure::Unsent),
        ServiceReply::Unreadable => Err(DiscoveryFailure::Unreadable),
        ServiceReply::Answered(check) => Ok(check),
    }
}

} // verus!
