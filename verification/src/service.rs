//! The answer of the remote service about an instance's session.

use vstd::prelude::*;

verus! {

/// What the remote service answers to a session request: the session's status,
/// the user hosting it, and the hosting node's key and protocol name.
#[derive(Debug)]
pub struct ServiceCheck {
    pub status: String,
    pub host: Option<String>,
    pub nodeid: Option<Vec<u8>>,
    pub alpn: Option<Vec<u8>>,
}

/// The content of a [`ServiceCheck`].
pub struct ServiceCheckView {
    pub status: Seq<char>,
    pub host: Option<Seq<char>>,
    pub nodeid: Option<Seq<u8>>,
    pub alpn: Option<Seq<u8>>,
}

/// The content of an optional byte vector.
pub open spec fn opt_bytes(v: Option<Vec<u8>>) -> Option<Seq<u8>> {
    match v {
        Some(b) => Some(b@),
        None => None,
    }
}

impl View for ServiceCheck {
    type V = ServiceCheckView;

    open spec fn view(&self) -> ServiceCheckView {
        ServiceCheckView {
            status: self.status@,
            host: crate::instance::opt_text(self.host),
            nodeid: opt_bytes(self.nodeid),
            alpn: opt_bytes(self.alpn),
        }
    }
}

} // verus!
