//! Descriptors of discoverable WebGrid services.

use crate::identifier::{SessionIdentifier, uuid_text};
use vstd::prelude::*;
use vstd::string::*;

verus! {

/// Discoverable WebGrid services
#[derive(Debug, Clone, Copy, PartialEq, Eq, Hash, Structural)]
pub enum WebgridServiceDescriptor {
    /// Node instance serving the given session
    Node(SessionIdentifier),
}

impl WebgridServiceDescriptor {
    /// Identifier under which the service is advertised: `node-` and the session id.
    pub fn service_identifier(&self) -> (r: String)
        ensures
            r@ == match self {
                WebgridServiceDescriptor::Node(id) => "node-"@ + uuid_text(id.0),
            },
    {
        match self {
            WebgridServiceDescriptor::Node(id) => {
                let mut r = String::from_str("node-");
                let text = id.to_hyphenated_string();
                r.append(text.as_str());
                r
            },
        }
    }
}

} // verus!
