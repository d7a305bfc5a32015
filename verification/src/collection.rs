//! Grouping of protocol definitions under a named family, as used by the
//! build step that turns protocol schemas into code.

use vstd::prelude::*;
use vstd::string::*;

verus! {

/// One protocol definition: a named schema with a revision number.
#[derive(Debug, Clone, PartialEq, Eq)]
pub struct Protocol {
    pub name: String,
    pub revision: u64,
}

/// A family of protocol definitions handled together.
#[derive(Debug, Clone, PartialEq, Eq)]
pub struct ProtocolCollection {
    pub family: String,
    pub protocols: Vec<Protocol>,
}

impl ProtocolCollection {
    /// Groups a single protocol under a family name.
    pub fn with_protocol(family: &str, protocol: Protocol) -> (r: ProtocolCollection)
        ensures
            r.family@ == family@,
            r.protocols@.len() == 1,
            r.protocols@[0] == protocol,
    {
        let mut protocols: Vec<Protocol> = Vec::new();
        protocols.push(protocol);
        ProtocolCollection::with_protocols(family, protocols)
    }

    /// Groups several protocols under a family name.
    pub fn with_protocols(family: &str, protocols: Vec<Protocol>) -> (r: ProtocolCollection)
        ensures
            r.family@ == family@,
            r.protocols == protocols,
    {
        ProtocolCollection { family: String::from_str(family), protocols }
    }
}

} // verus!
