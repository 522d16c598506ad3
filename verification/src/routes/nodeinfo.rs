//! NodeInfo discovery and the NodeInfo document of this server.

use vstd::prelude::*;
use crate::model::nodeinfo::{
    NodeInfo, NodeInfoDiscovery, NodeInfoDiscoveryLink, NodeInfoMetadata, NodeInfoSoftware,
};

verus! {

/// The NodeInfo 2.1 schema relation.
pub const NODEINFO_SCHEMA: &'static str = "http://nodeinfo.diaspora.software/ns/schema/2.1";

/// The discovery document: one link, of the 2.1 schema, to
/// `https://<host>/nodeinfo/2.1`.
pub fn nodeinfo_discovery(host_name: &str) -> (d: NodeInfoDiscovery)
    ensures
        d.links@.len() == 1,
        d.links@[0].rel@ == NODEINFO_SCHEMA@,
        d.links@[0].href@ == "https://"@ + host_name@ + "/nodeinfo/2.1"@,
{
    let mut href = String::from_str("https://");
    href.append(host_name);
    href.append("/nodeinfo/2.1");
    let mut links: Vec<NodeInfoDiscoveryLink> = Vec::new();
    links.push(NodeInfoDiscoveryLink { rel: String::from_str(NODEINFO_SCHEMA), href });
    NodeInfoDiscovery { links }
}

/// The NodeInfo 2.1 document: software `elephas` 0.1.0, registrations closed.
pub fn nodeinfo() -> (n: NodeInfo)
    ensures
        n.version@ == "2.1"@,
        !n.open_registrations,
        n.software.name@ == "elephas"@,
        n.software.version@ == "0.1.0"@,
        n.metadata.node_description@ == "elephas is a simple ActivityPub server."@,
{
    NodeInfo {
        version: String::from_str("2.1"),
        open_registrations: false,
        software: NodeInfoSoftware {
            name: String::from_str("elephas"),
            version: String::from_str("0.1.0"),
        },
        metadata: NodeInfoMetadata {
            node_description: String::from_str("elephas is a simple ActivityPub server."),
        },
    }
}

} // verus!
