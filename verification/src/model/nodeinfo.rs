//! NodeInfo documents describing this server.

use vstd::prelude::*;

verus! {

#[derive(Clone, Debug)]
pub struct NodeInfoDiscoveryLink {
    pub rel: String,
    pub href: String,
}

#[derive(Clone, Debug)]
pub struct NodeInfoDiscovery {
    pub links: Vec<NodeInfoDiscoveryLink>,
}

#[derive(Clone, Debug)]
pub struct NodeInfoSoftware {
    pub name: String,
    pub version: String,
}

#[derive(Clone, Debug)]
pub struct NodeInfoMetadata {
    pub node_description: String,
}

#[derive(Clone, Debug)]
pub struct NodeInfo {
    pub version: String,
    pub open_registrations: bool,
    pub software: NodeInfoSoftware,
    pub metadata: NodeInfoMetadata,
}

} // verus!
