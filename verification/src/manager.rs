//! The manager of a pool's connections: it holds the cluster client that
//! opens them, and judges each one that comes back.

use vstd::prelude::*;

use redis::cluster::ClusterClient;
use redis::{ConnectionAddr, ConnectionInfo, RedisConnectionInfo, RedisError};
use std::path::PathBuf;

use crate::error::{RecycleError, RecycleErrorView};
use crate::node::{node_views, Endpoint, NodeAddress, NodeAddressView};
use crate::recycle::{check_probe_reply, probe_verdict, verdict_view};
use crate::reply::Reply;

verus! {

/// The client that opens connections to the cluster.
#[verifier::external_type_specification]
#[verifier::external_body]
pub struct ExClusterClient(ClusterClient);

/// A seed node, in the client's own type.
#[verifier::external_type_specification]
#[verifier::external_body]
pub struct ExConnectionInfo(ConnectionInfo);

/// The seed lists that the cluster client takes: no node is a unix socket,
/// and all share the first node's password.
pub open spec fn seeds_accepted(nodes: Seq<NodeAddressView>) -> bool {
    forall|i: int|
        0 <= i < nodes.len() ==> {
            &&& !((#[trigger] nodes[i]).endpoint is Unix)
            &&& nodes[i].password == nodes[0].password
        }
}

/// Builds the `redis::ConnectionInfo` that holds what `node` holds, field by
/// field; a unix socket's path becomes a `PathBuf`. The result is opaque
/// here, so the contract claims nothing of it.
#[verifier::external_body]
fn to_connection_info(node: &NodeAddress) -> ConnectionInfo {
    let addr = match &node.endpoint {
        Endpoint::Tcp { host, port } => ConnectionAddr::Tcp(host.clone(), *port),
        Endpoint::TcpTls { host, port, insecure } => {
            ConnectionAddr::TcpTls { host: host.clone(), port: *port, insecure: *insecure }
        },
        Endpoint::Unix { path } => ConnectionAddr::Unix(PathBuf::from(path)),
    };
    let redis = RedisConnectionInfo {
        db: node.db,
        username: node.username.clone(),
        password: node.password.clone(),
    };
    ConnectionInfo { addr, redis }
}

/// `redis::cluster::ClusterClient::open` on the seed nodes, in order. The call
/// connects to nothing. The contract claims that it refuses a list that holds
/// a unix socket or a node whose password differs from the first node's, and
/// takes every other list; of the client and of the error it claims nothing.
#[verifier::external_body]
fn open_cluster(nodes: &Vec<NodeAddress>) -> (opened: Result<ClusterClient, RedisError>)
    ensures
        opened is Ok <==> seeds_accepted(node_views(nodes@)),
{
    ClusterClient::open(nodes.iter().map(to_connection_info).collect::<Vec<ConnectionInfo>>())
}

/// What a probe's outcome says of the connection it was sent on: a reply is
/// judged by its shape, and a failure of the client is handed on as it is.
pub open spec fn recycle_outcome(probe: Result<Reply, RedisError>) -> Result<(), RecycleErrorView> {
    match probe {
        Ok(reply) => probe_verdict(reply@),
        Err(cause) => Err(RecycleErrorView::Backend(cause)),
    }
}

/// Creates the connections of one pool and checks them on their return.
pub struct Manager {
    client: ClusterClient,
    nodes: Vec<NodeAddress>,
}

impl Manager {
    #[verifier::type_invariant]
    spec fn well_formed(&self) -> bool {
        seeds_accepted(node_views(self.nodes@))
    }

    /// The seed nodes that the manager's client was opened with, in order.
    pub closed spec fn seeds(&self) -> Seq<NodeAddressView> {
        node_views(self.nodes@)
    }

    /// A manager for the cluster behind `nodes`. No connection is opened yet.
    pub fn new(nodes: Vec<NodeAddress>) -> (made: Result<Manager, RedisError>)
        ensures
            made is Ok <==> seeds_accepted(node_views(nodes@)),
            made matches Ok(manager) ==> manager.seeds() == node_views(nodes@),
    {
        match open_cluster(&nodes) {
            Ok(client) => Ok(Manager { client, nodes }),
            Err(cause) => Err(cause),
        }
    }

    /// The seed nodes, as they were given.
    pub fn nodes(&self) -> (nodes: &Vec<NodeAddress>)
        ensures
            node_views(nodes@) == self.seeds(),
            seeds_accepted(self.seeds()),
    {
        proof {
            use_type_invariant(self);
        }
        &self.nodes
    }

    /// The client that was opened with the seed nodes.
    pub closed spec fn cluster_client(&self) -> ClusterClient {
        self.client
    }

    /// The manager's client, for opening a connection.
    pub fn client(&self) -> (client: &ClusterClient)
        ensures
            *client == self.cluster_client(),
    {
        &self.client
    }

    /// The command that probes a connection for liveness.
    pub fn probe_command(&self) -> (name: &'static str)
        ensures
            name@ == "PING"@,
    {
        "PING"
    }

    /// Decides what becomes of a returned connection, from the outcome of the
    /// liveness probe that was sent on it: `Ok` keeps it, an error discards it.
    pub fn recycle(&self, probe: Result<Reply, RedisError>) -> (outcome: Result<(), RecycleError>)
        ensures
            verdict_view(outcome) == recycle_outcome(probe),
    {
        match probe {
            Ok(reply) => check_probe_reply(&reply),
            Err(cause) => Err(RecycleError::Backend(cause)),
        }
    }
}

} // verus!
