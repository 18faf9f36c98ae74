//! The seed nodes of a cluster: where each is reached and how a session to it
//! is set up.

use vstd::prelude::*;

verus! {

/// Where a node is reached.
#[derive(Debug, PartialEq, Eq)]
pub enum Endpoint {
    /// A host and a port, in the clear.
    Tcp { host: String, port: u16 },
    /// A host and a port, over TLS; `insecure` switches hostname verification off.
    TcpTls { host: String, port: u16, insecure: bool },
    /// A unix socket, by its path.
    Unix { path: String },
}

/// What an [`Endpoint`] holds, as mathematical values.
pub enum EndpointView {
    Tcp { host: Seq<char>, port: u16 },
    TcpTls { host: Seq<char>, port: u16, insecure: bool },
    Unix { path: Seq<char> },
}

impl View for Endpoint {
    type V = EndpointView;

    open spec fn view(&self) -> EndpointView {
        match self {
            Endpoint::Tcp { host, port } => EndpointView::Tcp { host: host@, port: *port },
            Endpoint::TcpTls { host, port, insecure } => EndpointView::TcpTls {
                host: host@,
                port: *port,
                insecure: *insecure,
            },
            Endpoint::Unix { path } => EndpointView::Unix { path: path@ },
        }
    }
}

impl Clone for Endpoint {
    fn clone(&self) -> (copy: Self)
        ensures
            copy@ == self@,
    {
        match self {
            Endpoint::Tcp { host, port } => Endpoint::Tcp { host: host.clone(), port: *port },
            Endpoint::TcpTls { host, port, insecure } => Endpoint::TcpTls {
                host: host.clone(),
                port: *port,
                insecure: *insecure,
            },
            Endpoint::Unix { path } => Endpoint::Unix { path: path.clone() },
        }
    }
}

/// One seed node: its endpoint, the logical database, and the credentials.
#[derive(Debug, PartialEq, Eq)]
pub struct NodeAddress {
    pub endpoint: Endpoint,
    /// The logical database; usually 0.
    pub db: i64,
    pub username: Option<String>,
    pub password: Option<String>,
}

/// What a [`NodeAddress`] holds, as mathematical values.
pub struct NodeAddressView {
    pub endpoint: EndpointView,
    pub db: i64,
    pub username: Option<Seq<char>>,
    pub password: Option<Seq<char>>,
}

/// An optional text, by its characters.
pub open spec fn text_view(text: Option<String>) -> Option<Seq<char>> {
    match text {
        Some(chars) => Some(chars@),
        None => None,
    }
}

impl View for NodeAddress {
    type V = NodeAddressView;

    open spec fn view(&self) -> NodeAddressView {
        NodeAddressView {
            endpoint: self.endpoint@,
            db: self.db,
            username: text_view(self.username),
            password: text_view(self.password),
        }
    }
}

fn clone_text(text: &Option<String>) -> (copy: Option<String>)
    ensures
        text_view(copy) == text_view(*text),
{
    match text {
        Some(chars) => Some(chars.clone()),
        None => None,
    }
}

impl Clone for NodeAddress {
    fn clone(&self) -> (copy: Self)
        ensures
            copy@ == self@,
    {
        NodeAddress {
            endpoint: self.endpoint.clone(),
            db: self.db,
            username: clone_text(&self.username),
            password: clone_text(&self.password),
        }
    }
}

impl NodeAddress {
    /// A node reached in the clear at `host` and `port`, on database 0 and
    /// without credentials.
    pub fn tcp(host: String, port: u16) -> (node: NodeAddress)
        ensures
            node@ == (NodeAddressView {
                endpoint: EndpointView::Tcp { host: host@, port },
                db: 0,
                username: None,
                password: None,
            }),
    {
        NodeAddress { endpoint: Endpoint::Tcp { host, port }, db: 0, username: None, password: None }
    }
}

/// The views of `nodes`, in order.
pub open spec fn node_views(nodes: Seq<NodeAddress>) -> Seq<NodeAddressView> {
    nodes.map_values(|node: NodeAddress| node@)
}

} // verus!
