//! Where a server listens, and the two classes of platform.

use vstd::prelude::*;

verus! {

/// The two classes of platform, by how a local server is reached.
#[derive(Debug, Clone, Copy, PartialEq, Eq, Structural)]
pub enum Platform {
    /// Local-domain sockets exist: the server listens on a socket file.
    LocalSocket,
    /// No local-domain sockets: the server listens on a loopback TCP port.
    Loopback,
}

/// Where the server listens. Chosen once per launch and never changed.
#[derive(Debug, Clone, PartialEq, Eq)]
pub enum Endpoint {
    /// A socket file inside the state directory.
    Socket { path: String },
    /// A host name and a port on the loopback adapter.
    Tcp { host: String, port: u16 },
}

/// An endpoint over sequences of characters.
pub enum EndpointView {
    Socket { path: Seq<char> },
    Tcp { host: Seq<char>, port: u16 },
}

impl EndpointView {
    /// What the server is told to bind to, and what a failed connection is
    /// reported against: the socket's path, or the host name.
    pub open spec fn address(self) -> Seq<char> {
        match self {
            EndpointView::Socket { path } => path,
            EndpointView::Tcp { host, port } => host,
        }
    }
}

impl View for Endpoint {
    type V = EndpointView;

    open spec fn view(&self) -> EndpointView {
        match self {
            Endpoint::Socket { path } => EndpointView::Socket { path: path@ },
            Endpoint::Tcp { host, port } => EndpointView::Tcp { host: host@, port: *port },
        }
    }
}

impl Endpoint {
    /// What the server is told to bind to: the socket's path, or the host
    /// name.
    pub fn address(&self) -> (address: &String)
        ensures
            address@ == self@.address(),
    {
        match self {
            Endpoint::Socket { path } => path,
            Endpoint::Tcp { host, port } => host,
        }
    }

    /// A second value for the same endpoint.
    pub fn duplicate(&self) -> (copy: Endpoint)
        ensures
            copy@ == self@,
    {
        match self {
            Endpoint::Socket { path } => Endpoint::Socket { path: path.clone() },
            Endpoint::Tcp { host, port } => Endpoint::Tcp { host: host.clone(), port: *port },
        }
    }
}

} // verus!
