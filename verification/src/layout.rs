//! What lies where in the state directory, and how the server is started.

use vstd::prelude::*;
use crate::endpoint::Endpoint;
use crate::endpoint::EndpointView;
use crate::endpoint::Platform;

verus! {

/// The entry `name` of the directory `dir`.
pub open spec fn child(dir: Seq<char>, name: Seq<char>) -> Seq<char> {
    dir + "/"@ + name
}

/// Where the server keeps its data files.
pub open spec fn db_dir(dir: Seq<char>) -> Seq<char> {
    child(dir, "db"@)
}

/// Where the server writes its log.
pub open spec fn log_file(dir: Seq<char>) -> Seq<char> {
    child(dir, "mongod.log"@)
}

/// The socket file on which the server listens where there are local-domain
/// sockets.
pub open spec fn socket_file(dir: Seq<char>) -> Seq<char> {
    child(dir, "mongod.sock"@)
}

/// The character for one decimal digit.
pub open spec fn digit(d: nat) -> char {
    if d == 0 {
        '0'
    } else if d == 1 {
        '1'
    } else if d == 2 {
        '2'
    } else if d == 3 {
        '3'
    } else if d == 4 {
        '4'
    } else if d == 5 {
        '5'
    } else if d == 6 {
        '6'
    } else if d == 7 {
        '7'
    } else if d == 8 {
        '8'
    } else {
        '9'
    }
}

/// A number in decimal, most significant digit first, without padding.
pub open spec fn decimal(n: nat) -> Seq<char>
    decreases n,
{
    if n < 10 {
        seq![digit(n)]
    } else {
        decimal(n / 10) + seq![digit(n % 10)]
    }
}

/// The endpoint of a launch: the socket file of the state directory where
/// the platform has local-domain sockets, else `localhost` with the port.
pub open spec fn endpoint_for(platform: Platform, dir: Seq<char>, port: u16) -> EndpointView {
    match platform {
        Platform::LocalSocket => EndpointView::Socket { path: socket_file(dir) },
        Platform::Loopback => EndpointView::Tcp { host: "localhost"@, port },
    }
}

/// The arguments of the server: where to listen, where to keep data, where
/// to log, no authentication, and the port where the endpoint has one.
pub open spec fn server_args(endpoint: EndpointView, dir: Seq<char>) -> Seq<Seq<char>> {
    let common = seq![
        "--bind_ip"@,
        endpoint.address(),
        "--dbpath"@,
        db_dir(dir),
        "--logpath"@,
        log_file(dir),
        "--noauth"@,
    ];
    match endpoint {
        EndpointView::Socket { path } => common,
        EndpointView::Tcp { host, port } => common + seq!["--port"@, decimal(port as nat)],
    }
}

/// The path of the entry `name` of the directory `dir`.
pub fn child_path(dir: &str, name: &str) -> (path: String)
    ensures
        path@ == child(dir@, name@),
{
    let mut path = String::from_str(dir);
    path.append("/");
    path.append(name);
    path
}

/// The path of the server's data directory inside `dir`.
pub fn db_dir_path(dir: &str) -> (path: String)
    ensures
        path@ == db_dir(dir@),
{
    child_path(dir, "db")
}

/// The path of the server's log inside `dir`.
pub fn log_file_path(dir: &str) -> (path: String)
    ensures
        path@ == log_file(dir@),
{
    child_path(dir, "mongod.log")
}

/// The path of the server's socket file inside `dir`.
pub fn socket_file_path(dir: &str) -> (path: String)
    ensures
        path@ == socket_file(dir@),
{
    child_path(dir, "mongod.sock")
}

/// One decimal digit as text.
fn digit_text(d: u16) -> (text: &'static str)
    requires
        d < 10,
    ensures
        text@ == seq![digit(d as nat)],
{
    proof {
        reveal_strlit("0");
        reveal_strlit("1");
        reveal_strlit("2");
        reveal_strlit("3");
        reveal_strlit("4");
        reveal_strlit("5");
        reveal_strlit("6");
        reveal_strlit("7");
        reveal_strlit("8");
        reveal_strlit("9");
    }
    let text = if d == 0 {
        "0"
    } else if d == 1 {
        "1"
    } else if d == 2 {
        "2"
    } else if d == 3 {
        "3"
    } else if d == 4 {
        "4"
    } else if d == 5 {
        "5"
    } else if d == 6 {
        "6"
    } else if d == 7 {
        "7"
    } else if d == 8 {
        "8"
    } else {
        "9"
    };
    text
}

/// A port number in decimal.
pub fn port_text(port: u16) -> (text: String)
    ensures
        text@ == decimal(port as nat),
    decreases port,
{
    if port < 10 {
        String::from_str(digit_text(port))
    } else {
        let mut text = port_text(port / 10);
        text.append(digit_text(port % 10));
        text
    }
}

/// The endpoint of a launch on `platform` with the state directory `dir`.
/// `port` counts only where the platform has no local-domain sockets.
pub fn select_endpoint(platform: Platform, dir: &str, port: u16) -> (endpoint: Endpoint)
    ensures
        endpoint@ == endpoint_for(platform, dir@, port),
{
    match platform {
        Platform::LocalSocket => Endpoint::Socket { path: socket_file_path(dir) },
        Platform::Loopback => Endpoint::Tcp { host: String::from_str("localhost"), port },
    }
}

/// The arguments with which the server is started, in order.
pub fn server_arguments(endpoint: &Endpoint, dir: &str) -> (args: Vec<String>)
    ensures
        args.deep_view() == server_args(endpoint@, dir@),
{
    let mut args: Vec<String> = Vec::new();
    args.push(String::from_str("--bind_ip"));
    args.push(endpoint.address().clone());
    args.push(String::from_str("--dbpath"));
    args.push(db_dir_path(dir));
    args.push(String::from_str("--logpath"));
    args.push(log_file_path(dir));
    args.push(String::from_str("--noauth"));
    if let Endpoint::Tcp { host, port } = endpoint {
        args.push(String::from_str("--port"));
        args.push(port_text(*port));
    }
    args
}

} // verus!
