//! The command surface: the operations a user interface invokes on the
//! registry and the server, each answering success or an error message.

use vstd::prelude::*;

use crate::proxy::{opt_chars, views, Proxy, ProxyView};
use crate::registry::{alive_entries, is_snapshot, no_entries, ProxyPool};
use crate::rotation::{parse_wire_name, wire_name, RotationMode};
use crate::server::ProxyServer;
use crate::text::{concat_str, str_is};

verus! {

/// Relies on `uuid::Uuid::new_v4` and its text form: a fresh random
/// identifier. Nothing is promised of its value.
#[verifier::external_body]
fn fresh_proxy_id() -> (r: String) {
    uuid::Uuid::new_v4().to_string()
}

/// The protocol stored for an optional protocol argument: SOCKS5 when
/// none is given.
pub open spec fn protocol_or_default(protocol: Option<Seq<char>>) -> Seq<char> {
    match protocol {
        Some(p) => p,
        None => "socks5"@,
    }
}

/// A new, unprobed descriptor.
pub open spec fn fresh_descriptor(
    id: Seq<char>,
    protocol: Option<Seq<char>>,
    host: Seq<char>,
    port: u16,
    user: Option<Seq<char>>,
    pass: Option<Seq<char>>,
) -> ProxyView {
    ProxyView {
        id,
        protocol: protocol_or_default(protocol),
        host,
        port,
        user,
        pass,
        latency_ms: None,
        is_alive: false,
    }
}

/// The stored protocol for an optional protocol argument.
fn protocol_or_socks5(protocol: Option<String>) -> (r: String)
    ensures
        r@ == protocol_or_default(opt_chars(protocol)),
{
    match protocol {
        Some(p) => p,
        None => String::from_str("socks5"),
    }
}

/// The error for an id that is already in use.
pub open spec fn taken_error(id: Seq<char>) -> Seq<char> {
    "Proxy id "@ + id + " is already in use"@
}

/// Adds a new unprobed descriptor under `id` and returns the id; an id that
/// is already in use is an error and changes nothing.
pub fn add_with_id(
    pool: &mut ProxyPool,
    id: String,
    protocol: Option<String>,
    host: String,
    port: u16,
    user: Option<String>,
    pass: Option<String>,
) -> (r: Result<String, String>)
    requires
        old(pool).wf(),
    ensures
        final(pool).wf(),
        old(pool)@.contains_key(id@) ==> (r matches Err(e) && e@ == taken_error(id@)) && final(pool)@
            == old(pool)@,
        !old(pool)@.contains_key(id@) ==> (r matches Ok(i) && i@ == id@) && final(pool)@ == old(pool)@.insert(
            id@,
            fresh_descriptor(id@, opt_chars(protocol), host@, port, opt_chars(user), opt_chars(pass)),
        ),
{
    if pool.get(id.as_str()).is_some() {
        let msg = concat_str("Proxy id ", id.as_str());
        return Err(concat_str(msg.as_str(), " is already in use"));
    }
    let p = Proxy {
        id: id.clone(),
        protocol: protocol_or_socks5(protocol),
        host,
        port,
        user,
        pass,
        latency_ms: None,
        is_alive: false,
    };
    pool.add(p);
    Ok(id)
}

/// Adds a new unprobed descriptor under a fresh random id and returns the
/// id. Should the random id already be in use, nothing is added and an
/// error is returned.
pub fn add_proxy(
    pool: &mut ProxyPool,
    protocol: Option<String>,
    host: String,
    port: u16,
    user: Option<String>,
    pass: Option<String>,
) -> (r: Result<String, String>)
    requires
        old(pool).wf(),
    ensures
        final(pool).wf(),
        r matches Ok(id) ==> !old(pool)@.contains_key(id@) && final(pool)@ == old(pool)@.insert(
            id@,
            fresh_descriptor(id@, opt_chars(protocol), host@, port, opt_chars(user), opt_chars(pass)),
        ),
        r matches Err(e) ==> (exists|id: Seq<char>| old(pool)@.contains_key(id) && e@ == taken_error(id))
            && final(pool)@ == old(pool)@,
{
    let id = fresh_proxy_id();
    add_with_id(pool, id, protocol, host, port, user, pass)
}

/// A snapshot of every descriptor.
pub fn get_proxy_list(pool: &ProxyPool) -> (r: Result<Vec<Proxy>, String>)
    requires
        pool.wf(),
    ensures
        r matches Ok(v) && is_snapshot(views(v@), pool@),
{
    Ok(pool.get_all())
}

/// Starts the server when `active`, stops it otherwise. Answers whether a
/// listener is to be launched: only when a stopped server starts.
pub fn toggle_listener(server: &mut ProxyServer, active: bool) -> (r: Result<bool, String>)
    ensures
        r == Ok::<bool, String>(active && !old(server).running()),
        final(server).running() == active,
        final(server).port() == old(server).port(),
        final(server).host() == old(server).host(),
        final(server).mode() == old(server).mode(),
        final(server).cursor() == old(server).cursor(),
{
    if active {
        Ok(server.start())
    } else {
        server.stop();
        Ok(false)
    }
}

/// The configured listen port.
pub fn get_listen_port(server: &ProxyServer) -> (r: Result<u16, String>)
    ensures
        r == Ok::<u16, String>(server.port()),
{
    Ok(server.get_port())
}

/// The error for a listen port below 1024.
pub open spec fn port_error() -> Seq<char> {
    "Port must be >= 1024"@
}

/// Sets the listen port; ports below 1024 are refused.
pub fn set_listen_port(server: &mut ProxyServer, port: u16) -> (r: Result<(), String>)
    ensures
        port < 1024 ==> (r matches Err(e) && e@ == port_error()) && *final(server) == *old(server),
        port >= 1024 ==> r is Ok && final(server).port() == port && final(server).host() == old(server).host() && final(server).mode() == old(server).mode() && final(server).running() == old(server).running() && final(server).cursor() == old(server).cursor(),
{
    if port < 1024 {
        return Err(String::from_str("Port must be >= 1024"));
    }
    server.set_port(port);
    Ok(())
}

/// The configured listen host.
pub fn get_listen_host(server: &ProxyServer) -> (r: Result<String, String>)
    ensures
        r matches Ok(h) && h@ == server.host(),
{
    Ok(server.get_host())
}

/// The hosts a listener may bind to.
pub open spec fn allowed_host(h: Seq<char>) -> bool {
    h == "127.0.0.1"@ || h == "0.0.0.0"@
}

/// The error for a listen host outside the allowed two.
pub open spec fn host_error(h: Seq<char>) -> Seq<char> {
    "Invalid listen host '"@ + h + "'. Must be '127.0.0.1' or '0.0.0.0'."@
}

/// Sets the listen host; only `127.0.0.1` and `0.0.0.0` are accepted.
pub fn set_listen_host(server: &mut ProxyServer, host: String) -> (r: Result<(), String>)
    ensures
        !allowed_host(host@) ==> (r matches Err(e) && e@ == host_error(host@)) && *final(server) == *old(server),
        allowed_host(host@) ==> r is Ok && final(server).host() == host@ && final(server).port() == old(server).port() && final(server).mode() == old(server).mode() && final(server).running() == old(server).running() && final(server).cursor() == old(server).cursor(),
{
    if str_is(host.as_str(), "127.0.0.1") || str_is(host.as_str(), "0.0.0.0") {
        server.set_host(host);
        Ok(())
    } else {
        let msg = concat_str("Invalid listen host '", host.as_str());
        let msg = concat_str(msg.as_str(), "'. Must be '127.0.0.1' or '0.0.0.0'.");
        Err(msg)
    }
}

/// The wire name of the configured rotation mode.
pub fn get_rotation_mode(server: &ProxyServer) -> (r: Result<String, String>)
    ensures
        r matches Ok(m) && m@ == wire_name(server.mode()),
{
    Ok(server.get_rotation_mode())
}

/// The error for a name that denotes no rotation mode.
pub open spec fn mode_error(name: Seq<char>) -> Seq<char> {
    "Unknown rotation mode: "@ + name
}

/// Sets the rotation mode from its wire name.
pub fn set_rotation_mode(server: &mut ProxyServer, mode: String) -> (r: Result<(), String>)
    ensures
        parse_wire_name(mode@) is None ==> (r matches Err(e) && e@ == mode_error(mode@)) && *final(server)
            == *old(server),
        parse_wire_name(mode@) is Some ==> r is Ok && final(server).mode() == parse_wire_name(mode@)->0 && final(server).port() == old(server).port() && final(server).host() == old(server).host() && final(server).running() == old(server).running() && final(server).cursor() == old(server).cursor(),
{
    match RotationMode::from_str(mode.as_str()) {
        Some(m) => {
            server.set_rotation_mode(m);
            Ok(())
        },
        None => Err(concat_str("Unknown rotation mode: ", mode.as_str())),
    }
}

/// Removes the descriptor with id `id`, if any.
pub fn remove_proxy(pool: &mut ProxyPool, id: String) -> (r: Result<(), String>)
    requires
        old(pool).wf(),
    ensures
        r is Ok,
        final(pool).wf(),
        final(pool)@ == old(pool)@.remove(id@),
{
    pool.remove(id.as_str());
    Ok(())
}

/// Removes every descriptor.
pub fn clear_proxies(pool: &mut ProxyPool) -> (r: Result<(), String>)
    ensures
        r is Ok,
        final(pool).wf(),
        final(pool)@ == no_entries(),
{
    pool.clear();
    Ok(())
}

/// Removes every descriptor not marked alive.
pub fn clear_dead_proxies(pool: &mut ProxyPool) -> (r: Result<(), String>)
    requires
        old(pool).wf(),
    ensures
        r is Ok,
        final(pool).wf(),
        final(pool)@ == alive_entries(old(pool)@),
{
    pool.clear_dead();
    Ok(())
}

/// The error for an unknown descriptor id.
pub open spec fn missing_error(id: Seq<char>) -> Seq<char> {
    "Proxy with id "@ + id + " not found"@
}

/// Replaces the connection fields of the descriptor with id `id` and
/// marks it unprobed; an unknown id is an error and changes nothing.
pub fn update_proxy(
    pool: &mut ProxyPool,
    id: String,
    protocol: Option<String>,
    host: String,
    port: u16,
    user: Option<String>,
    pass: Option<String>,
) -> (r: Result<(), String>)
    requires
        old(pool).wf(),
    ensures
        final(pool).wf(),
        !old(pool)@.contains_key(id@) ==> (r matches Err(e) && e@ == missing_error(id@)) && final(pool)@
            == old(pool)@,
        old(pool)@.contains_key(id@) ==> r is Ok && final(pool)@ == old(pool)@.insert(
            id@,
            fresh_descriptor(id@, opt_chars(protocol), host@, port, opt_chars(user), opt_chars(pass)),
        ),
{
    let protocol = protocol_or_socks5(protocol);
    if pool.update(id.as_str(), protocol, host, port, user, pass) {
        Ok(())
    } else {
        let msg = concat_str("Proxy with id ", id.as_str());
        Err(concat_str(msg.as_str(), " not found"))
    }
}

} // verus!
