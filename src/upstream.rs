//! Dialing an upstream: which protocol to speak, the HTTP CONNECT request
//! and the test of its response.

use vstd::prelude::*;

use base64::Engine;
use vstd::utf8::encode_utf8;

use crate::proxy::{opt_chars, Proxy, ProxyView};
use crate::text::{append_decimal, concat_str, decimal, ends_with, starts_with, str_is};

verus! {

/// The standard base64 alphabet.
pub open spec fn base64_alphabet() -> Seq<char> {
    "ABCDEFGHIJKLMNOPQRSTUVWXYZabcdefghijklmnopqrstuvwxyz0123456789+/"@
}

/// The base64 digit for a six-bit value.
pub open spec fn b64(v: int) -> char {
    base64_alphabet()[v]
}

/// Padded standard base64 (RFC 4648): each three bytes become four digits;
/// a final one or two bytes become two or three digits padded with `=`.
pub open spec fn base64_standard(b: Seq<u8>) -> Seq<char>
    decreases b.len(),
{
    if b.len() == 0 {
        Seq::empty()
    } else if b.len() == 1 {
        let x = b[0] as int;
        seq![b64(x / 4), b64((x % 4) * 16), '=', '=']
    } else if b.len() == 2 {
        let x = b[0] as int;
        let y = b[1] as int;
        seq![b64(x / 4), b64((x % 4) * 16 + y / 16), b64((y % 16) * 4), '=']
    } else {
        let x = b[0] as int;
        let y = b[1] as int;
        let z = b[2] as int;
        seq![b64(x / 4), b64((x % 4) * 16 + y / 16), b64((y % 16) * 4 + z / 64), b64(z % 64)]
            + base64_standard(b.subrange(3, b.len() as int))
    }
}

/// Relies on base64's `general_purpose::STANDARD.encode`: the padded
/// standard-alphabet encoding of `input`.
#[verifier::external_body]
fn base64_encode(input: &[u8]) -> (r: String)
    ensures
        r@ == base64_standard(input@),
{
    base64::engine::general_purpose::STANDARD.encode(input)
}

/// The Basic credentials token for `user` and `pass`: base64 of the UTF-8
/// bytes of `user:pass`.
pub open spec fn basic_token(user: Seq<char>, pass: Seq<char>) -> Seq<char> {
    base64_standard(encode_utf8(user + ":"@ + pass))
}

/// The credentials of a descriptor when both halves are present.
pub open spec fn credentials(user: Option<Seq<char>>, pass: Option<Seq<char>>) -> Option<(Seq<char>, Seq<char>)> {
    match (user, pass) {
        (Some(u), Some(p)) => Some((u, p)),
        _ => None,
    }
}

/// The HTTP CONNECT request for `target` (`host:port`), with a
/// `Proxy-Authorization` header when both credentials are present.
pub open spec fn connect_request_text(target: Seq<char>, user: Option<Seq<char>>, pass: Option<Seq<char>>) -> Seq<char> {
    let auth = match credentials(user, pass) {
        Some((u, p)) => "Proxy-Authorization: Basic "@ + basic_token(u, p) + "\r\n"@,
        None => Seq::empty(),
    };
    "CONNECT "@ + target + " HTTP/1.1\r\nHost: "@ + target + "\r\n"@ + auth + "\r\n"@
}

/// The HTTP CONNECT request for `target`.
pub fn connect_request(target: &str, user: &Option<String>, pass: &Option<String>) -> (r: String)
    ensures
        r@ == connect_request_text(target@, opt_chars(*user), opt_chars(*pass)),
{
    let mut req = String::from_str("CONNECT ");
    req.append(target);
    req.append(" HTTP/1.1\r\nHost: ");
    req.append(target);
    req.append("\r\n");
    let ghost head = req@;
    match (user, pass) {
        (Some(u), Some(p)) => {
            let cred = concat_str(u.as_str(), ":");
            let cred = concat_str(cred.as_str(), p.as_str());
            let token = base64_encode(cred.as_str().as_bytes());
            req.append("Proxy-Authorization: Basic ");
            req.append(token.as_str());
            req.append("\r\n");
        },
        _ => {},
    }
    req.append("\r\n");
    assert(req@ =~= connect_request_text(target@, opt_chars(*user), opt_chars(*pass)));
    req
}

/// Whether the response bytes read so far end the header block.
pub open spec fn header_complete(resp: Seq<u8>) -> bool {
    let end = encode_utf8("\r\n\r\n"@);
    end.len() <= resp.len() && resp.subrange(resp.len() - end.len(), resp.len() as int) == end
}

/// Whether an HTTP CONNECT response reports success: it begins with
/// `HTTP/1.1 200` or `HTTP/1.0 200`.
pub open spec fn connect_ok(resp: Seq<u8>) -> bool {
    let a = encode_utf8("HTTP/1.1 200"@);
    let b = encode_utf8("HTTP/1.0 200"@);
    (a.len() <= resp.len() && resp.subrange(0, a.len() as int) == a) || (b.len() <= resp.len()
        && resp.subrange(0, b.len() as int) == b)
}

/// Whether the response bytes read so far end the header block.
pub fn response_complete(resp: &[u8]) -> (r: bool)
    ensures
        r == header_complete(resp@),
{
    ends_with(resp, "\r\n\r\n".as_bytes())
}

/// Whether an HTTP CONNECT response reports success.
pub fn connect_succeeded(resp: &[u8]) -> (r: bool)
    ensures
        r == connect_ok(resp@),
{
    starts_with(resp, "HTTP/1.1 200".as_bytes()) || starts_with(resp, "HTTP/1.0 200".as_bytes())
}

/// Whether a protocol name selects HTTP CONNECT; any other name selects
/// SOCKS5.
pub open spec fn speaks_http(protocol: Seq<char>) -> bool {
    protocol == "http"@ || protocol == "https"@
}

/// The `host:port` text of an address.
pub open spec fn authority(host: Seq<char>, port: u16) -> Seq<char> {
    host + ":"@ + decimal(port as nat)
}

/// The `host:port` text of an address.
pub fn authority_text(host: &str, port: u16) -> (r: String)
    ensures
        r@ == authority(host@, port),
{
    let mut r = concat_str(host, ":");
    append_decimal(&mut r, port as u64);
    r
}

/// How to open a tunnel to a target through one upstream.
#[derive(Debug)]
pub enum DialPlan {
    /// Connect over TCP to `proxy_addr`, send `request`, and read the
    /// response up to the end of its header block.
    HttpConnect { proxy_addr: String, request: String },
    /// Open a SOCKS5 tunnel through `proxy_addr` to `target`, with
    /// username/password authentication when `credentials` is present.
    Socks5 { proxy_addr: String, target: String, credentials: Option<(String, String)> },
}

/// Whether `r` is the plan for reaching `target` (`host:port`) through the
/// upstream `p`.
pub open spec fn plans(p: ProxyView, target: Seq<char>, r: DialPlan) -> bool {
    match r {
        DialPlan::HttpConnect { proxy_addr, request } => speaks_http(p.protocol) && proxy_addr@
            == authority(p.host, p.port) && request@ == connect_request_text(target, p.user, p.pass),
        DialPlan::Socks5 { proxy_addr, target: t, credentials: c } => !speaks_http(p.protocol)
            && proxy_addr@ == authority(p.host, p.port) && t@ == target && match c {
            Some((u, w)) => credentials(p.user, p.pass) == Some((u@, w@)),
            None => credentials(p.user, p.pass) is None,
        },
    }
}

/// The plan for reaching `target` (`host:port`) through the upstream `p`.
pub fn dial_plan(p: &Proxy, target: &str) -> (r: DialPlan)
    ensures
        plans(p@, target@, r),
{
    let proxy_addr = authority_text(p.host.as_str(), p.port);
    if str_is(p.protocol.as_str(), "http") || str_is(p.protocol.as_str(), "https") {
        let request = connect_request(target, &p.user, &p.pass);
        DialPlan::HttpConnect { proxy_addr, request }
    } else {
        let credentials = match (&p.user, &p.pass) {
            (Some(u), Some(w)) => Some((u.clone(), w.clone())),
            _ => None,
        };
        DialPlan::Socks5 { proxy_addr, target: String::from_str(target), credentials }
    }
}

} // verus!
