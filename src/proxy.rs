//! The upstream descriptor and its mathematical view.

use vstd::prelude::*;

verus! {

/// One upstream proxy as the registry holds it.
#[derive(Debug, Clone)]
pub struct Proxy {
    pub id: String,
    pub protocol: String,
    pub host: String,
    pub port: u16,
    pub user: Option<String>,
    pub pass: Option<String>,
    pub latency_ms: Option<u64>,
    pub is_alive: bool,
}

/// The value of a descriptor, with every text field as its characters.
pub struct ProxyView {
    pub id: Seq<char>,
    pub protocol: Seq<char>,
    pub host: Seq<char>,
    pub port: u16,
    pub user: Option<Seq<char>>,
    pub pass: Option<Seq<char>>,
    pub latency_ms: Option<u64>,
    pub is_alive: bool,
}

/// The characters of an optional string.
pub open spec fn opt_chars(o: Option<String>) -> Option<Seq<char>> {
    match o {
        Some(s) => Some(s@),
        None => None,
    }
}

impl View for Proxy {
    type V = ProxyView;

    open spec fn view(&self) -> ProxyView {
        ProxyView {
            id: self.id@,
            protocol: self.protocol@,
            host: self.host@,
            port: self.port,
            user: opt_chars(self.user),
            pass: opt_chars(self.pass),
            latency_ms: self.latency_ms,
            is_alive: self.is_alive,
        }
    }
}

/// The views of a sequence of descriptors.
pub open spec fn views(s: Seq<Proxy>) -> Seq<ProxyView> {
    s.map_values(|p: Proxy| p@)
}

/// A copy of an optional string with the same characters.
pub fn clone_opt(o: &Option<String>) -> (r: Option<String>)
    ensures
        opt_chars(r) == opt_chars(*o),
{
    match o {
        Some(s) => Some(s.clone()),
        None => None,
    }
}

impl Proxy {
    /// A copy of this descriptor with the same view.
    pub fn duplicate(&self) -> (r: Proxy)
        ensures
            r@ == self@,
    {
        Proxy {
            id: self.id.clone(),
            protocol: self.protocol.clone(),
            host: self.host.clone(),
            port: self.port,
            user: clone_opt(&self.user),
            pass: clone_opt(&self.pass),
            latency_ms: self.latency_ms,
            is_alive: self.is_alive,
        }
    }
}

} // verus!
