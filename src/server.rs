//! Server control: the runtime settings, the running flag and the
//! round-robin cursor, and the choice of an upstream for each connection.

use vstd::prelude::*;

use vstd::string::StringSliceAdditionalSpecFns;

use crate::proxy::{views, Proxy, ProxyView};
use crate::registry::{is_live_order, lemma_live_order_unique, live_upstreams, ProxyPool};
use crate::rotation::{wire_name, RotationMode};
use crate::selector::{next_cursor, select_proxy, selected_index, Draw};

verus! {

/// The listen host a new server binds to.
pub open spec fn default_host() -> Seq<char> {
    "127.0.0.1"@
}

/// The settings and shared state of the local proxy server. The listener
/// itself is run by the caller: `start` says when one is to be launched.
pub struct ProxyServer {
    is_running: bool,
    listen_port: u16,
    listen_host: String,
    rotation_mode: RotationMode,
    round_robin_idx: usize,
}

impl ProxyServer {
    /// Whether the server is marked running.
    pub closed spec fn running(&self) -> bool {
        self.is_running
    }

    /// The configured listen port.
    pub closed spec fn port(&self) -> u16 {
        self.listen_port
    }

    /// The configured listen host.
    pub closed spec fn host(&self) -> Seq<char> {
        self.listen_host@
    }

    /// The configured rotation mode.
    pub closed spec fn mode(&self) -> RotationMode {
        self.rotation_mode
    }

    /// The round-robin cursor.
    pub closed spec fn cursor(&self) -> usize {
        self.round_robin_idx
    }

    /// A stopped server on `127.0.0.1:default_port`, rotating round-robin
    /// from a zero cursor.
    pub fn new(default_port: u16) -> (r: ProxyServer)
        ensures
            !r.running(),
            r.port() == default_port,
            r.host() == default_host(),
            r.mode() == RotationMode::RoundRobin,
            r.cursor() == 0,
    {
        ProxyServer {
            is_running: false,
            listen_port: default_port,
            listen_host: String::from_str("127.0.0.1"),
            rotation_mode: RotationMode::RoundRobin,
            round_robin_idx: 0,
        }
    }

    /// The configured listen port.
    pub fn get_port(&self) -> (r: u16)
        ensures
            r == self.port(),
    {
        self.listen_port
    }

    /// Sets the listen port; it applies from the next start.
    pub fn set_port(&mut self, port: u16)
        ensures
            final(self).port() == port,
            final(self).host() == old(self).host(),
            final(self).mode() == old(self).mode(),
            final(self).running() == old(self).running(),
            final(self).cursor() == old(self).cursor(),
    {
        self.listen_port = port;
    }

    /// The configured listen host.
    pub fn get_host(&self) -> (r: String)
        ensures
            r@ == self.host(),
    {
        self.listen_host.clone()
    }

    /// Sets the listen host; it applies from the next start.
    pub fn set_host(&mut self, host: String)
        ensures
            final(self).host() == host@,
            final(self).port() == old(self).port(),
            final(self).mode() == old(self).mode(),
            final(self).running() == old(self).running(),
            final(self).cursor() == old(self).cursor(),
    {
        self.listen_host = host;
    }

    /// Whether the server is marked running.
    pub fn is_running(&self) -> (r: bool)
        ensures
            r == self.running(),
    {
        self.is_running
    }

    /// The wire name of the configured rotation mode.
    pub fn get_rotation_mode(&self) -> (r: String)
        ensures
            r@ == wire_name(self.mode()),
    {
        String::from_str(self.rotation_mode.as_str())
    }

    /// The configured rotation mode.
    pub fn rotation_mode(&self) -> (r: RotationMode)
        ensures
            r == self.mode(),
    {
        self.rotation_mode
    }

    /// Sets the rotation mode; it applies from the next connection.
    pub fn set_rotation_mode(&mut self, mode: RotationMode)
        ensures
            final(self).mode() == mode,
            final(self).port() == old(self).port(),
            final(self).host() == old(self).host(),
            final(self).running() == old(self).running(),
            final(self).cursor() == old(self).cursor(),
    {
        self.rotation_mode = mode;
    }

    /// Marks the server running. Returns whether it was stopped before, that
    /// is whether a listener is to be launched; a second start while running
    /// changes nothing.
    pub fn start(&mut self) -> (r: bool)
        ensures
            r == !old(self).running(),
            final(self).running(),
            final(self).port() == old(self).port(),
            final(self).host() == old(self).host(),
            final(self).mode() == old(self).mode(),
            final(self).cursor() == old(self).cursor(),
    {
        let was_running = self.is_running;
        self.is_running = true;
        !was_running
    }

    /// Marks the server stopped; its listener exits at its next poll.
    pub fn stop(&mut self)
        ensures
            !final(self).running(),
            final(self).port() == old(self).port(),
            final(self).host() == old(self).host(),
            final(self).mode() == old(self).mode(),
            final(self).cursor() == old(self).cursor(),
    {
        self.is_running = false;
    }

    /// Chooses the upstream for a new connection to `target_host`: the live
    /// descriptors of `pool`, sorted by id, handed to the selector with
    /// `mode` (the mode configured when the connection was accepted) and the
    /// shared cursor. `None` exactly when no descriptor is alive.
    pub fn choose_upstream(&mut self, pool: &ProxyPool, mode: RotationMode, target_host: &str) -> (r: Option<Proxy>)
        requires
            pool.wf(),
        ensures
            final(self).port() == old(self).port(),
            final(self).host() == old(self).host(),
            final(self).mode() == old(self).mode(),
            final(self).running() == old(self).running(),
            exists|live: Seq<ProxyView>|
                #![trigger is_live_order(live, pool@)]
                is_live_order(live, pool@) && (r is None <==> live.len() == 0) && final(self).cursor() == (
                if live.len() > 0 && mode == RotationMode::RoundRobin {
                    next_cursor(old(self).cursor())
                } else {
                    old(self).cursor()
                }) && (r matches Some(p) ==> exists|d: Draw, i: int|
                    #![trigger selected_index(live, mode, d, target_host.spec_bytes()), live[i]]
                    d.cursor == old(self).cursor() && selected_index(
                        live,
                        mode,
                        d,
                        target_host.spec_bytes(),
                    ) == Some(i) && 0 <= i < live.len() && p@ == live[i]),
    {
        let alive = live_upstreams(pool);
        let ghost live = views(alive@);
        let chosen = select_proxy(alive.as_slice(), &mode, &mut self.round_robin_idx, target_host);
        let r = match chosen {
            Some(p) => Some(p.duplicate()),
            None => None,
        };
        proof {
            if chosen is Some {
                let p = chosen->0;
                let (d, i) = choose|d: Draw, i: int|
                    #![trigger selected_index(views(alive@), mode, d, target_host.spec_bytes()), alive@[i]]
                    d.cursor == old(self).cursor() && d.nanos < 1_000_000_000 && selected_index(
                        views(alive@),
                        mode,
                        d,
                        target_host.spec_bytes(),
                    ) == Some(i) && 0 <= i < alive@.len() && *p == alive@[i];
                assert(live[i] == alive@[i]@);
                assert(selected_index(live, mode, d, target_host.spec_bytes()) == Some(i));
            }
        }
        assert(is_live_order(live, pool@));
        r
    }
}

/// Hash-sticky selection over a registry depends only on the registry's
/// contents and the target host: whatever order snapshots come in, the live
/// orders agree, so the same index and the same upstream are chosen.
pub proof fn lemma_ip_sticky_same_upstream(
    l1: Seq<ProxyView>,
    l2: Seq<ProxyView>,
    m: Map<Seq<char>, ProxyView>,
    d1: Draw,
    d2: Draw,
    host: Seq<u8>,
)
    requires
        is_live_order(l1, m),
        is_live_order(l2, m),
    ensures
        selected_index(l1, RotationMode::IpSticky, d1, host) == selected_index(l2, RotationMode::IpSticky, d2, host),
        selected_index(l1, RotationMode::IpSticky, d1, host) matches Some(i) ==> l1[i] == l2[i],
{
    lemma_live_order_unique(l1, l2, m);
}

} // verus!

