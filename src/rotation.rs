//! Rotation strategies and their wire names.

use vstd::prelude::*;

use crate::text::str_is;

verus! {

/// The strategy used to choose an upstream for each new client connection.
#[derive(Debug, Clone, Copy, PartialEq, Eq, Structural)]
pub enum RotationMode {
    /// Cycle through live upstreams in order (cursor modulo count).
    RoundRobin,
    /// Pick a live upstream from a clock-derived draw.
    Random,
    /// Pick the upstream with the lowest measured latency.
    LeastLatency,
    /// Draw an upstream with probability decreasing in its latency.
    Weighted,
    /// Keep one upstream for every connection in a ten-minute window.
    TimeSticky,
    /// Hash the target host so each destination keeps its upstream.
    IpSticky,
}

/// The canonical wire name of a mode.
pub open spec fn wire_name(m: RotationMode) -> Seq<char> {
    match m {
        RotationMode::RoundRobin => "round_robin"@,
        RotationMode::Random => "random"@,
        RotationMode::LeastLatency => "least_latency"@,
        RotationMode::Weighted => "weighted"@,
        RotationMode::TimeSticky => "time_sticky"@,
        RotationMode::IpSticky => "ip_sticky"@,
    }
}

/// The mode a wire name denotes: the six canonical names, and the legacy
/// alias `sticky` for time-sticky rotation.
pub open spec fn parse_wire_name(s: Seq<char>) -> Option<RotationMode> {
    if s == "round_robin"@ {
        Some(RotationMode::RoundRobin)
    } else if s == "random"@ {
        Some(RotationMode::Random)
    } else if s == "least_latency"@ {
        Some(RotationMode::LeastLatency)
    } else if s == "weighted"@ {
        Some(RotationMode::Weighted)
    } else if s == "time_sticky"@ {
        Some(RotationMode::TimeSticky)
    } else if s == "ip_sticky"@ {
        Some(RotationMode::IpSticky)
    } else if s == "sticky"@ {
        Some(RotationMode::TimeSticky)
    } else {
        None
    }
}

impl Default for RotationMode {
    /// Round-robin, the mode used when none was configured.
    fn default() -> (r: RotationMode)
        ensures
            r == RotationMode::RoundRobin,
    {
        RotationMode::RoundRobin
    }
}

impl RotationMode {
    /// The canonical wire name of this mode.
    pub fn as_str(&self) -> (r: &'static str)
        ensures
            r@ == wire_name(*self),
    {
        match self {
            RotationMode::RoundRobin => "round_robin",
            RotationMode::Random => "random",
            RotationMode::LeastLatency => "least_latency",
            RotationMode::Weighted => "weighted",
            RotationMode::TimeSticky => "time_sticky",
            RotationMode::IpSticky => "ip_sticky",
        }
    }

    /// Parses a wire name; `None` for a name that denotes no mode.
    pub fn from_str(s: &str) -> (r: Option<RotationMode>)
        ensures
            r == parse_wire_name(s@),
    {
        if str_is(s, "round_robin") {
            Some(RotationMode::RoundRobin)
        } else if str_is(s, "random") {
            Some(RotationMode::Random)
        } else if str_is(s, "least_latency") {
            Some(RotationMode::LeastLatency)
        } else if str_is(s, "weighted") {
            Some(RotationMode::Weighted)
        } else if str_is(s, "time_sticky") {
            Some(RotationMode::TimeSticky)
        } else if str_is(s, "ip_sticky") {
            Some(RotationMode::IpSticky)
        } else if str_is(s, "sticky") {
            Some(RotationMode::TimeSticky)
        } else {
            None
        }
    }
}

/// The length and first character of each wire name, which tell them apart.
proof fn lemma_wire_names_distinct()
    ensures
        "round_robin"@.len() == 11 && "round_robin"@[0] == 'r',
        "random"@.len() == 6 && "random"@[0] == 'r',
        "least_latency"@.len() == 13 && "least_latency"@[0] == 'l',
        "weighted"@.len() == 8 && "weighted"@[0] == 'w',
        "time_sticky"@.len() == 11 && "time_sticky"@[0] == 't',
        "ip_sticky"@.len() == 9 && "ip_sticky"@[0] == 'i',
        "sticky"@.len() == 6 && "sticky"@[0] == 's',
{
    reveal_strlit("round_robin");
    reveal_strlit("random");
    reveal_strlit("least_latency");
    reveal_strlit("weighted");
    reveal_strlit("time_sticky");
    reveal_strlit("ip_sticky");
    reveal_strlit("sticky");
}

/// Parsing the wire name of any mode gives that mode back.
pub proof fn lemma_wire_name_round_trip(m: RotationMode)
    ensures
        parse_wire_name(wire_name(m)) == Some(m),
{
    lemma_wire_names_distinct();
}

/// The legacy name `sticky` denotes time-sticky rotation.
pub proof fn lemma_legacy_sticky_alias()
    ensures
        parse_wire_name("sticky"@) == Some(RotationMode::TimeSticky),
{
    lemma_wire_names_distinct();
}

} // verus!
