//! The platform VPN service, which only Android provides; elsewhere these
//! operations report that it is unavailable.

use vstd::prelude::*;

verus! {

/// The error reported where no VPN service exists.
pub open spec fn vpn_unsupported() -> Seq<char> {
    "VPN Service is only supported on Android"@
}

/// Starting the VPN service: refused off Android.
pub fn start_vpn() -> (r: Result<(), String>)
    ensures
        r matches Err(e) && e@ == vpn_unsupported(),
{
    Err(String::from_str("VPN Service is only supported on Android"))
}

/// Stopping the VPN service: refused off Android.
pub fn stop_vpn() -> (r: Result<(), String>)
    ensures
        r matches Err(e) && e@ == vpn_unsupported(),
{
    Err(String::from_str("VPN Service is only supported on Android"))
}

/// Whether the VPN service runs: never, off Android.
pub fn get_vpn_status() -> (r: Result<bool, String>)
    ensures
        r == Ok::<bool, String>(false),
{
    Ok(false)
}

} // verus!
