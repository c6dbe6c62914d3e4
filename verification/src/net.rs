//! Address-family selection: which resolved endpoints a worker may connect to.

use vstd::prelude::*;

verus! {

/// The IP-family restriction a run is configured with.
#[derive(Clone, Copy, PartialEq, Eq, Structural, Debug)]
pub enum InternetProtocol {
    Any,
    IpV4,
    IpV6,
}

/// The address family of one resolved endpoint.
#[derive(Clone, Copy, PartialEq, Eq, Structural, Debug)]
pub enum AddrFamily {
    V4,
    V6,
}

/// Whether an endpoint of family `family` may be used under `restriction`.
pub open spec fn family_allowed(restriction: InternetProtocol, family: AddrFamily) -> bool {
    match restriction {
        InternetProtocol::Any => true,
        InternetProtocol::IpV4 => family == AddrFamily::V4,
        InternetProtocol::IpV6 => family == AddrFamily::V6,
    }
}

/// Resolves the two command-line family flags into a single restriction.
/// Asking for both at once is a configuration conflict and is rejected
/// before any connection attempt is made.
pub fn choose_layer_3(ipv4: bool, ipv6: bool) -> (r: Result<InternetProtocol, String>)
    ensures
        ipv4 && ipv6 ==> r is Err,
        !ipv4 && !ipv6 ==> (r matches Ok(p) && p == InternetProtocol::Any),
        ipv4 && !ipv6 ==> (r matches Ok(p) && p == InternetProtocol::IpV4),
        !ipv4 && ipv6 ==> (r matches Ok(p) && p == InternetProtocol::IpV6),
{
    if ipv4 && ipv6 {
        return Err("Use only --ipv4 or --ipv6".to_string());
    }

    if !ipv4 && !ipv6 {
        Ok(InternetProtocol::Any)
    } else if ipv4 {
        Ok(InternetProtocol::IpV4)
    } else {
        Ok(InternetProtocol::IpV6)
    }
}

/// Law: under the v4-only restriction no v6 endpoint is ever allowed, and
/// under v6-only no v4 endpoint. The conflicting pair of flags never even
/// resolves to a restriction (see `choose_layer_3`).
pub proof fn lemma_family_exclusion()
    ensures
        !family_allowed(InternetProtocol::IpV4, AddrFamily::V6),
        !family_allowed(InternetProtocol::IpV6, AddrFamily::V4),
{
}

/// Why a server yielded no usable endpoint.
#[derive(Clone, Copy, PartialEq, Eq, Structural, Debug)]
pub enum ConnectError {
    /// The name resolved to no endpoint at all.
    NoEndpoints,
    /// The first resolved endpoint's family is ruled out by the
    /// restriction.
    FamilyMismatch,
}

/// Checks the endpoint a server name resolved to first. Only the first
/// resolved endpoint is ever attempted; a family mismatch is a connect
/// error, not a reason to try later endpoints.
pub fn select_endpoint(restriction: InternetProtocol, families: &Vec<AddrFamily>) -> (r: Result<
    usize,
    ConnectError,
>)
    ensures
        match r {
            Ok(i) => i == 0 && families@.len() > 0 && family_allowed(restriction, families@[0]),
            Err(ConnectError::NoEndpoints) => families@.len() == 0,
            Err(ConnectError::FamilyMismatch) => families@.len() > 0 && !family_allowed(
                restriction,
                families@[0],
            ),
        },
{
    if families.len() == 0 {
        return Err(ConnectError::NoEndpoints);
    }
    let fam = families[0];
    let ok = match restriction {
        InternetProtocol::Any => true,
        InternetProtocol::IpV4 => fam == AddrFamily::V4,
        InternetProtocol::IpV6 => fam == AddrFamily::V6,
    };
    if ok {
        Ok(0)
    } else {
        Err(ConnectError::FamilyMismatch)
    }
}

} // verus!
