//! Network helpers.

use crate::network::IpVersion;
use vstd::prelude::*;
use vstd::std_specs::convert::FromSpecImpl;

verus! {

/// A set of flags that give more information about the underlying
/// connectivity to a network.
///
/// The meaning of these can be confusing. See this article for more
/// information: <https://devblogs.microsoft.com/oldnewthing/20230112-00/?p=107700>
#[derive(Debug, Copy, Clone, PartialEq, Eq, PartialOrd, Ord, Hash, Structural)]
pub enum Connectivity {
    /// The underlying network interfaces have no connectivity to any network.
    Disconnected,
    /// There is connectivity to a network, but the service cannot detect any IPv4 Network Traffic.
    Ipv4Notraffic,
    /// There is connectivity to a network, but the service cannot detect any IPv6 Network Traffic.
    Ipv6Notraffic,
    /// There is connectivity to the local subnet using the IPv4 protocol.
    Ipv4Subnet,
    /// There is connectivity to a routed network using the IPv4 protocol.
    Ipv4Localnetwork,
    /// There is connectivity to the Internet using the IPv4 protocol.
    Ipv4Internet,
    /// There is connectivity to the local subnet using the IPv6 protocol.
    Ipv6Subnet,
    /// There is connectivity to a local network using the IPv6 protocol.
    Ipv6Localnetwork,
    /// There is connectivity to the Internet using the IPv6 protocol.
    Ipv6Internet,
}

/// The flag value that the network list manager uses for a connectivity.
pub open spec fn flag_of(connectivity: Connectivity) -> i32 {
    match connectivity {
        Connectivity::Disconnected => 0x0i32,
        Connectivity::Ipv4Notraffic => 0x1i32,
        Connectivity::Ipv6Notraffic => 0x2i32,
        Connectivity::Ipv4Subnet => 0x10i32,
        Connectivity::Ipv4Localnetwork => 0x20i32,
        Connectivity::Ipv4Internet => 0x40i32,
        Connectivity::Ipv6Subnet => 0x100i32,
        Connectivity::Ipv6Localnetwork => 0x200i32,
        Connectivity::Ipv6Internet => 0x400i32,
    }
}

/// The connectivity that a flag value of the network list manager stands
/// for. A value that is none of the nine flags reads as
/// [`Connectivity::Ipv4Notraffic`].
pub open spec fn connectivity_of(flag: i32) -> Connectivity {
    if flag == 0x0i32 {
        Connectivity::Disconnected
    } else if flag == 0x40i32 {
        Connectivity::Ipv4Internet
    } else if flag == 0x20i32 {
        Connectivity::Ipv4Localnetwork
    } else if flag == 0x10i32 {
        Connectivity::Ipv4Subnet
    } else if flag == 0x400i32 {
        Connectivity::Ipv6Internet
    } else if flag == 0x200i32 {
        Connectivity::Ipv6Localnetwork
    } else if flag == 0x2i32 {
        Connectivity::Ipv6Notraffic
    } else if flag == 0x100i32 {
        Connectivity::Ipv6Subnet
    } else {
        Connectivity::Ipv4Notraffic
    }
}

/// The version of the connected network, as the flags tell it.
pub open spec fn ip_version_of(connectivity: Connectivity) -> Option<IpVersion> {
    match connectivity {
        Connectivity::Ipv4Internet
        | Connectivity::Ipv4Localnetwork
        | Connectivity::Ipv4Subnet
        | Connectivity::Ipv4Notraffic => Some(IpVersion::V4),
        Connectivity::Ipv6Internet
        | Connectivity::Ipv6Localnetwork
        | Connectivity::Ipv6Subnet
        | Connectivity::Ipv6Notraffic => Some(IpVersion::V6),
        Connectivity::Disconnected => None,
    }
}

impl Connectivity {
    /// Gets the version of the connected network.
    ///
    /// Returns `None` if the version could not be determined.
    #[must_use]
    pub fn ip_version(&self) -> (version: Option<IpVersion>)
        ensures
            version == ip_version_of(*self),
    {
        match self {
            Connectivity::Ipv4Internet
            | Connectivity::Ipv4Localnetwork
            | Connectivity::Ipv4Subnet
            | Connectivity::Ipv4Notraffic => Some(IpVersion::V4),
            Connectivity::Ipv6Internet
            | Connectivity::Ipv6Localnetwork
            | Connectivity::Ipv6Subnet
            | Connectivity::Ipv6Notraffic => Some(IpVersion::V6),
            Connectivity::Disconnected => None,
        }
    }
}

impl From<i32> for Connectivity {
    fn from(connectivity: i32) -> (converted: Connectivity) {
        if connectivity == 0x0 {
            Connectivity::Disconnected
        } else if connectivity == 0x40 {
            Connectivity::Ipv4Internet
        } else if connectivity == 0x20 {
            Connectivity::Ipv4Localnetwork
        } else if connectivity == 0x10 {
            Connectivity::Ipv4Subnet
        } else if connectivity == 0x400 {
            Connectivity::Ipv6Internet
        } else if connectivity == 0x200 {
            Connectivity::Ipv6Localnetwork
        } else if connectivity == 0x2 {
            Connectivity::Ipv6Notraffic
        } else if connectivity == 0x100 {
            Connectivity::Ipv6Subnet
        } else {
            Connectivity::Ipv4Notraffic
        }
    }
}

impl FromSpecImpl<i32> for Connectivity {
    open spec fn obeys_from_spec() -> bool {
        true
    }

    open spec fn from_spec(connectivity: i32) -> Connectivity {
        connectivity_of(connectivity)
    }
}

impl From<Connectivity> for i32 {
    fn from(connectivity: Connectivity) -> (converted: i32) {
        match connectivity {
            Connectivity::Disconnected => 0x0,
            Connectivity::Ipv4Internet => 0x40,
            Connectivity::Ipv4Localnetwork => 0x20,
            Connectivity::Ipv4Notraffic => 0x1,
            Connectivity::Ipv4Subnet => 0x10,
            Connectivity::Ipv6Internet => 0x400,
            Connectivity::Ipv6Localnetwork => 0x200,
            Connectivity::Ipv6Notraffic => 0x2,
            Connectivity::Ipv6Subnet => 0x100,
        }
    }
}

impl FromSpecImpl<Connectivity> for i32 {
    open spec fn obeys_from_spec() -> bool {
        true
    }

    open spec fn from_spec(connectivity: Connectivity) -> i32 {
        flag_of(connectivity)
    }
}

/// Every connectivity is read back from its own flag value.
pub proof fn lemma_flag_round_trip(connectivity: Connectivity)
    ensures
        connectivity_of(flag_of(connectivity)) == connectivity,
{
}

/// A flag value that is one of the nine flags is kept by reading it and
/// writing it again; any other value is written back as the flag of
/// [`Connectivity::Ipv4Notraffic`].
pub proof fn lemma_flag_normal_form(flag: i32)
    ensures
        flag_of(connectivity_of(flag)) == if flag == 0x0i32 || flag == 0x2i32 || flag == 0x10i32
            || flag == 0x20i32 || flag == 0x40i32 || flag == 0x100i32 || flag == 0x200i32 || flag
            == 0x400i32 {
            flag
        } else {
            0x1i32
        },
{
}

} // verus!
