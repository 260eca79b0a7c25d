//! Network helpers shared by every platform.

use vstd::prelude::*;

verus! {

/// The version of the internet protocol that a connection uses.
#[derive(Debug, Copy, Clone, PartialEq, Eq, PartialOrd, Ord, Hash, Structural)]
pub enum IpVersion {
    /// IPv4.
    V4,
    /// IPv6.
    V6,
}

} // verus!
