//! The endpoint of a proxy that an OpenVPN tunnel may be dialed through.

use vstd::prelude::*;
use vstd::string::*;

use super::Endpoint;

verus! {

/// The kind of proxy in front of the tunnel.
#[derive(Debug, Clone, Copy, PartialEq, Eq, Hash, Structural)]
pub enum ProxyType {
    Shadowsocks,
    Custom,
}

impl ProxyType {
    /// The text shown for the kind of proxy.
    pub open spec fn text(self) -> Seq<char> {
        match self {
            ProxyType::Shadowsocks => "Shadowsocks"@,
            ProxyType::Custom => "custom"@,
        }
    }

    /// `Shadowsocks` or `custom`.
    pub fn to_string(&self) -> (result: String)
        ensures
            result@ == self.text(),
    {
        match self {
            ProxyType::Shadowsocks => String::from_str("Shadowsocks"),
            ProxyType::Custom => String::from_str("custom"),
        }
    }
}

/// Where a proxy is reached, and what kind of proxy it is.
#[derive(Debug, Clone, Copy, PartialEq, Eq, Hash, Structural)]
pub struct ProxyEndpoint {
    pub endpoint: Endpoint,
    pub proxy_type: ProxyType,
}

} // verus!
