//! What an OpenVPN tunnel attempt is started with.

use vstd::prelude::*;

use super::proxy::{ProxyEndpoint, ProxyType};
use super::{Endpoint, GenericTunnelOptions};

verus! {

/// The server that the tunnel connects to.
#[derive(Debug, Clone, Copy, PartialEq, Eq, Hash, Structural)]
pub struct ConnectionConfig {
    pub endpoint: Endpoint,
}

/// The local proxy that the tunnel is dialed through.
#[derive(Debug, Clone, Copy, PartialEq, Eq, Hash, Structural)]
pub struct ProxySettings {
    /// Where the proxy is reached.
    pub endpoint: Endpoint,
    pub proxy_type: ProxyType,
}

impl ProxySettings {
    /// The endpoint of the proxy.
    pub fn get_endpoint(&self) -> (result: ProxyEndpoint)
        ensures
            result == self.endpoint(),
    {
        ProxyEndpoint { endpoint: self.endpoint, proxy_type: self.proxy_type }
    }

    /// The endpoint of the proxy.
    pub open spec fn endpoint(self) -> ProxyEndpoint {
        ProxyEndpoint { endpoint: self.endpoint, proxy_type: self.proxy_type }
    }
}

/// Everything needed to start an OpenVPN tunnel.
#[derive(Debug, Clone, Copy, PartialEq, Eq, Hash, Structural)]
pub struct TunnelParameters {
    pub config: ConnectionConfig,
    pub generic_options: GenericTunnelOptions,
    pub proxy: Option<ProxySettings>,
}

} // verus!
