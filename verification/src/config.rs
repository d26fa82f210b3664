//! Configuration: an immutable record read once at startup.
//!
//! Holds the gateway address (required) and optionally the downstream
//! service's endpoint and credentials. The gateway address must be validated
//! for parseability before use; a missing downstream target is a legal but
//! degraded configuration that ends the loop after the first successful
//! negotiation.

use vstd::prelude::*;
use vstd::utf8::encode_utf8;

use crate::address::Ipv4Octets;
use crate::address::is_dotted_quad;
use crate::address::parse_ipv4;
use crate::address::quad_denotes;

verus! {

/// A fatal configuration fault, found before the loop starts.
#[derive(Clone, Copy, Debug, PartialEq, Eq, Structural)]
pub enum ConfigError {
    /// The gateway text is not a parseable IPv4 dotted quad.
    InvalidGatewayAddress,
}

/// Endpoint and credentials of the downstream RPC service.
#[derive(Clone, Debug)]
pub struct TransmissionRpcConfig {
    pub rpc_url: String,
    pub rpc_username: String,
    pub rpc_password: String,
}

/// The immutable startup configuration.
#[derive(Clone, Debug)]
pub struct Config {
    /// Gateway address in dotted-quad IPv4 text form.
    pub gateway: String,
    /// Downstream target; its absence is a degraded configuration.
    pub transmission: Option<TransmissionRpcConfig>,
}

impl Config {
    /// The gateway text, as the bytes its characters encode to.
    pub open spec fn spec_gateway_bytes(&self) -> Seq<u8> {
        encode_utf8(self.gateway@)
    }

    /// The gateway text is a parseable IPv4 dotted quad.
    pub open spec fn gateway_parseable(&self) -> bool {
        is_dotted_quad(self.spec_gateway_bytes())
    }

    /// Validate the gateway address for parseability, as required before
    /// any exchange uses it. Fails with `InvalidGatewayAddress` exactly on
    /// a gateway text that is no dotted-quad IPv4 address.
    pub fn validate_gateway(&self) -> (r: Result<Ipv4Octets, ConfigError>)
        ensures
            r is Ok <==> self.gateway_parseable(),
            r matches Ok(q) ==> quad_denotes(self.spec_gateway_bytes(), q),
            r is Err ==> r == Err::<Ipv4Octets, ConfigError>(ConfigError::InvalidGatewayAddress),
    {
        match parse_ipv4(self.gateway.as_str()) {
            Some(q) => Ok(q),
            None => Err(ConfigError::InvalidGatewayAddress),
        }
    }

    /// Whether a downstream target is configured.
    pub fn has_downstream(&self) -> (r: bool)
        ensures
            r == (self.transmission is Some),
    {
        self.transmission.is_some()
    }
}

impl Default for Config {
    /// An empty configuration: no gateway text, no downstream target.
    fn default() -> (r: Config)
        ensures
            r.gateway@ == Seq::<char>::empty(),
            r.transmission is None,
    {
        Config { gateway: String::new(), transmission: None }
    }
}

impl Default for TransmissionRpcConfig {
    /// Empty endpoint and credentials.
    fn default() -> (r: TransmissionRpcConfig)
        ensures
            r.rpc_url@ == Seq::<char>::empty(),
            r.rpc_username@ == Seq::<char>::empty(),
            r.rpc_password@ == Seq::<char>::empty(),
    {
        TransmissionRpcConfig {
            rpc_url: String::new(),
            rpc_username: String::new(),
            rpc_password: String::new(),
        }
    }
}

} // verus!
