//! The configuration as a JSON document gives it.
use vstd::prelude::*;

use super::{EndpointConfig, LoggingConfig, TransportConfig};

verus! {

/// A configuration in which anything may be missing.
#[derive(Clone, Debug)]
pub struct JsonConfig {
    pub secret: Option<String>,
    pub server: Option<String>,
    pub auth_option: Option<String>,
    pub endpoint: Option<EndpointConfig>,
    pub transport: Option<TransportConfig>,
    pub logging: Option<LoggingConfig>,
}

} // verus!
