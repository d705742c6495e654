//! The configuration as a JSON document gives it.
use vstd::prelude::*;

use crate::address::SocketAddr;

use super::{ConnectionConfig, LoggingConfig, TransportConfig};

verus! {

/// A configuration in which anything may be missing.
#[derive(Clone, Debug)]
pub struct JsonConfig {
    pub secret: Option<String>,
    pub listen: Option<SocketAddr>,
    pub transport: Option<TransportConfig>,
    pub connection: Option<ConnectionConfig>,
    pub logging: Option<LoggingConfig>,
}

} // verus!
