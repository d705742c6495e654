//! Authentication method codes (the single `METHOD` octet of RFC 1928).
use vstd::prelude::*;

verus! {

/// No authentication required.
pub const NO_AUTHENTICATION: u8 = 0x00;

/// No acceptable method (sent by the server to reject the client).
pub const NO_ACCEPTABLE_METHOD: u8 = 0xFF;

} // verus!
