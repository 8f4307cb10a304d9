//! The server's fixed settings.

use vstd::prelude::*;

verus! {

/// The protocol version that the server speaks.
pub const PROTOCOL_VERSION: u32 = 340;

/// The port that the server listens on.
pub const ADDRESS_PORT: u16 = 25565;

/// The most players that the server reports room for.
pub const MAX_PLAYERS: u32 = 10;

/// The host that the server listens on.
pub fn address() -> (host: &'static str)
    ensures
        host@ == "0.0.0.0"@,
{
    "0.0.0.0"
}

/// The name that the server reports.
pub fn server_name() -> (name: &'static str)
    ensures
        name@ == "ULE"@,
{
    "ULE"
}

/// The description that the server reports, before formatting.
pub fn description() -> (text: &'static str)
    ensures
        text@ == "&a&lHello!"@,
{
    "&a&lHello!"
}

} // verus!
