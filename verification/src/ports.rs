//! Default ports of the two backend families.

use vstd::prelude::*;

verus! {

/// Port on which the registry daemon's family listens unless told otherwise.
pub const REGISTRY_PORT: u16 = 11434;

/// Port on which the local server family listens unless told otherwise.
pub const SERVER_PORT: u16 = 12434;

/// The port a launch uses: the requested one if any, else the family's default.
pub open spec fn port_choice(is_ollama: bool, requested: Option<u16>) -> u16 {
    match requested {
        Some(p) => p,
        None => if is_ollama { REGISTRY_PORT } else { SERVER_PORT },
    }
}

/// An explicit port always wins; otherwise each family has its own fixed default.
pub fn port_or_default(is_ollama: bool, requested: Option<u16>) -> (port: u16)
    ensures
        port == port_choice(is_ollama, requested),
{
    match requested {
        Some(p) => p,
        None => if is_ollama { REGISTRY_PORT } else { SERVER_PORT },
    }
}

} // verus!
