//! The adapter-selection rule the device-creation path applies while it
//! enumerates the machine's adapters.

use vstd::prelude::*;

verus! {

/// An adapter is taken if and only if its descriptor's flags word is clear:
/// any set flag (such as the software-adapter flag) skips the adapter, and
/// enumeration goes on with the next index.
pub fn adapter_suitable(flags: u32) -> (r: bool)
    ensures
        r == (flags == 0),
{
    flags == 0
}

} // verus!
