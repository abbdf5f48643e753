//! What the kernel accepts when a link is taken down by name.

use vstd::prelude::*;
use vstd::string::StringSliceAdditionalSpecFns;

verus! {

/// A name fits the kernel's `ifr_name` buffer of `buffer` bytes when it is
/// not empty and leaves room for the terminating NUL.
pub open spec fn name_fits(name: Seq<u8>, buffer: usize) -> bool {
    0 < name.len() < buffer
}

/// Can `interface` be handed to the kernel in a buffer of `buffer` bytes?
pub fn interface_name_fits(interface: &str, buffer: usize) -> (b: bool)
    ensures
        b == name_fits(interface.spec_bytes(), buffer),
{
    let n = interface.as_bytes().len();
    n > 0 && n < buffer
}

} // verus!
