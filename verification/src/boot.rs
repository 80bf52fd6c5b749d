//! What the kernel's boot code computes before it clears the `.bss` section.

use vstd::prelude::*;

verus! {

/// The number of bytes that the kernel zeroes from `sbss` when it clears the
/// `.bss` section `[sbss, ebss)`, whose length must be a multiple of eight
/// (the kernel stops, reporting a misaligned section, otherwise): that length
/// divided by eight.
pub fn clear_bss_len(sbss: usize, ebss: usize) -> (n: usize)
    requires
        sbss <= ebss,
        (ebss - sbss) % 8 == 0,
    ensures
        n == (ebss - sbss) / 8,
{
    (ebss - sbss) / 8
}

/// Tells whether the `.bss` section `[sbss, ebss)` has a length that is a
/// multiple of eight.
pub fn bss_is_aligned(sbss: usize, ebss: usize) -> (b: bool)
    requires
        sbss <= ebss,
    ensures
        b == ((ebss - sbss) % 8 == 0),
{
    (ebss - sbss) % 8 == 0
}

/// The number of bytes that an application zeroes from `sbss` when it clears
/// its `.bss` section `[sbss, ebss)`: the whole section.
pub fn user_clear_bss_len(sbss: usize, ebss: usize) -> (n: usize)
    requires
        sbss <= ebss,
    ensures
        n == ebss - sbss,
{
    ebss - sbss
}

} // verus!
