//! The terms on which storage is asked of the collector's heap.

use vstd::prelude::*;

verus! {

/// Every block handed out starts at a multiple of this many bytes.
pub const ALIGNMENT: usize = 8;

/// The largest size that can be asked for: rounded up to the alignment it
/// still fits the signed size of an address.
pub const MAX_SIZE: usize = isize::MAX as usize - 7;

/// Whether a block of `size` bytes can be asked of the heap: it holds at
/// least one byte and no more than `MAX_SIZE`.
pub open spec fn is_valid_size(size: usize) -> bool {
    1 <= size <= MAX_SIZE
}

/// A size is valid exactly when it is not zero and makes, with the
/// alignment, a layout that the standard allocator interface accepts: the
/// alignment is a power of two, and the size rounded up to it does not pass
/// the largest signed size.
pub proof fn lemma_valid_size_is_valid_layout(size: usize)
    ensures
        is_valid_size(size) <==> size != 0 && vstd::layout::valid_layout(size, ALIGNMENT),
{
    reveal_with_fuel(vstd::arithmetic::power2::is_pow2, 5);
    assert(vstd::arithmetic::power2::is_pow2(8));
    assert(isize::MAX == 0x7fff_ffff || isize::MAX == 0x7fff_ffff_ffff_ffff);
}

/// Tests `size` before a block is asked for.
pub fn valid_size(size: usize) -> (valid: bool)
    ensures
        valid == is_valid_size(size),
{
    1 <= size && size <= MAX_SIZE
}

} // verus!
