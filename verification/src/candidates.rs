use crate::config::BUFFER_SIZE;
use vstd::prelude::*;

verus! {

/// `std::hint::black_box` is an identity function that the optimizer treats as
/// opaque: the value handed to it counts as used. The contract claims only the
/// identity.
pub assume_specification<T>[ std::hint::black_box::<T> ](dummy: T) -> (seen: T)
    ensures
        seen == dummy,
;

/// The predictable candidate: a block of `BUFFER_SIZE` bytes in place, which
/// costs no more than moving the stack pointer and clearing the block.
pub fn create_on_stack() {
    let buffer: [u8; BUFFER_SIZE] = [0; BUFFER_SIZE];
    std::hint::black_box(buffer);
}

/// The unpredictable candidate: a block of `BUFFER_SIZE` bytes from the
/// allocator, which has to find free memory for it.
pub fn create_on_heap() {
    let buffer: Vec<u8> = Vec::with_capacity(BUFFER_SIZE);
    std::hint::black_box(buffer);
}

/// The worst case of dynamic sizing: a block that starts with no room at all
/// and has to grow for its first element.
pub fn push_to_vec() {
    let mut buffer: Vec<i32> = Vec::new();
    buffer.push(1);
    std::hint::black_box(buffer);
}

/// The unpredictable candidate for a capacity that is chosen when the program
/// runs: an empty growable block with room for `capacity` bytes from the
/// allocator, shown to the optimizer before the call returns.
pub fn acquire_dynamic(capacity: usize)
    requires
        capacity <= isize::MAX,
{
    let buffer: Vec<u8> = Vec::with_capacity(capacity);
    std::hint::black_box(buffer);
}

} // verus!
