use vstd::prelude::*;

pub mod audio;
pub mod ring_buffer;
pub mod ring_state;

verus! {

/// Number of bytes in `x` kibibytes.
pub fn kilobytes(x: usize) -> (bytes: usize)
    requires
        x * 1024 <= usize::MAX,
    ensures
        bytes == x * 1024,
{
    x * 1024
}

/// Number of bytes in `x` mebibytes.
pub fn megabytes(x: usize) -> (bytes: usize)
    requires
        x * 1024 * 1024 <= usize::MAX,
    ensures
        bytes == x * 1024 * 1024,
{
    kilobytes(x) * 1024
}

/// Number of bytes in `x` gibibytes.
pub fn gigabytes(x: usize) -> (bytes: usize)
    requires
        x * 1024 * 1024 * 1024 <= usize::MAX,
    ensures
        bytes == x * 1024 * 1024 * 1024,
{
    megabytes(x) * 1024
}

/// Number of bytes in `x` tebibytes.
pub fn terrabytes(x: usize) -> (bytes: usize)
    requires
        x * 1024 * 1024 * 1024 * 1024 <= usize::MAX,
    ensures
        bytes == x * 1024 * 1024 * 1024 * 1024,
{
    gigabytes(x) * 1024
}

} // verus!
