//! How the number of physical cores is derived from the processor information the OS reports.

use vstd::prelude::*;

verus! {

/// The number of processor information records the OS offers, from the outcome of the query
/// for the buffer size: `result` (non-zero - the query unexpectedly succeeded), the `error`
/// it failed with (expected: `insufficient_buffer_error`), the reported `buffer_size` in bytes
/// and the size of one record.
///
/// `None` if the outcome is not the expected one or the buffer cannot hold one record.
pub fn num_processor_infos(
    result: usize,
    error: u32,
    buffer_size: u32,
    struct_size: u32,
    insufficient_buffer_error: u32,
) -> (n: Option<u32>)
    requires
        struct_size > 0,
    ensures
        n == (if result != 0 || error != insufficient_buffer_error || buffer_size < struct_size {
            None
        } else {
            Some((buffer_size / struct_size) as u32)
        }),
{
    if result != 0 || error != insufficient_buffer_error || buffer_size < struct_size {
        return None;
    }
    Some(buffer_size / struct_size)
}

/// Number of elements of `s` equal to `x`.
pub open spec fn count_equal(s: Seq<u32>, x: u32) -> nat
    decreases s.len(),
{
    if s.len() == 0 {
        0
    } else {
        count_equal(s.drop_last(), x) + if s.last() == x { 1nat } else { 0nat }
    }
}

/// The number of physical cores: the number of processor information records whose
/// relationship is `processor_core`.
pub fn count_physical_cores(relationships: &Vec<u32>, processor_core: u32) -> (n: u32)
    requires
        relationships@.len() <= u32::MAX,
    ensures
        n == count_equal(relationships@, processor_core),
{
    let mut n: u32 = 0;
    let mut i: usize = 0;
    while i < relationships.len()
        invariant
            i <= relationships@.len(),
            relationships@.len() <= u32::MAX,
            n == count_equal(relationships@.subrange(0, i as int), processor_core),
            n <= i,
        decreases relationships@.len() - i,
    {
        proof {
            let s = relationships@.subrange(0, i + 1);
            assert(s.drop_last() =~= relationships@.subrange(0, i as int));
        }
        if relationships[i] == processor_core {
            n = n + 1;
        }
        i = i + 1;
    }
    proof {
        assert(relationships@.subrange(0, i as int) =~= relationships@);
    }
    n
}

} // verus!
