//! Sequential cursor-based extraction from a byte buffer.
use vstd::prelude::*;

verus! {

/// Copies `count` bytes out of `content` starting at `*position` and advances
/// the cursor past them. The caller must know that the bytes are there; the
/// bounds-checked entry point is [`read_checked`].
pub fn read_value(content: &Vec<u8>, position: &mut usize, count: usize) -> (r: Vec<u8>)
    requires
        *old(position) + count <= content@.len(),
    ensures
        r@ == content@.subrange(*old(position) as int, *old(position) + count),
        *final(position) == *old(position) + count,
{
    let mut result: Vec<u8> = Vec::new();
    let _content_len: usize = content.len();
    let end_position = *position + count;
    while *position < end_position
        invariant
            *position <= end_position,
            *old(position) <= *position,
            end_position == *old(position) + count,
            end_position <= content@.len(),
            result@ == content@.subrange(*old(position) as int, *position as int),
        decreases end_position - *position,
    {
        result.push(content[*position]);
        *position += 1;
        proof {
            assert(result@ =~= content@.subrange(*old(position) as int, *position as int));
        }
    }
    result
}

/// Copies the next `N` bytes out of `content` into a fixed-size array and
/// advances the cursor past them.
pub fn read_value_fixed<const N: usize>(content: &Vec<u8>, position: &mut usize) -> (r: [u8; N])
    requires
        *old(position) + N <= content@.len(),
    ensures
        r@ == content@.subrange(*old(position) as int, *old(position) + N),
        *final(position) == *old(position) + N,
{
    let bytes = read_value(content, position, N);
    let mut result: [u8; N] = [0u8; N];
    let mut i: usize = 0;
    while i < N
        invariant
            i <= N,
            bytes@.len() == N,
            bytes@ == content@.subrange(*old(position) as int, *old(position) + N),
            result@.len() == N,
            forall|j: int| 0 <= j < i ==> result@[j] == bytes@[j],
        decreases N - i,
    {
        result[i] = bytes[i];
        i += 1;
    }
    proof {
        assert(result@ =~= bytes@);
    }
    result
}

} // verus!
