//! Writing into caller-owned byte buffers.

use vstd::prelude::*;

verus! {

/// What a buffer holds after `src` was written into it at `start`.
pub open spec fn spec_write_at(dest: Seq<u8>, start: int, src: Seq<u8>) -> Seq<u8>
    recommends
        0 <= start,
        start + src.len() <= dest.len(),
{
    dest.subrange(0, start) + src + dest.subrange(start + src.len(), dest.len() as int)
}

/// Copies `src` into `dest` from position `start` on. The rest of `dest`
/// stays as it is.
pub fn write_at(dest: &mut [u8], start: usize, src: &[u8])
    requires
        start + src@.len() <= old(dest)@.len(),
    ensures
        final(dest)@ == spec_write_at(old(dest)@, start as int, src@),
        final(dest)@.len() == old(dest)@.len(),
{
    let capacity: usize = dest.len();
    let mut i: usize = 0;
    while i < src.len()
        invariant
            i <= src@.len(),
            capacity == dest@.len(),
            dest@.len() == old(dest)@.len(),
            start + src@.len() <= dest@.len(),
            forall|j: int| 0 <= j < start ==> dest@[j] == old(dest)@[j],
            forall|j: int| 0 <= j < i ==> dest@[start + j] == src@[j],
            forall|j: int| start + i <= j < dest@.len() ==> dest@[j] == old(dest)@[j],
        decreases src@.len() - i,
    {
        dest[start + i] = src[i];
        i += 1;
    }
    assert(dest@ =~= spec_write_at(old(dest)@, start as int, src@));
}

} // verus!
