//! Size classes of the fixed-size-block heap allocator.

use vstd::prelude::*;

verus! {

/// Number of block size classes.
pub const BLOCK_CLASSES: usize = 9;

/// The block sizes, in bytes: powers of two, so each also serves as its
/// block's alignment.
pub open spec fn block_sizes() -> Seq<usize> {
    seq![8usize, 16, 32, 64, 128, 256, 512, 1024, 2048]
}

/// The smallest class whose blocks fit an allocation of `size` bytes aligned
/// to `align`, or `None` when the request is larger than every class (it
/// then goes to the fallback allocator).
pub fn list_index(size: usize, align: usize) -> (r: Option<usize>)
    ensures
        ({
            let need = if size >= align { size } else { align };
            match r {
                Some(i) => {
                    &&& i < BLOCK_CLASSES
                    &&& block_sizes()[i as int] >= need
                    &&& forall|j: int| 0 <= j < i ==> block_sizes()[j] < need
                },
                None => forall|j: int| 0 <= j < BLOCK_CLASSES ==> block_sizes()[j] < need,
            }
        }),
{
    let sizes: [usize; 9] = [8, 16, 32, 64, 128, 256, 512, 1024, 2048];
    proof {
        assert(sizes@ =~= block_sizes());
    }
    let need = if size >= align {
        size
    } else {
        align
    };
    let mut i: usize = 0;
    while i < BLOCK_CLASSES
        invariant
            i <= BLOCK_CLASSES,
            sizes@ == block_sizes(),
            need == if size >= align {
                size
            } else {
                align
            },
            forall|j: int| 0 <= j < i ==> block_sizes()[j] < need,
        decreases BLOCK_CLASSES - i,
    {
        if sizes[i] >= need {
            return Some(i);
        }
        i = i + 1;
    }
    None
}

} // verus!
