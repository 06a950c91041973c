//! The parts of talking to the graphics card that are plain arithmetic.

use vstd::prelude::*;
use crate::geometry::in_i32;

verus! {

/// How a texture is sampled when it is drawn smaller than it is.
#[derive(Clone, Copy, Debug, PartialEq, Eq, Structural)]
pub enum MinFilter {
    MinNearest,
    MinLinear,
    MinNearestMipmapNearest,
    MinNearestMipmapLinear,
    MinLinearMipmapNearest,
    MinLinearMipmapLinear,
}

/// How a texture is sampled when it is drawn larger than it is.
#[derive(Clone, Copy, Debug, PartialEq, Eq, Structural)]
pub enum MagFilter {
    MagNearest,
    MagLinear,
}

impl MinFilter {
    pub open spec fn spec_has_mipmap(&self) -> bool {
        !(self is MinNearest || self is MinLinear)
    }

    /// Whether the filter reads from smaller copies of the texture, which
    /// then have to be made.
    #[verifier::when_used_as_spec(spec_has_mipmap)]
    pub fn has_mipmap(&self) -> (mipmap: bool)
        ensures
            mipmap == self.spec_has_mipmap(),
    {
        match self {
            MinFilter::MinNearest => false,
            MinFilter::MinLinear => false,
            MinFilter::MinNearestMipmapNearest => true,
            MinFilter::MinNearestMipmapLinear => true,
            MinFilter::MinLinearMipmapNearest => true,
            MinFilter::MinLinearMipmapLinear => true,
        }
    }
}

/// The sum of the first `n` of `sizes`.
pub open spec fn sum_of_first(sizes: Seq<i32>, n: nat) -> int
    decreases n,
{
    if n == 0 || n > sizes.len() {
        0
    } else {
        sum_of_first(sizes, (n - 1) as nat) + sizes[n - 1]
    }
}

/// Where each attribute of a vertex starts, counted in numbers from the
/// start of the vertex, and how many numbers a vertex has in all: the
/// attributes follow each other in the order given, each with as many
/// numbers as `sizes` says. `None` where a sum is too large for `i32`.
pub fn attribute_offsets(sizes: &Vec<i32>) -> (layout: Option<(Vec<i32>, i32)>)
    ensures
        layout.is_some() <==> forall|n: nat|
            n <= sizes@.len() ==> in_i32(#[trigger] sum_of_first(sizes@, n)),
        layout.is_some() ==> {
            let (offsets, stride) = layout.unwrap();
            &&& offsets@.len() == sizes@.len()
            &&& forall|i: int|
                0 <= i < offsets@.len() ==> #[trigger] offsets@[i] == sum_of_first(
                    sizes@,
                    i as nat,
                )
            &&& stride == sum_of_first(sizes@, sizes@.len())
        },
{
    let n: usize = sizes.len();
    let mut offsets: Vec<i32> = Vec::new();
    let mut offset: i32 = 0;
    let mut i: usize = 0;
    while i < n
        invariant
            n == sizes@.len(),
            i <= n,
            offsets@.len() == i,
            offset == sum_of_first(sizes@, i as nat),
            forall|m: nat| m <= i ==> in_i32(#[trigger] sum_of_first(sizes@, m)),
            forall|j: int| 0 <= j < i ==> #[trigger] offsets@[j] == sum_of_first(sizes@, j as nat),
        decreases n - i,
    {
        offsets.push(offset);
        let next: i64 = offset as i64 + sizes[i] as i64;
        assert(next == sum_of_first(sizes@, (i + 1) as nat));
        if next < i32::MIN as i64 || next > i32::MAX as i64 {
            return None;
        }
        offset = next as i32;
        i = i + 1;
    }
    Some((offsets, offset))
}

} // verus!
