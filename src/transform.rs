use vstd::prelude::*;

use crate::error::ViewerError;

verus! {

/// Bit pattern of the single-precision float `1.0`.
pub const ONE_BITS: u32 = 0x3f80_0000;

/// A 4x4 homogeneous transform, stored column-major as the bit patterns of
/// its single-precision entries: `bits[4 * c + r]` is the entry at row `r`,
/// column `c`. The store copies it whole and never reads its entries.
#[derive(Debug, Clone, Copy, PartialEq, Eq)]
pub struct Transform {
    pub bits: [u32; 16],
}

/// Entry `k` (column-major) of the identity matrix: `1.0` on the diagonal.
pub open spec fn identity_entry(k: int) -> u32 {
    if k % 5 == 0 {
        ONE_BITS
    } else {
        0
    }
}

/// `t` is the identity transform.
pub open spec fn is_identity(t: Transform) -> bool {
    forall|k: int| 0 <= k < 16 ==> t.bits@[k] == identity_entry(k)
}

/// The column-major layout of sixteen entries given row by row.
pub open spec fn column_major_of(rows: Seq<u32>) -> Seq<u32> {
    Seq::new(16, |k: int| rows[(k % 4) * 4 + k / 4])
}

/// A shape and entry count that describe a 4x4 matrix.
pub open spec fn is_four_by_four(shape: Seq<usize>, len: nat) -> bool {
    shape == seq![4usize, 4usize] && len == 16
}

impl Transform {
    /// The identity transform.
    pub fn identity() -> (r: Transform)
        ensures
            is_identity(r),
    {
        let r = Transform {
            bits: [ONE_BITS, 0, 0, 0, 0, ONE_BITS, 0, 0, 0, 0, ONE_BITS, 0, 0, 0, 0, ONE_BITS],
        };
        assert forall|k: int| 0 <= k < 16 implies r.bits@[k] == identity_entry(k) by {
            assert(r.bits@[k] == r.bits[k]);
        }
        r
    }

    /// Builds a transform from a matrix payload given as its shape and its
    /// entries row by row; anything but a 4x4 matrix is rejected.
    pub fn from_row_major(shape: &[usize], rows: &[u32]) -> (r: Result<Transform, ViewerError>)
        ensures
            is_four_by_four(shape@, rows@.len()) <==> r is Ok,
            r is Ok ==> r->Ok_0.bits@ == column_major_of(rows@),
            r is Err ==> r->Err_0 == ViewerError::InvalidTransform,
    {
        if shape.len() != 2 || shape[0] != 4 || shape[1] != 4 || rows.len() != 16 {
            proof {
                if is_four_by_four(shape@, rows@.len()) {
                    assert(shape@[0] == 4 && shape@[1] == 4);
                }
            }
            return Err(ViewerError::InvalidTransform);
        }
        assert(shape@ =~= seq![4usize, 4usize]);
        let mut bits: [u32; 16] = [0; 16];
        let mut k: usize = 0;
        while k < 16
            invariant
                k <= 16,
                rows@.len() == 16,
                forall|j: int| 0 <= j < k ==> bits@[j] == rows@[(j % 4) * 4 + j / 4],
            decreases 16 - k,
        {
            let src: usize = (k % 4) * 4 + k / 4;
            bits[k] = rows[src];
            k = k + 1;
        }
        let t = Transform { bits };
        assert(t.bits@ =~= column_major_of(rows@));
        Ok(t)
    }
}

} // verus!
