//! How a mesh is dealt out to the meshes it becomes: a GoldSrc mesh holds a
//! limited number of triangles.

use crate::s2g::constants::MAX_TRIANGLE;
use vstd::prelude::*;

verus! {

/// How many meshes a mesh of `triangles` triangles becomes: as few as hold
/// them all, and one where it has none.
pub open spec fn pieces_needed(triangles: nat) -> nat {
    if triangles == 0 {
        1
    } else {
        ((triangles + MAX_TRIANGLE - 1) / (MAX_TRIANGLE as int)) as nat
    }
}

/// The triangles of piece `piece`: where they start in the mesh and where
/// they end.
pub open spec fn piece_range(triangles: nat, piece: nat) -> (usize, usize) {
    (
        (piece * MAX_TRIANGLE) as usize,
        if (piece + 1) * MAX_TRIANGLE < triangles {
            ((piece + 1) * MAX_TRIANGLE) as usize
        } else {
            triangles as usize
        },
    )
}

/// Deals the triangles of a mesh out to the meshes it becomes: for each,
/// in order, where its triangles start in the mesh and where they end.
/// Every piece but the last is full.
pub fn split_triangles(triangles: usize) -> (r: Vec<(usize, usize)>)
    ensures
        r.len() == pieces_needed(triangles as nat),
        forall|i: int| 0 <= i < r.len() ==> #[trigger] r[i] == piece_range(triangles as nat, i as nat),
{
    let mut r: Vec<(usize, usize)> = Vec::new();
    let mut start: usize = 0;
    if triangles == 0 {
        r.push((0, 0));
        return r;
    }
    while start < triangles
        invariant
            triangles > 0,
            start <= triangles,
            start < triangles ==> start == r.len() * MAX_TRIANGLE,
            start == triangles ==> r.len() > 0 && (r.len() - 1) * MAX_TRIANGLE < triangles
                <= r.len() * MAX_TRIANGLE,
            forall|i: int|
                0 <= i < r.len() ==> #[trigger] r[i] == piece_range(triangles as nat, i as nat),
        decreases triangles - start,
    {
        let end: usize = if triangles - start > MAX_TRIANGLE {
            start + MAX_TRIANGLE
        } else {
            triangles
        };
        r.push((start, end));
        start = end;
    }
    r
}

} // verus!
