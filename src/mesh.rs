//! Topology of a UV sphere: the order of its grid vertices and its triangle
//! index buffer. Positions and normals are floating point and are computed by
//! the caller from each grid point (stack, slice).

use vstd::arithmetic::div_mod::{lemma_fundamental_div_mod, lemma_mod_pos_bound};
use vstd::prelude::*;

verus! {

/// Number of latitude rings used when no stack count is given.
pub const DEFAULT_STACKS: u32 = 40;

/// Number of longitude steps used when no slice count is given.
pub const DEFAULT_SLICES: u32 = 40;

/// One vertex of the sphere grid: its latitude ring and its longitude step.
#[derive(Clone, Copy, Debug, PartialEq, Eq, Structural)]
pub struct GridPoint {
    pub stack: u32,
    pub slice: u32,
}

/// Why a sphere grid cannot be built.
#[derive(Clone, Copy, Debug, PartialEq, Eq, Structural)]
pub enum MeshError {
    /// The stack count is zero: no ring can be spanned.
    ZeroStacks,
    /// The slice count is zero: no ring has any width.
    ZeroSlices,
    /// The index buffer would hold more than `u32::MAX` entries.
    TooLarge,
}

/// The vertex and index layout of a UV sphere with `stacks` rings between the
/// poles and `slices` steps around each ring.
#[derive(Debug)]
pub struct SphereTopology {
    pub stacks: u32,
    pub slices: u32,
    /// Grid points in vertex order: ring by ring, from one pole to the other.
    pub points: Vec<GridPoint>,
    /// Triangle list, three indices per triangle, two triangles per quad.
    pub indices: Vec<u32>,
}

/// The value an optional count takes.
pub open spec fn count_or(c: Option<u32>, default: u32) -> u32 {
    match c {
        Some(v) => v,
        None => default,
    }
}

/// Flat vertex index of grid point (stack, slice).
pub open spec fn vertex_id(stack: int, slice: int, slices: int) -> int {
    stack * (slices + 1) + slice
}

/// The `k`-th index (0..6) emitted for the quad whose top-left corner is grid
/// point (stack, slice): triangles (current, next, current + 1) and
/// (next, next + 1, current + 1), where `next` is the same slice one ring on.
pub open spec fn quad_corner(stack: int, slice: int, slices: int, k: int) -> int {
    let current = vertex_id(stack, slice, slices);
    let next = current + slices + 1;
    if k == 0 {
        current
    } else if k == 1 {
        next
    } else if k == 2 {
        current + 1
    } else if k == 3 {
        next
    } else if k == 4 {
        next + 1
    } else {
        current + 1
    }
}

/// Whether a grid of this size has an index buffer whose length fits in `u32`.
pub open spec fn grid_fits(stacks: int, slices: int) -> bool {
    6 * stacks * slices <= u32::MAX
}

/// The grid points are exactly the (stack, slice) pairs in vertex order.
pub open spec fn points_laid_out(points: Seq<GridPoint>, stacks: int, slices: int) -> bool {
    &&& points.len() == (stacks + 1) * (slices + 1)
    &&& forall|st: int, sl: int|
        0 <= st <= stacks && 0 <= sl <= slices ==> #[trigger] points[vertex_id(st, sl, slices)]
            == (GridPoint { stack: st as u32, slice: sl as u32 })
}

/// The index buffer holds the two triangles of every quad, quad by quad.
pub open spec fn indices_laid_out(indices: Seq<u32>, stacks: int, slices: int) -> bool {
    &&& indices.len() == 6 * stacks * slices
    &&& forall|st: int, sl: int, k: int|
        0 <= st < stacks && 0 <= sl < slices && 0 <= k < 6 ==> #[trigger] indices[6 * (st
            * slices + sl) + k] == quad_corner(st, sl, slices, k)
}

/// A well-formed topology for its own stack and slice counts.
pub open spec fn topology_wf(t: SphereTopology) -> bool {
    &&& t.stacks >= 1
    &&& t.slices >= 1
    &&& grid_fits(t.stacks as int, t.slices as int)
    &&& points_laid_out(t.points@, t.stacks as int, t.slices as int)
    &&& indices_laid_out(t.indices@, t.stacks as int, t.slices as int)
}

/// Every entry of the index buffer names a vertex of the grid.
pub proof fn lemma_indices_name_vertices(t: SphereTopology)
    requires
        topology_wf(t),
    ensures
        forall|j: int| 0 <= j < t.indices.len() ==> #[trigger] t.indices@[j] < t.points.len(),
{
    let s = t.stacks as int;
    let l = t.slices as int;
    assert forall|j: int| 0 <= j < t.indices.len() implies #[trigger] t.indices@[j]
        < t.points.len() by {
        let q = j / 6;
        let k = j % 6;
        lemma_fundamental_div_mod(j, 6);
        lemma_mod_pos_bound(j, 6);
        let st = q / l;
        let sl = q % l;
        lemma_fundamental_div_mod(q, l);
        lemma_mod_pos_bound(q, l);
        assert(q < s * l) by (nonlinear_arith)
            requires
                j == 6 * q + k,
                0 <= k < 6,
                j < 6 * s * l,
        ;
        assert(0 <= st < s) by (nonlinear_arith)
            requires
                q == l * st + sl,
                0 <= sl < l,
                0 <= q < s * l,
        ;
        assert(j == 6 * (st * l + sl) + k) by (nonlinear_arith)
            requires
                j == 6 * q + k,
                q == l * st + sl,
        ;
        assert(t.indices@[6 * (st * l + sl) + k] == quad_corner(st, sl, l, k));
        assert(st * (l + 1) + sl + l + 2 < (s + 1) * (l + 1)) by (nonlinear_arith)
            requires
                0 <= st < s,
                0 <= sl < l,
        ;
    }
}

proof fn lemma_grid_bounds(stacks: int, slices: int)
    requires
        stacks >= 1,
        slices >= 1,
        grid_fits(stacks, slices),
    ensures
        (stacks + 1) * (slices + 1) <= 6 * stacks * slices,
        (stacks + 1) * (slices + 1) <= u32::MAX,
        stacks < u32::MAX,
        slices < u32::MAX,
{
    assert(6 * stacks <= 6 * stacks * slices && 6 * slices <= 6 * stacks * slices)
        by (nonlinear_arith)
        requires
            stacks >= 1,
            slices >= 1,
    ;
    assert((stacks + 1) * (slices + 1) <= 6 * stacks * slices) by (nonlinear_arith)
        requires
            stacks >= 1,
            slices >= 1,
    ;
}

proof fn lemma_row_before(st: int, sl: int, stack: int, width: int)
    requires
        0 <= st < stack,
        0 <= sl < width,
    ensures
        0 <= st * width + sl < stack * width,
{
    assert(st * width + width <= stack * width) by (nonlinear_arith)
        requires
            st < stack,
            width >= 0,
    ;
    assert(0 <= st * width) by (nonlinear_arith)
        requires
            st >= 0,
            width >= 0,
    ;
}

/// Builds the grid points and the index buffer of a UV sphere.
///
/// A missing count takes its default (40 stacks, 40 slices). Zero counts are
/// rejected, as is a grid whose index buffer would not fit in `u32`.
pub fn generate_sphere_topology(stacks: Option<u32>, slices: Option<u32>) -> (r: Result<
    SphereTopology,
    MeshError,
>)
    ensures
        ({
            let s = count_or(stacks, DEFAULT_STACKS) as int;
            let l = count_or(slices, DEFAULT_SLICES) as int;
            match r {
                Ok(t) => s >= 1 && l >= 1 && grid_fits(s, l) && t.stacks == s && t.slices == l
                    && t.points.len() == (s + 1) * (l + 1) && t.indices.len() == 6 * s * l
                    && topology_wf(t),
                Err(MeshError::ZeroStacks) => s == 0,
                Err(MeshError::ZeroSlices) => s >= 1 && l == 0,
                Err(MeshError::TooLarge) => s >= 1 && l >= 1 && !grid_fits(s, l),
            }
        }),
{
    let stx: u32 = match stacks {
        Some(s) => s,
        None => DEFAULT_STACKS,
    };
    let slc: u32 = match slices {
        Some(s) => s,
        None => DEFAULT_SLICES,
    };
    if stx == 0 {
        return Err(MeshError::ZeroStacks);
    }
    if slc == 0 {
        return Err(MeshError::ZeroSlices);
    }
    let ghost s = stx as int;
    let ghost l = slc as int;
    proof {
        assert(s * l <= u32::MAX * u32::MAX) by (nonlinear_arith)
            requires
                0 <= s <= u32::MAX,
                0 <= l <= u32::MAX,
        ;
        assert(6 * s * l == 6 * (s * l)) by (nonlinear_arith);
    }
    if (stx as u64) * (slc as u64) > (u32::MAX / 6) as u64 {
        return Err(MeshError::TooLarge);
    }
    let ghost w = l + 1;
    proof {
        lemma_grid_bounds(s, l);
    }
    let ring: u32 = slc + 1;
    let mut points: Vec<GridPoint> = Vec::new();
    let mut indices: Vec<u32> = Vec::new();
    let mut stack: u32 = 0;
    while stack <= stx
        invariant
            s == stx,
            l == slc,
            w == ring,
            ring == slc + 1,
            s >= 1,
            l >= 1,
            grid_fits(s, l),
            (s + 1) * w <= u32::MAX,
            stx < u32::MAX,
            stack <= stx + 1,
            points.len() == stack * w,
            forall|st: int, sl: int|
                0 <= st < stack && 0 <= sl <= l ==> #[trigger] points@[vertex_id(st, sl, l)]
                    == (GridPoint { stack: st as u32, slice: sl as u32 }),
            indices.len() == 6 * ((if stack <= stx { stack as int } else { s }) * l),
            forall|st: int, sl: int, k: int|
                0 <= st < stack && st < s && 0 <= sl < l && 0 <= k < 6 ==> #[trigger] indices@[6
                    * (st * l + sl) + k] == quad_corner(st, sl, l, k),
        decreases stx + 1 - stack,
    {
        let mut slice: u32 = 0;
        proof {
            assert((stack + 1) * w <= (s + 1) * w) by (nonlinear_arith)
                requires
                    stack <= s,
                    w >= 0,
            ;
            assert(stack * w + w == (stack + 1) * w) by (nonlinear_arith);
        }
        while slice <= slc
            invariant
                s == stx,
                l == slc,
                w == ring,
                ring == slc + 1,
                s >= 1,
                l >= 1,
                grid_fits(s, l),
                (stack + 1) * w <= (s + 1) * w <= u32::MAX,
                stack * w + w == (stack + 1) * w,
                stack <= stx,
                slice <= slc + 1,
                points.len() == stack * w + slice,
                forall|st: int, sl: int|
                    0 <= st < stack && 0 <= sl <= l ==> #[trigger] points@[vertex_id(st, sl, l)]
                        == (GridPoint { stack: st as u32, slice: sl as u32 }),
                forall|sl: int|
                    0 <= sl < slice ==> #[trigger] points@[vertex_id(stack as int, sl, l)] == (
                    GridPoint { stack: stack, slice: sl as u32 }),
                indices.len() == 6 * (stack * l + (if stack < stx {
                    if slice <= slc { slice as int } else { l }
                } else {
                    0
                })),
                forall|st: int, sl: int, k: int|
                    0 <= st < stack && st < s && 0 <= sl < l && 0 <= k < 6 ==> #[trigger] indices@[6
                        * (st * l + sl) + k] == quad_corner(st, sl, l, k),
                forall|sl: int, k: int|
                    stack < s && 0 <= sl < slice && sl < l && 0 <= k < 6 ==> #[trigger] indices@[6
                        * (stack * l + sl) + k] == quad_corner(stack as int, sl, l, k),
            decreases slc + 1 - slice,
        {
            let ghost old_indices = indices@;
            proof {
                assert forall|st: int, sl: int|
                    0 <= st < stack && 0 <= sl <= l implies vertex_id(st, sl, l) < stack * w by {
                    lemma_row_before(st, sl, stack as int, w);
                }
            }
            points.push(GridPoint { stack, slice });
            if stack != stx && slice != slc {
                proof {
                    assert(stack * w + slice + w + 1 < (stack + 1) * w + w);
                    assert((stack + 1) * w + w == (stack + 2) * w) by (nonlinear_arith);
                    assert((stack + 2) * w <= (s + 1) * w) by (nonlinear_arith)
                        requires
                            stack + 1 <= s,
                            w >= 0,
                    ;
                    assert(6 * (stack * l + slice) + 6 <= 6 * s * l) by (nonlinear_arith)
                        requires
                            stack + 1 <= s,
                            slice + 1 <= l,
                    ;
                }
                let current: u32 = stack * ring + slice;
                let next: u32 = current + ring;
                indices.push(current);
                indices.push(next);
                indices.push(current + 1);
                indices.push(next);
                indices.push(next + 1);
                indices.push(current + 1);
                proof {
                    let base = 6 * (stack * l + slice);
                    assert(old_indices.len() == base);
                    assert forall|st: int, sl: int, k: int|
                        0 <= st < stack && st < s && 0 <= sl < l && 0 <= k < 6 implies #[trigger] (6
                            * (st * l + sl) + k) < base by {
                        lemma_row_before(st, sl, stack as int, l);
                    }
                }
            }
            slice = slice + 1;
        }
        proof {
            if stack < stx {
                assert(indices.len() == 6 * ((stack + 1) * l)) by (nonlinear_arith)
                    requires
                        indices.len() == 6 * (stack * l + l),
                ;
            }
        }
        stack = stack + 1;
    }
    proof {
        assert(6 * (s * l) == 6 * s * l) by (nonlinear_arith);
    }
    Ok(SphereTopology { stacks: stx, slices: slc, points, indices })
}

} // verus!
