//! Grid coordinates and small numeric helpers.

use rand::Rng;
use vstd::arithmetic::div_mod::{
    lemma_fundamental_div_mod, lemma_fundamental_div_mod_converse_div,
    lemma_fundamental_div_mod_converse_mod,
};
use vstd::prelude::*;

verus! {

/// A position in a cubic grid, one non-negative integer per axis.
#[derive(Clone, Copy, Debug, PartialEq, Eq, Structural)]
pub struct Coord3 {
    pub x: usize,
    pub y: usize,
    pub z: usize,
}

/// The flat index of `(x, y, z)` in a cubic grid of edge length `size`.
pub open spec fn coord_to_index(x: int, y: int, z: int, size: int) -> int {
    z * size * size + y * size + x
}

/// The `x` coordinate of the cell with flat index `index`.
pub open spec fn index_x(index: int, size: int) -> int {
    (index % (size * size)) % size
}

/// The `y` coordinate of the cell with flat index `index`.
pub open spec fn index_y(index: int, size: int) -> int {
    (index % (size * size)) / size
}

/// The `z` coordinate of the cell with flat index `index`.
pub open spec fn index_z(index: int, size: int) -> int {
    index / (size * size)
}

/// Whether `(x, y, z)` lies inside a cubic grid of edge length `size`.
pub open spec fn in_grid(x: int, y: int, z: int, size: int) -> bool {
    0 <= x < size && 0 <= y < size && 0 <= z < size
}

/// Flat index of a grid position: `z * size² + y * size + x`.
pub fn vec3_to_idx(x: usize, y: usize, z: usize, size: usize) -> (idx: usize)
    requires
        coord_to_index(x as int, y as int, z as int, size as int) <= usize::MAX,
    ensures
        idx == coord_to_index(x as int, y as int, z as int, size as int),
{
    proof {
        let (xi, yi, zi, s) = (x as int, y as int, z as int, size as int);
        assert(0 <= zi * s <= zi * s * s && 0 <= yi * s) by (nonlinear_arith)
            requires
                0 <= zi,
                0 <= yi,
                0 <= s,
        ;
    }
    z * size * size + y * size + x
}

/// Grid position of a flat index, the inverse of [`vec3_to_idx`].
pub fn idx_to_vec3(index: usize, size: usize) -> (c: Coord3)
    requires
        size > 0,
        size * size <= usize::MAX,
    ensures
        c.x == index_x(index as int, size as int),
        c.y == index_y(index as int, size as int),
        c.z == index_z(index as int, size as int),
{
    let area: usize = size * size;
    assert(area > 0) by (nonlinear_arith)
        requires
            area == size * size,
            size > 0,
    ;
    let z: usize = index / area;
    let remaining: usize = index % area;
    let y: usize = remaining / size;
    let x: usize = remaining % size;
    Coord3 { x, y, z }
}

/// Every position inside the grid has an index below `size³`, and decoding
/// that index gives the position back.
pub proof fn lemma_coord_index_coord(x: int, y: int, z: int, size: int)
    requires
        in_grid(x, y, z, size),
    ensures
        0 <= coord_to_index(x, y, z, size) < size * size * size,
        index_x(coord_to_index(x, y, z, size), size) == x,
        index_y(coord_to_index(x, y, z, size), size) == y,
        index_z(coord_to_index(x, y, z, size), size) == z,
{
    let area = size * size;
    let rest = y * size + x;
    let index = coord_to_index(x, y, z, size);
    assert(0 <= rest < area && 0 < area) by (nonlinear_arith)
        requires
            0 <= x < size,
            0 <= y < size,
            rest == y * size + x,
            area == size * size,
    ;
    assert(index == z * area + rest && 0 <= index < size * size * size) by (nonlinear_arith)
        requires
            index == z * size * size + y * size + x,
            rest == y * size + x,
            area == size * size,
            0 <= rest < area,
            0 <= z < size,
    ;
    lemma_fundamental_div_mod_converse_div(index, area, z, rest);
    lemma_fundamental_div_mod_converse_mod(index, area, z, rest);
    lemma_fundamental_div_mod_converse_div(rest, size, y, x);
    lemma_fundamental_div_mod_converse_mod(rest, size, y, x);
}

/// Every index below `size³` decodes to a position inside the grid, and
/// encoding that position gives the index back.
pub proof fn lemma_index_coord_index(index: int, size: int)
    requires
        0 < size,
        0 <= index < size * size * size,
    ensures
        in_grid(index_x(index, size), index_y(index, size), index_z(index, size), size),
        coord_to_index(index_x(index, size), index_y(index, size), index_z(index, size), size)
            == index,
{
    let area = size * size;
    let rest = index % area;
    let z = index / area;
    assert(0 < area) by (nonlinear_arith)
        requires
            area == size * size,
            0 < size,
    ;
    lemma_fundamental_div_mod(index, area);
    lemma_fundamental_div_mod(rest, size);
    assert(0 <= rest < area);
    assert(0 <= z < size) by (nonlinear_arith)
        requires
            index == area * z + rest,
            0 <= rest < area,
            0 <= index < size * size * size,
            area == size * size,
            0 < size,
    ;
    let y = rest / size;
    let x = rest % size;
    assert(0 <= x < size);
    assert(0 <= y < size) by (nonlinear_arith)
        requires
            rest == size * y + x,
            0 <= x < size,
            0 <= rest < area,
            area == size * size,
            0 < size,
    ;
    assert(z * size * size + y * size + x == index) by (nonlinear_arith)
        requires
            index == area * z + rest,
            rest == size * y + x,
            area == size * size,
    ;
}

/// Two positions inside the grid with the same index are the same position.
pub proof fn lemma_coord_index_injective(
    x1: int,
    y1: int,
    z1: int,
    x2: int,
    y2: int,
    z2: int,
    size: int,
)
    requires
        in_grid(x1, y1, z1, size),
        in_grid(x2, y2, z2, size),
        coord_to_index(x1, y1, z1, size) == coord_to_index(x2, y2, z2, size),
    ensures
        x1 == x2,
        y1 == y2,
        z1 == z2,
{
    lemma_coord_index_coord(x1, y1, z1, size);
    lemma_coord_index_coord(x2, y2, z2, size);
}

/// Draws one value from the thread-local generator of `rand`: the call is
/// `rand::thread_rng().gen_range(l..u)`. Taken on trust: the value lies in
/// the half-open range from `l` to `u`. Nothing else is claimed of it, and
/// two calls may differ. An empty range makes `gen_range` panic, so it is
/// not accepted.
#[verifier::external_body]
pub fn random(l: u32, u: u32) -> (r: u32)
    requires
        l < u,
    ensures
        l <= r < u,
{
    let mut rng = rand::thread_rng();
    rng.gen_range(l..u)
}

/// What [`nth`] returns: `n + 2`, or `u32::MAX` where that is no entry of a
/// sieve of `limit` entries or does not fit the result.
pub open spec fn nth_entry(n: u32, limit: usize) -> u32 {
    if n + 2 < limit && n + 2 <= u32::MAX {
        (n + 2) as u32
    } else {
        u32::MAX
    }
}

/// The `n`-th number, counted from zero, that a sieve of `limit` entries
/// still holds. The sieve drops 0 and 1 and strikes nothing else out, so
/// that number is `n + 2`; where the sieve is too short for it, the answer
/// is `u32::MAX`.
pub fn nth(n: u32, limit: usize) -> (r: u32)
    requires
        limit >= 2,
    ensures
        r == nth_entry(n, limit),
{
    let candidate: u64 = n as u64 + 2;
    if candidate < limit as u64 && candidate <= u32::MAX as u64 {
        candidate as u32
    } else {
        u32::MAX
    }
}

} // verus!
