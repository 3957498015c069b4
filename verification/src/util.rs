//! Sizes in bytes, and two pieces of generated geometry: the rectangle that
//! covers the screen, and a triangle made of smaller triangles.

use vstd::prelude::*;
use vstd::layout::layout_of_slices;
use crate::scalar::Scalar;

verus! {

/// The size of an array in bytes: its length times the size of one element.
///
/// The product is returned as a signed number, as buffer sizes are passed
/// on; it is the product itself whenever that fits.
pub fn byte_size_of_array<T>(val: &[T]) -> (n: isize)
    ensures
        n == (val@.len() * vstd::layout::size_of::<T>()) as isize,
        val@.len() * vstd::layout::size_of::<T>() <= isize::MAX ==> n == val@.len()
            * vstd::layout::size_of::<T>(),
{
    broadcast use layout_of_slices;

    let bytes: usize = core::mem::size_of_val(val);
    #[verifier::truncate]
    let n: isize = bytes as isize;
    n
}

/// The size of one value of a type in bytes, cut to 32 bits.
pub fn size_of<T>() -> (n: i32)
    ensures
        n == vstd::layout::size_of::<T>() as i32,
        vstd::layout::size_of::<T>() <= i32::MAX ==> n == vstd::layout::size_of::<T>(),
{
    let bytes: usize = core::mem::size_of::<T>();
    #[verifier::truncate]
    let n: i32 = bytes as i32;
    n
}

/// The corners of the rectangle that covers the screen, three numbers each:
/// top right, top left, bottom left, bottom right, all at depth zero.
pub open spec fn billboard_vertices() -> Seq<Scalar> {
    let p = Scalar { bits: 0x3f80_0000 };
    let m = Scalar { bits: 0xbf80_0000 };
    let o = Scalar { bits: 0 };
    seq![p, p, o, m, p, o, m, m, o, p, m, o]
}

/// The two triangles that make up the rectangle, by the indices of their
/// corners.
pub open spec fn billboard_indices() -> Seq<u32> {
    seq![0u32, 1u32, 3u32, 1u32, 2u32, 3u32]
}

/// The vertices and indices of a rectangle that covers the whole screen.
pub fn create_billboard() -> (mesh: (Vec<Scalar>, Vec<u32>))
    ensures
        mesh.0@ == billboard_vertices(),
        mesh.1@ == billboard_indices(),
{
    let p = Scalar::from_bits(0x3f80_0000);
    let m = Scalar::from_bits(0xbf80_0000);
    let o = Scalar::zero();
    let mut vertices: Vec<Scalar> = Vec::new();
    vertices.push(p);
    vertices.push(p);
    vertices.push(o);
    vertices.push(m);
    vertices.push(p);
    vertices.push(o);
    vertices.push(m);
    vertices.push(m);
    vertices.push(o);
    vertices.push(p);
    vertices.push(m);
    vertices.push(o);
    let mut indices: Vec<u32> = Vec::new();
    indices.push(0);
    indices.push(1);
    indices.push(3);
    indices.push(1);
    indices.push(2);
    indices.push(3);
    assert(vertices@ =~= billboard_vertices());
    assert(indices@ =~= billboard_indices());
    (vertices, indices)
}

/// The number of points in row `y` of a triangle `w` points wide: each row
/// is one point shorter than the one below it.
pub open spec fn row_len(w: int, y: int) -> int {
    if y < w {
        w - y
    } else {
        0
    }
}

/// The number of points in the rows below row `y`.
pub open spec fn row_start(w: int, y: int) -> int
    decreases y,
{
    if y <= 0 {
        0
    } else {
        row_start(w, y - 1) + row_len(w, y - 1)
    }
}

/// The points of row `y`, left to right: the columns `y` to `w - 1`.
pub open spec fn row_points(w: int, y: int) -> Seq<(i32, i32)> {
    Seq::new(row_len(w, y) as nat, |k: int| ((y + k) as i32, y as i32))
}

/// The indices of the triangles that start in row `y`, three for every point
/// of the row but the last: the point, its right neighbour, and the point
/// one row above the neighbour.
pub open spec fn row_indices(w: int, y: int) -> Seq<u32> {
    let n = row_len(w, y);
    let start = row_start(w, y);
    Seq::new(
        (if n > 0 {
            3 * (n - 1)
        } else {
            0
        }) as nat,
        |j: int|
            (start + j / 3 + (if j % 3 == 0 {
                0
            } else if j % 3 == 1 {
                1
            } else {
                n
            })) as u32,
    )
}

/// How many of a row's indices belong to its first `k` points: three for
/// each of them but the row's last.
pub open spec fn indices_before(w: int, y: int, k: int) -> int {
    let n = row_len(w, y);
    if k < n {
        3 * k
    } else if n > 0 {
        3 * (n - 1)
    } else {
        0
    }
}

/// The points of the rows below row `h`, row after row.
pub open spec fn grid_points(w: int, h: int) -> Seq<(i32, i32)>
    decreases h,
{
    if h <= 0 {
        Seq::<(i32, i32)>::empty()
    } else {
        grid_points(w, h - 1) + row_points(w, h - 1)
    }
}

/// The indices of the rows below row `h`, row after row.
pub open spec fn grid_indices(w: int, h: int) -> Seq<u32>
    decreases h,
{
    if h <= 0 {
        Seq::<u32>::empty()
    } else {
        grid_indices(w, h - 1) + row_indices(w, h - 1)
    }
}

/// There are as many points below a row as the row's start says, and no
/// fewer below a higher row.
pub proof fn lemma_grid_size(w: int, y: int, h: int)
    requires
        0 <= y <= h,
    ensures
        grid_points(w, y).len() == row_start(w, y),
        0 <= row_start(w, y) <= row_start(w, h),
    decreases h,
{
    if y > 0 {
        lemma_grid_size(w, y - 1, y - 1);
    }
    if y < h {
        lemma_grid_size(w, y, h - 1);
    }
}

/// The points and indices of a triangle made of smaller triangles,
/// `triangle_width` points wide at its base and `triangle_height` rows high.
///
/// A point is given by its column and its row. The numbers of the points
/// must fit in 32 bits, with room for the width.
pub fn create_triangle_triangle(triangle_width: i32, triangle_height: i32) -> (mesh: (
    Vec<(i32, i32)>,
    Vec<u32>,
))
    requires
        row_start(triangle_width as int, triangle_height as int) + row_len(triangle_width as int, 0)
            <= u32::MAX,
    ensures
        mesh.0@ == grid_points(triangle_width as int, triangle_height as int),
        mesh.1@ == grid_indices(triangle_width as int, triangle_height as int),
{
    let ghost w = triangle_width as int;
    let ghost h = triangle_height as int;
    let mut vertices: Vec<(i32, i32)> = Vec::new();
    let mut indices: Vec<u32> = Vec::new();
    let mut i: u32 = 0;
    let mut y: i32 = 0;
    while y < triangle_height
        invariant
            0 <= y,
            y <= triangle_height || y == 0,
            w == triangle_width as int,
            h == triangle_height as int,
            row_start(w, h) + row_len(w, 0) <= u32::MAX,
            i == row_start(w, y as int),
            vertices@ == grid_points(w, y as int),
            indices@ == grid_indices(w, y as int),
        decreases triangle_height - y,
    {
        let mut x: i32 = y;
        proof {
            lemma_grid_size(w, y as int, h);
            lemma_grid_size(w, y as int + 1, h);
            assert(row_points(w, y as int).take(0) =~= Seq::<(i32, i32)>::empty());
            assert(row_indices(w, y as int).take(0) =~= Seq::<u32>::empty());
            assert(indices_before(w, y as int, 0) == 0);
            assert(vertices@ =~= grid_points(w, y as int) + row_points(w, y as int).take(0));
            assert(indices@ =~= grid_indices(w, y as int) + row_indices(w, y as int).take(0));
        }
        while x < triangle_width
            invariant
                0 <= y < triangle_height,
                y <= x,
                x - y <= row_len(w, y as int),
                w == triangle_width as int,
                h == triangle_height as int,
                row_start(w, h) + row_len(w, 0) <= u32::MAX,
                row_start(w, y as int) + row_len(w, y as int) == row_start(w, y as int + 1),
                row_start(w, y as int + 1) <= row_start(w, h),
                0 <= row_start(w, y as int),
                i == row_start(w, y as int) + (x - y),
                vertices@ == grid_points(w, y as int) + row_points(w, y as int).take(x - y),
                indices@ == grid_indices(w, y as int) + row_indices(w, y as int).take(
                    indices_before(w, y as int, x - y),
                ),
            decreases triangle_width - x,
        {
            let ghost row = row_points(w, y as int);
            let ghost tri = row_indices(w, y as int);
            vertices.push((x, y));
            assert(vertices@ =~= grid_points(w, y as int) + row.take(x - y + 1));
            i = i + 1;
            if x < triangle_width - 1 {
                let up: u32 = i + (triangle_width - y) as u32 - 1;
                indices.push(i - 1);
                indices.push(i);
                indices.push(up);
                proof {
                    let j = 3 * (x - y);
                    assert(tri[j] == (i - 1) as u32);
                    assert(tri[j + 1] == i);
                    assert(tri[j + 2] == up);
                    assert(indices@ =~= grid_indices(w, y as int) + tri.take(j + 3));
                }
            }
            assert(indices@ == grid_indices(w, y as int) + tri.take(
                indices_before(w, y as int, x - y + 1),
            ));
            x = x + 1;
        }
        proof {
            let n = row_len(w, y as int);
            assert(x - y == n);
            assert(row_points(w, y as int).take(n) =~= row_points(w, y as int));
            assert(row_indices(w, y as int).take(indices_before(w, y as int, n)) =~= row_indices(
                w,
                y as int,
            ));
        }
        y = y + 1;
    }
    (vertices, indices)
}

} // verus!
