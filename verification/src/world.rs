//! Drawing the playable-area frame straight into a matrix.

use vstd::prelude::*;

use crate::cell::Cell;
use crate::cell_matrix::CellMatrix;
use crate::vector::Vector;
use crate::wall::{partial_wall_glyph, spec_wall_cell, wall_glyph};

verus! {

/// The matrix shows the partially laid frame on top of its old
/// contents.
pub open spec fn matrix_matches_wall(
    before: CellMatrix,
    now: CellMatrix,
    width: u16,
    height: u16,
    xs: int,
    ys: int,
) -> bool {
    forall|p: Vector|
        before.spec_in_bounds(p) ==> #[trigger] now.spec_get(p) == (
        match partial_wall_glyph(width, height, xs, ys, p) {
            Some(g) => spec_wall_cell(g),
            None => before.spec_get(p),
        })
}

/// Carry the frame description across stages whose run bounds
/// describe the same placements.
proof fn lemma_matrix_matches_stage(
    before: CellMatrix,
    now: CellMatrix,
    width: u16,
    height: u16,
    xs1: int,
    xs2: int,
    ys1: int,
    ys2: int,
)
    requires
        matrix_matches_wall(before, now, width, height, xs1, ys1),
        (xs1 <= 1 && xs2 <= 1) || xs1 == xs2,
        (ys1 <= 1 && ys2 <= 1) || ys1 == ys2,
    ensures
        matrix_matches_wall(before, now, width, height, xs2, ys2),
{
    assert forall|p: Vector| before.spec_in_bounds(p) implies #[trigger] now.spec_get(p) == (
    match partial_wall_glyph(width, height, xs2, ys2, p) {
        Some(g) => spec_wall_cell(g),
        None => before.spec_get(p),
    }) by {
        crate::wall::lemma_wall_stage_equiv(width, height, xs1, xs2, ys1, ys2, p);
    }
}

/// Write a `width` by `height` frame of wall cells into the matrix;
/// writes that fall outside the matrix are dropped silently.
pub fn generate_walls(cell_matrix: &mut CellMatrix, width: u16, height: u16)
    requires
        old(cell_matrix).wf(),
        width >= 1,
        height >= 1,
    ensures
        final(cell_matrix).wf(),
        final(cell_matrix).width == old(cell_matrix).width,
        final(cell_matrix).height == old(cell_matrix).height,
        forall|p: Vector|
            old(cell_matrix).spec_in_bounds(p) ==> #[trigger] final(cell_matrix).spec_get(p) == (
            match wall_glyph(width, height, p) {
                Some(g) => spec_wall_cell(g),
                None => old(cell_matrix).spec_get(p),
            }),
        old(cell_matrix).diff_wf() ==> final(cell_matrix).diff_wf(),
{
    cell_matrix.set_cell(&Vector::zero(), Cell::new_colorless('┏'));
    cell_matrix.set_cell(&Vector::new(width - 1, 0), Cell::new_colorless('┓'));
    cell_matrix.set_cell(&Vector::new(0, height - 1), Cell::new_colorless('┗'));
    cell_matrix.set_cell(&Vector::new(width - 1, height - 1), Cell::new_colorless('┛'));
    proof {
        assert(matrix_matches_wall(*old(cell_matrix), *cell_matrix, width, height, 1, 1));
    }

    let mut x: u16 = 1;
    while x < width - 1
        invariant
            old(cell_matrix).wf(),
            width >= 1,
            height >= 1,
            1 <= x,
            x as int <= width as int - 1 || x == 1,
            cell_matrix.wf(),
            cell_matrix.width == old(cell_matrix).width,
            cell_matrix.height == old(cell_matrix).height,
            matrix_matches_wall(*old(cell_matrix), *cell_matrix, width, height, x as int, 1),
            old(cell_matrix).diff_wf() ==> cell_matrix.diff_wf(),
        decreases width - x,
    {
        cell_matrix.set_cell(&Vector::new(x, 0), Cell::new_colorless('━'));
        cell_matrix.set_cell(&Vector::new(x, height - 1), Cell::new_colorless('━'));
        proof {
            assert(matrix_matches_wall(
                *old(cell_matrix),
                *cell_matrix,
                width,
                height,
                x as int + 1,
                1,
            ));
        }
        x = x + 1;
    }
    proof {
        lemma_matrix_matches_stage(
            *old(cell_matrix),
            *cell_matrix,
            width,
            height,
            x as int,
            width as int - 1,
            1,
            1,
        );
    }

    let mut y: u16 = 1;
    while y < height - 1
        invariant
            old(cell_matrix).wf(),
            width >= 1,
            height >= 1,
            1 <= y,
            y as int <= height as int - 1 || y == 1,
            cell_matrix.wf(),
            cell_matrix.width == old(cell_matrix).width,
            cell_matrix.height == old(cell_matrix).height,
            matrix_matches_wall(
                *old(cell_matrix),
                *cell_matrix,
                width,
                height,
                width as int - 1,
                y as int,
            ),
            old(cell_matrix).diff_wf() ==> cell_matrix.diff_wf(),
        decreases height - y,
    {
        cell_matrix.set_cell(&Vector::new(0, y), Cell::new_colorless('┃'));
        cell_matrix.set_cell(&Vector::new(width - 1, y), Cell::new_colorless('┃'));
        proof {
            assert(matrix_matches_wall(
                *old(cell_matrix),
                *cell_matrix,
                width,
                height,
                width as int - 1,
                y as int + 1,
            ));
        }
        y = y + 1;
    }
    proof {
        lemma_matrix_matches_stage(
            *old(cell_matrix),
            *cell_matrix,
            width,
            height,
            width as int - 1,
            width as int - 1,
            y as int,
            height as int - 1,
        );
    }
}

} // verus!
