//! The wall: a static overlay outlining the playable rectangle with
//! box-drawing glyphs, built once per scene size.

use vstd::prelude::*;

use crate::cell::{Cell, CellType};
use crate::cell_group::CellGroup;
use crate::cell_matrix::CellMatrix;
use crate::color::Color;
use crate::vector::Vector;

verus! {

/// A solid cell with the neutral colors, as the wall draws them.
pub open spec fn spec_wall_cell(glyph: char) -> Cell {
    Cell {
        glyph,
        bg_color: Color::Black.spec_rgb(),
        fg_color: Color::White.spec_rgb(),
        cell_type: CellType::Solid,
    }
}

/// The border glyph at `p` while the frame is being laid down:
/// corners first, then the horizontal runs up to column `xs`
/// (exclusive), then the vertical runs up to row `ys` (exclusive).
/// A later placement wins over an earlier one.
pub open spec fn partial_wall_glyph(width: u16, height: u16, xs: int, ys: int, p: Vector) -> Option<
    char,
> {
    if 1 <= p.y as int && (p.y as int) < ys && (p.x == 0 || p.x as int == width as int - 1) {
        Some('┃')
    } else if 1 <= p.x as int && (p.x as int) < xs && (p.y == 0 || p.y as int == height as int
        - 1) {
        Some('━')
    } else if p.x as int == width as int - 1 && p.y as int == height as int - 1 {
        Some('┛')
    } else if p.x == 0 && p.y as int == height as int - 1 {
        Some('┗')
    } else if p.x as int == width as int - 1 && p.y == 0 {
        Some('┓')
    } else if p.x == 0 && p.y == 0 {
        Some('┏')
    } else {
        None
    }
}

/// The border glyph at `p` of the finished `width` by `height` frame,
/// or nothing off the border.
pub open spec fn wall_glyph(width: u16, height: u16, p: Vector) -> Option<char> {
    partial_wall_glyph(width, height, width as int - 1, height as int - 1, p)
}

/// The overlay holds exactly the border cells of the frame.
pub open spec fn group_matches_wall(
    m: Map<Vector, Cell>,
    width: u16,
    height: u16,
    xs: int,
    ys: int,
) -> bool {
    forall|p: Vector|
        {
            &&& (#[trigger] m.contains_key(p) <==> partial_wall_glyph(width, height, xs, ys, p)
                is Some)
            &&& (partial_wall_glyph(width, height, xs, ys, p) is Some ==> m[p] == spec_wall_cell(
                partial_wall_glyph(width, height, xs, ys, p)->0,
            ))
        }
}

/// Two stages of the frame agree when their run bounds are equal or
/// both runs are still empty.
pub proof fn lemma_wall_stage_equiv(
    width: u16,
    height: u16,
    xs1: int,
    xs2: int,
    ys1: int,
    ys2: int,
    p: Vector,
)
    requires
        (xs1 <= 1 && xs2 <= 1) || xs1 == xs2,
        (ys1 <= 1 && ys2 <= 1) || ys1 == ys2,
    ensures
        partial_wall_glyph(width, height, xs1, ys1, p) == partial_wall_glyph(
            width,
            height,
            xs2,
            ys2,
            p,
        ),
{
}

/// Carry the overlay description across stages whose run bounds
/// describe the same placements.
pub proof fn lemma_group_matches_stage(
    m: Map<Vector, Cell>,
    width: u16,
    height: u16,
    xs1: int,
    xs2: int,
    ys1: int,
    ys2: int,
)
    requires
        group_matches_wall(m, width, height, xs1, ys1),
        (xs1 <= 1 && xs2 <= 1) || xs1 == xs2,
        (ys1 <= 1 && ys2 <= 1) || ys1 == ys2,
    ensures
        group_matches_wall(m, width, height, xs2, ys2),
{
    assert forall|p: Vector|
        (#[trigger] m.contains_key(p) <==> partial_wall_glyph(width, height, xs2, ys2, p) is Some)
            && (partial_wall_glyph(width, height, xs2, ys2, p) is Some ==> m[p] == spec_wall_cell(
            partial_wall_glyph(width, height, xs2, ys2, p)->0,
        )) by {
        lemma_wall_stage_equiv(width, height, xs1, xs2, ys1, ys2, p);
        assert(m.contains_key(p) <==> partial_wall_glyph(width, height, xs1, ys1, p) is Some);
        assert(partial_wall_glyph(width, height, xs1, ys1, p) is Some ==> m[p] == spec_wall_cell(
            partial_wall_glyph(width, height, xs1, ys1, p)->0,
        ));
    }
}

pub struct Wall {
    pub cell_group: CellGroup,
}

impl Wall {
    pub open spec fn wf(self) -> bool {
        &&& self.cell_group.wf()
        &&& forall|i: int|
            0 <= i < self.cell_group.entries@.len() ==> (
            #[trigger] self.cell_group.entries@[i]).1.cell_type == CellType::Solid
    }

    /// Build the frame overlay for a `width` by `height` rectangle.
    pub fn new(width: u16, height: u16) -> (w: Wall)
        requires
            width >= 1,
            height >= 1,
        ensures
            w.wf(),
            group_matches_wall(
                w.cell_group.spec_map(),
                width,
                height,
                width as int - 1,
                height as int - 1,
            ),
    {
        let mut cell_group = CellGroup::new();

        cell_group.set_cell(Vector::zero(), Cell::new_colorless('┏'));
        cell_group.set_cell(Vector::new(width - 1, 0), Cell::new_colorless('┓'));
        cell_group.set_cell(Vector::new(0, height - 1), Cell::new_colorless('┗'));
        cell_group.set_cell(Vector::new(width - 1, height - 1), Cell::new_colorless('┛'));
        proof {
            assert(group_matches_wall(cell_group.spec_map(), width, height, 1, 1));
            assert(forall|i: int|
                0 <= i < cell_group.entries@.len() ==> (
                #[trigger] cell_group.entries@[i]).1.cell_type == CellType::Solid);
        }

        let mut x: u16 = 1;
        while x < width - 1
            invariant
                width >= 1,
                height >= 1,
                1 <= x,
                x as int <= width as int - 1 || x == 1,
                cell_group.wf(),
                forall|i: int|
                    0 <= i < cell_group.entries@.len() ==> (
                    #[trigger] cell_group.entries@[i]).1.cell_type == CellType::Solid,
                group_matches_wall(cell_group.spec_map(), width, height, x as int, 1),
            decreases width - x,
        {
            cell_group.set_cell(Vector::new(x, 0), Cell::new_colorless('━'));
            cell_group.set_cell(Vector::new(x, height - 1), Cell::new_colorless('━'));
            proof {
                assert(group_matches_wall(cell_group.spec_map(), width, height, x as int + 1, 1));
            }
            x = x + 1;
        }
        proof {
            lemma_group_matches_stage(
                cell_group.spec_map(),
                width,
                height,
                x as int,
                width as int - 1,
                1,
                1,
            );
        }

        let mut y: u16 = 1;
        while y < height - 1
            invariant
                width >= 1,
                height >= 1,
                1 <= y,
                y as int <= height as int - 1 || y == 1,
                cell_group.wf(),
                forall|i: int|
                    0 <= i < cell_group.entries@.len() ==> (
                    #[trigger] cell_group.entries@[i]).1.cell_type == CellType::Solid,
                group_matches_wall(
                    cell_group.spec_map(),
                    width,
                    height,
                    width as int - 1,
                    y as int,
                ),
            decreases height - y,
        {
            cell_group.set_cell(Vector::new(0, y), Cell::new_colorless('┃'));
            cell_group.set_cell(Vector::new(width - 1, y), Cell::new_colorless('┃'));
            proof {
                assert(group_matches_wall(
                    cell_group.spec_map(),
                    width,
                    height,
                    width as int - 1,
                    y as int + 1,
                ));
            }
            y = y + 1;
        }
        proof {
            lemma_group_matches_stage(
                cell_group.spec_map(),
                width,
                height,
                width as int - 1,
                width as int - 1,
                y as int,
                height as int - 1,
            );
        }

        Wall { cell_group }
    }

    /// Merge the frame into the matrix.
    pub fn render(&mut self, cell_matrix: &mut CellMatrix)
        requires
            old(self).wf(),
            old(cell_matrix).wf(),
        ensures
            final(self).wf(),
            final(self).cell_group.entries@ =~= old(self).cell_group.entries@,
            final(self).cell_group.spec_map() =~= old(self).cell_group.spec_map(),
            final(cell_matrix).wf(),
            final(cell_matrix).width == old(cell_matrix).width,
            final(cell_matrix).height == old(cell_matrix).height,
            forall|p: Vector|
                old(cell_matrix).spec_in_bounds(p) ==> #[trigger] final(cell_matrix).spec_get(p)
                    == (if old(self).cell_group.spec_map().contains_key(p) {
                    old(self).cell_group.spec_map()[p]
                } else {
                    old(cell_matrix).spec_get(p)
                }),
            final(cell_matrix).diff@.subrange(0, old(cell_matrix).diff@.len() as int) =~= old(
                cell_matrix,
            ).diff@,
            old(cell_matrix).diff_wf() ==> final(cell_matrix).diff_wf(),
    {
        proof {
            crate::cell_group::lemma_strip_empty_keeps_all(old(self).cell_group.entries@);
        }
        self.cell_group.render(cell_matrix);
        proof {
            assert(final(cell_matrix).diff@.subrange(0, old(cell_matrix).diff@.len() as int)
                =~= old(cell_matrix).diff@);
        }
    }
}

} // verus!
