//! The fruit: one colored glyph at a random free position inside the
//! playable area. Placement rejection-samples until it hits a blank
//! cell, so a fruit never lands on a wall, the snake, or another
//! fruit.

use vstd::prelude::*;

use crate::cell::{Cell, CellType};
use crate::cell_group::CellGroup;
use crate::cell_matrix::CellMatrix;
use crate::color::Color;
use crate::rng::random_in_range;
use crate::vector::Vector;

verus! {

/// The cell a fruit paints.
pub open spec fn spec_fruit_cell() -> Cell {
    Cell {
        glyph: '■',
        bg_color: Color::Black.spec_rgb(),
        fg_color: Color::Red.spec_rgb(),
        cell_type: CellType::Fruit,
    }
}

/// Whether `p` lies in the half-open rectangle between the corners.
pub open spec fn in_area(origin: Vector, extension: Vector, p: Vector) -> bool {
    &&& origin.x <= p.x < extension.x
    &&& origin.y <= p.y < extension.y
}

/// How many random samples are drawn before placement falls back to
/// scanning the area for its first blank cell.
pub const FRUIT_SAMPLE_BUDGET: u32 = 100000;

pub struct Fruit {
    pub position: Option<Vector>,
    pub cell_group: CellGroup,
}

impl Fruit {
    pub open spec fn wf(self) -> bool {
        &&& self.cell_group.wf()
        &&& (self.position is None ==> self.cell_group.entries@.len() == 0)
        &&& (self.position matches Some(p) ==> self.cell_group.entries@ =~= seq![
            (p, spec_fruit_cell()),
        ])
    }

    /// Place a fruit on a randomly sampled blank cell of the
    /// half-open area between the two corners: rejection sampling
    /// first, and past a generous retry budget the first blank cell
    /// of the area in row-major order. The fruit is placed exactly
    /// when the area holds a blank cell, and the placed cell was
    /// blank in the matrix at placement time.
    pub fn new(
        cell_matrix: &CellMatrix,
        gameplay_area_origin: &Vector,
        gameplay_area_extension: &Vector,
    ) -> (f: Fruit)
        requires
            cell_matrix.wf(),
            gameplay_area_origin.x < gameplay_area_extension.x,
            gameplay_area_extension.x <= cell_matrix.width,
            gameplay_area_origin.y < gameplay_area_extension.y,
            gameplay_area_extension.y <= cell_matrix.height,
        ensures
            f.wf(),
            f.position is Some <==> exists|p: Vector|
                in_area(*gameplay_area_origin, *gameplay_area_extension, p)
                    && (#[trigger] cell_matrix.spec_get(p)).cell_type == CellType::Empty,
            f.position matches Some(p) ==> {
                &&& in_area(*gameplay_area_origin, *gameplay_area_extension, p)
                &&& cell_matrix.spec_get(p).cell_type == CellType::Empty
                &&& f.cell_group.entries@ =~= seq![(p, spec_fruit_cell())]
                &&& f.cell_group.spec_map() =~= Map::<Vector, Cell>::empty().insert(
                    p,
                    spec_fruit_cell(),
                )
            },
            f.position is None ==> f.cell_group.entries@.len() == 0,
    {
        let origin = *gameplay_area_origin;
        let extension = *gameplay_area_extension;
        let mut cell_group = CellGroup::new();

        let mut tries: u32 = 0;
        while tries < FRUIT_SAMPLE_BUDGET
            invariant
                cell_matrix.wf(),
                origin == *gameplay_area_origin,
                extension == *gameplay_area_extension,
                origin.x < extension.x,
                extension.x <= cell_matrix.width,
                origin.y < extension.y,
                extension.y <= cell_matrix.height,
                cell_group.wf(),
                cell_group.entries@.len() == 0,
            decreases FRUIT_SAMPLE_BUDGET - tries,
        {
            let x = random_in_range(origin.x(), extension.x());
            let y = random_in_range(origin.y(), extension.y());
            let possible_position = Vector::new(x, y);

            if let Some(cell) = cell_matrix.get_cell(&possible_position) {
                if matches!(cell.cell_type(), CellType::Empty) {
                    cell_group.set_cell(
                        possible_position,
                        Cell::new(
                            '■',
                            Color::Black.to_rgb(),
                            Color::Red.to_rgb(),
                            CellType::Fruit,
                        ),
                    );
                    proof {
                        assert(cell_group.entries@ =~= seq![
                            (possible_position, spec_fruit_cell()),
                        ]);
                    }
                    return Fruit { position: Some(possible_position), cell_group };
                }
            }
            tries = tries + 1;
        }

        let mut yy: u16 = origin.y();
        while yy < extension.y()
            invariant
                cell_matrix.wf(),
                origin == *gameplay_area_origin,
                extension == *gameplay_area_extension,
                origin.x < extension.x,
                extension.x <= cell_matrix.width,
                origin.y < extension.y,
                extension.y <= cell_matrix.height,
                origin.y <= yy <= extension.y,
                cell_group.wf(),
                cell_group.entries@.len() == 0,
                forall|p: Vector|
                    in_area(origin, extension, p) && p.y < yy ==> (
                    #[trigger] cell_matrix.spec_get(p)).cell_type != CellType::Empty,
            decreases extension.y - yy,
        {
            let mut xx: u16 = origin.x();
            while xx < extension.x()
                invariant
                    cell_matrix.wf(),
                    origin == *gameplay_area_origin,
                    extension == *gameplay_area_extension,
                    origin.x < extension.x,
                    extension.x <= cell_matrix.width,
                    origin.y < extension.y,
                    extension.y <= cell_matrix.height,
                    origin.y <= yy < extension.y,
                    origin.x <= xx <= extension.x,
                    cell_group.wf(),
                    cell_group.entries@.len() == 0,
                    forall|p: Vector|
                        in_area(origin, extension, p) && (p.y < yy || (p.y == yy && p.x < xx))
                            ==> (#[trigger] cell_matrix.spec_get(p)).cell_type != CellType::Empty,
                decreases extension.x - xx,
            {
                let candidate = Vector::new(xx, yy);
                if let Some(cell) = cell_matrix.get_cell(&candidate) {
                    if matches!(cell.cell_type(), CellType::Empty) {
                        cell_group.set_cell(
                            candidate,
                            Cell::new(
                                '■',
                                Color::Black.to_rgb(),
                                Color::Red.to_rgb(),
                                CellType::Fruit,
                            ),
                        );
                        proof {
                            assert(cell_group.entries@ =~= seq![(candidate, spec_fruit_cell())]);
                        }
                        return Fruit { position: Some(candidate), cell_group };
                    }
                }
                xx = xx + 1;
            }
            yy = yy + 1;
        }

        Fruit { position: None, cell_group }
    }

    /// The placeholder fruit a scene holds before gameplay starts.
    pub fn none() -> (f: Fruit)
        ensures
            f.wf(),
            f.position is None,
            f.cell_group.entries@.len() == 0,
    {
        Fruit { position: None, cell_group: CellGroup::new() }
    }

    /// Merge the fruit's overlay into the matrix.
    pub fn render(&mut self, cell_matrix: &mut CellMatrix)
        requires
            old(self).wf(),
            old(cell_matrix).wf(),
        ensures
            final(self).wf(),
            final(self).position == old(self).position,
            final(self).cell_group.entries@ =~= old(self).cell_group.entries@,
            final(self).cell_group.spec_map() =~= old(self).cell_group.spec_map(),
            final(cell_matrix).wf(),
            final(cell_matrix).width == old(cell_matrix).width,
            final(cell_matrix).height == old(cell_matrix).height,
            forall|p: Vector|
                old(cell_matrix).spec_in_bounds(p) ==> #[trigger] final(cell_matrix).spec_get(p)
                    == (if old(self).cell_group.spec_map().contains_key(p) {
                    old(self).cell_group.spec_map()[p]
                } else {
                    old(cell_matrix).spec_get(p)
                }),
            final(cell_matrix).diff@.subrange(0, old(cell_matrix).diff@.len() as int) =~= old(
                cell_matrix,
            ).diff@,
            old(cell_matrix).diff_wf() ==> final(cell_matrix).diff_wf(),
    {
        proof {
            crate::cell_group::lemma_strip_empty_keeps_all(old(self).cell_group.entries@);
        }
        self.cell_group.render(cell_matrix);
        proof {
            assert(final(cell_matrix).diff@.subrange(0, old(cell_matrix).diff@.len() as int)
                =~= old(cell_matrix).diff@);
        }
    }
}

} // verus!
