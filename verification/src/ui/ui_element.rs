//! The placed rectangle every widget hangs off: a name, an anchor
//! point on the grid, an alignment of the box around that point, and
//! the widget's own cell overlay.

use vstd::prelude::*;

use crate::cell_group::CellGroup;
use crate::cell_matrix::CellMatrix;
use crate::vector::{Offset, Vector};

verus! {

/// A point of the grid or of the box: a corner, an edge midpoint, or
/// the center.
#[derive(Clone, Copy, Debug, PartialEq, Eq, Structural)]
pub enum Orientation {
    TopLeft,
    Top,
    TopRight,
    CenterLeft,
    Center,
    CenterRight,
    BottomLeft,
    Bottom,
    BottomRight,
}

/// The horizontal offset that brings the box's `orientation` point
/// onto the grid's `anchor` point, floored at the left edge.
pub open spec fn spec_x_offset(
    anchor: Orientation,
    orientation: Orientation,
    cell_matrix_width: u16,
    width: u16,
) -> u16 {
    let anchor_offset: int = match anchor {
        Orientation::TopLeft | Orientation::CenterLeft | Orientation::BottomLeft => 0,
        Orientation::Top | Orientation::Center | Orientation::Bottom => (cell_matrix_width as int
            + 1) / 2,
        Orientation::TopRight | Orientation::CenterRight | Orientation::BottomRight => cell_matrix_width as int,
    };
    let orientation_offset: int = match orientation {
        Orientation::TopLeft | Orientation::CenterLeft | Orientation::BottomLeft => 0,
        Orientation::Top | Orientation::Center | Orientation::Bottom => (width as int + 1) / 2,
        Orientation::TopRight | Orientation::CenterRight | Orientation::BottomRight => width as int,
    };
    if anchor_offset >= orientation_offset {
        (anchor_offset - orientation_offset) as u16
    } else {
        0u16
    }
}

/// The vertical counterpart of `spec_x_offset`.
pub open spec fn spec_y_offset(
    anchor: Orientation,
    orientation: Orientation,
    cell_matrix_height: u16,
    height: u16,
) -> u16 {
    let anchor_offset: int = match anchor {
        Orientation::TopLeft | Orientation::Top | Orientation::TopRight => 0,
        Orientation::CenterLeft | Orientation::Center | Orientation::CenterRight => (
        cell_matrix_height as int + 1) / 2,
        Orientation::BottomLeft | Orientation::Bottom | Orientation::BottomRight => cell_matrix_height as int,
    };
    let orientation_offset: int = match orientation {
        Orientation::TopLeft | Orientation::Top | Orientation::TopRight => 0,
        Orientation::CenterLeft | Orientation::Center | Orientation::CenterRight => (height as int
            + 1) / 2,
        Orientation::BottomLeft | Orientation::Bottom | Orientation::BottomRight => height as int,
    };
    if anchor_offset >= orientation_offset {
        (anchor_offset - orientation_offset) as u16
    } else {
        0u16
    }
}

/// A grid offset shifted by a signed amount, squeezed into grid
/// range.
pub open spec fn spec_shifted(offset: u16, delta: i32) -> u16 {
    crate::text::clamp_u16(offset as int + delta as int)
}

pub fn calculated_x_offset(
    anchor: &Orientation,
    orientation: &Orientation,
    cell_matrix_width: u16,
    width: u16,
) -> (r: u16)
    ensures
        r == spec_x_offset(*anchor, *orientation, cell_matrix_width, width),
{
    let anchor_offset: u16 = match anchor {
        Orientation::TopLeft | Orientation::CenterLeft | Orientation::BottomLeft => 0,
        Orientation::Top | Orientation::Center | Orientation::Bottom => cell_matrix_width / 2
            + cell_matrix_width % 2,
        Orientation::TopRight | Orientation::CenterRight | Orientation::BottomRight => cell_matrix_width,
    };
    let orientation_offset: u16 = match orientation {
        Orientation::TopLeft | Orientation::CenterLeft | Orientation::BottomLeft => 0,
        Orientation::Top | Orientation::Center | Orientation::Bottom => width / 2 + width % 2,
        Orientation::TopRight | Orientation::CenterRight | Orientation::BottomRight => width,
    };
    if anchor_offset >= orientation_offset {
        anchor_offset - orientation_offset
    } else {
        0
    }
}

pub fn calculated_y_offset(
    anchor: &Orientation,
    orientation: &Orientation,
    cell_matrix_height: u16,
    height: u16,
) -> (r: u16)
    ensures
        r == spec_y_offset(*anchor, *orientation, cell_matrix_height, height),
{
    let anchor_offset: u16 = match anchor {
        Orientation::TopLeft | Orientation::Top | Orientation::TopRight => 0,
        Orientation::CenterLeft | Orientation::Center | Orientation::CenterRight => cell_matrix_height
            / 2 + cell_matrix_height % 2,
        Orientation::BottomLeft | Orientation::Bottom | Orientation::BottomRight => cell_matrix_height,
    };
    let orientation_offset: u16 = match orientation {
        Orientation::TopLeft | Orientation::Top | Orientation::TopRight => 0,
        Orientation::CenterLeft | Orientation::Center | Orientation::CenterRight => height / 2
            + height % 2,
        Orientation::BottomLeft | Orientation::Bottom | Orientation::BottomRight => height,
    };
    if anchor_offset >= orientation_offset {
        anchor_offset - orientation_offset
    } else {
        0
    }
}

/// Shift a grid offset by a signed amount, squeezing the result into
/// grid range.
pub fn shifted(offset: u16, delta: i32) -> (r: u16)
    ensures
        r == spec_shifted(offset, delta),
{
    let v: i64 = offset as i64 + delta as i64;
    if v < 0 {
        0
    } else if v > 0xffff {
        0xffff
    } else {
        v as u16
    }
}

pub struct UiElement {
    pub name: String,
    pub position: Offset,
    pub aligned_position: Vector,
    pub anchor: Orientation,
    pub alignment: Orientation,
    pub width: u16,
    pub height: u16,
    pub cell_matrix_width: u16,
    pub cell_matrix_height: u16,
    pub cell_group: CellGroup,
}

impl UiElement {
    pub open spec fn wf(self) -> bool {
        self.cell_group.wf()
    }

    /// Where the element's top-left corner lands for its current
    /// size.
    pub open spec fn spec_aligned(self) -> Vector {
        Vector {
            x: spec_shifted(
                spec_x_offset(self.anchor, self.alignment, self.cell_matrix_width, self.width),
                self.position.x,
            ),
            y: spec_shifted(
                spec_y_offset(self.anchor, self.alignment, self.cell_matrix_height, self.height),
                self.position.y,
            ),
        }
    }

    pub fn new(
        name: String,
        position: Offset,
        anchor: Orientation,
        alignment: Orientation,
        width: u16,
        height: u16,
        cell_matrix_width: u16,
        cell_matrix_height: u16,
    ) -> (e: UiElement)
        ensures
            e.wf(),
            e == (UiElement {
                name,
                position,
                aligned_position: e.spec_aligned(),
                anchor,
                alignment,
                width,
                height,
                cell_matrix_width,
                cell_matrix_height,
                cell_group: e.cell_group,
            }),
            e.cell_group.entries@.len() == 0,
            e.aligned_position == e.spec_aligned(),
    {
        let x_offset = calculated_x_offset(&anchor, &alignment, cell_matrix_width, width);
        let y_offset = calculated_y_offset(&anchor, &alignment, cell_matrix_height, height);
        let aligned_position = Vector::new(
            shifted(x_offset, position.x),
            shifted(y_offset, position.y),
        );
        UiElement {
            name,
            position,
            anchor,
            aligned_position,
            alignment,
            width,
            height,
            cell_matrix_width,
            cell_matrix_height,
            cell_group: CellGroup::new(),
        }
    }

    pub fn name(&self) -> (n: String)
        ensures
            n@ == self.name@,
    {
        self.name.clone()
    }

    pub fn aligned_position(&self) -> (p: Vector)
        ensures
            p == self.aligned_position,
    {
        self.aligned_position
    }

    pub fn width(&self) -> (w: u16)
        ensures
            w == self.width,
    {
        self.width
    }

    /// Change the width and re-align horizontally.
    pub fn set_width(&mut self, width: u16)
        ensures
            *final(self) == (UiElement {
                width,
                aligned_position: Vector {
                    x: spec_shifted(
                        spec_x_offset(
                            old(self).anchor,
                            old(self).alignment,
                            old(self).cell_matrix_width,
                            width,
                        ),
                        old(self).position.x,
                    ),
                    y: old(self).aligned_position.y,
                },
                ..*old(self)
            }),
    {
        self.width = width;
        let x_offset = calculated_x_offset(
            &self.anchor,
            &self.alignment,
            self.cell_matrix_width,
            self.width,
        );
        self.aligned_position.set_x(shifted(x_offset, self.position.x));
    }

    pub fn height(&self) -> (h: u16)
        ensures
            h == self.height,
    {
        self.height
    }

    /// Change the height and re-align vertically.
    pub fn set_height(&mut self, height: u16)
        ensures
            *final(self) == (UiElement {
                height,
                aligned_position: Vector {
                    x: old(self).aligned_position.x,
                    y: spec_shifted(
                        spec_y_offset(
                            old(self).anchor,
                            old(self).alignment,
                            old(self).cell_matrix_height,
                            height,
                        ),
                        old(self).position.y,
                    ),
                },
                ..*old(self)
            }),
    {
        self.height = height;
        let y_offset = calculated_y_offset(
            &self.anchor,
            &self.alignment,
            self.cell_matrix_height,
            self.height,
        );
        self.aligned_position.set_y(shifted(y_offset, self.position.y));
    }

    pub fn cell_group_mut(&mut self) -> (g: &mut CellGroup)
        ensures
            *g == old(self).cell_group,
            *final(self) == (UiElement { cell_group: *final(g), ..*old(self) }),
    {
        &mut self.cell_group
    }

    /// Merge the element's overlay into the matrix.
    pub fn render(&mut self, cell_matrix: &mut CellMatrix)
        requires
            old(self).wf(),
            old(cell_matrix).wf(),
        ensures
            final(self).wf(),
            *final(self) == (UiElement { cell_group: final(self).cell_group, ..*old(self) }),
            final(self).cell_group.entries@ =~= crate::cell_group::strip_empty(
                old(self).cell_group.entries@,
            ),
            final(cell_matrix).wf(),
            final(cell_matrix).width == old(cell_matrix).width,
            final(cell_matrix).height == old(cell_matrix).height,
            forall|p: Vector|
                old(cell_matrix).spec_in_bounds(p) ==> #[trigger] final(cell_matrix).spec_get(p)
                    == (if old(self).cell_group.spec_map().contains_key(p) {
                    old(self).cell_group.spec_map()[p]
                } else {
                    old(cell_matrix).spec_get(p)
                }),
            old(cell_matrix).diff_wf() ==> final(cell_matrix).diff_wf(),
    {
        self.cell_group.render(cell_matrix);
    }
}

} // verus!
