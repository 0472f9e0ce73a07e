//! The grid buffer: a dense row-major matrix of cells together with
//! an ordered queue of the writes made since the last flush. Writes
//! outside the grid are silent no-ops; every in-bounds write appends
//! exactly one queue entry, in write order.

use vstd::prelude::*;

use crate::ansi::cell_repr;
use crate::cell::{spec_empty_cell, Cell, CellType};
use crate::vector::Vector;

verus! {

/// The position of linear row-major index `k` in a grid `width` wide.
pub open spec fn row_major_position(width: u16, k: int) -> Vector
    recommends
        width > 0,
{
    Vector { x: (k % width as int) as u16, y: (k / width as int) as u16 }
}

/// The queue entries a kind-filtered clear appends: one blank write
/// per cell of the matched kind, in row-major order over the first
/// `n` cells.
pub open spec fn clear_type_diff(cells: Seq<Cell>, width: u16, t: CellType, n: int) -> Seq<
    (Vector, Cell),
>
    decreases n,
{
    if n <= 0 {
        Seq::empty()
    } else {
        clear_type_diff(cells, width, t, n - 1) + if cells[n - 1].cell_type == t {
            seq![(row_major_position(width, n - 1), spec_empty_cell())]
        } else {
            Seq::empty()
        }
    }
}

proof fn lemma_row_major_index(w: int, h: int, x: int, y: int)
    requires
        0 <= x < w,
        0 <= y < h,
        w <= 0x10000,
        h <= 0x10000,
    ensures
        0 <= y * w + x < w * h,
        w * h <= 0x1_0000_0000,
{
    assert(0 <= y * w + x < w * h && w * h <= 0x1_0000_0000) by (nonlinear_arith)
        requires
            0 <= x < w,
            0 <= y < h,
            w <= 0x10000,
            h <= 0x10000,
    ;
}

pub proof fn lemma_row_major_decompose(w: int, h: int, k: int)
    requires
        0 <= h,
        0 <= k < w * h,
    ensures
        0 < w,
        0 <= k % w < w,
        0 <= k / w < h,
        (k / w) * w + (k % w) == k,
{
    assert(0 < w) by (nonlinear_arith)
        requires
            0 <= h,
            0 <= k < w * h,
    ;
    assert(0 <= k % w < w && 0 <= k / w < h && (k / w) * w + (k % w) == k) by (nonlinear_arith)
        requires
            0 < w,
            0 <= k < w * h,
    ;
}

/// Distinct in-bounds positions map to distinct row-major indices.
pub proof fn lemma_index_injective(width: u16, height: u16, p: Vector, q: Vector)
    requires
        p.x < width,
        p.y < height,
        q.x < width,
        q.y < height,
        p != q,
    ensures
        p.y as int * width as int + p.x as int != q.y as int * width as int + q.x as int,
{
    assert(p.y as int * width as int + p.x as int != q.y as int * width as int + q.x as int)
        by (nonlinear_arith)
        requires
            p.x < width,
            q.x < width,
            p.x != q.x || p.y != q.y,
    ;
}

pub struct CellMatrix {
    pub cells: Vec<Cell>,
    pub width: u16,
    pub height: u16,
    pub diff: Vec<(Vector, Cell)>,
}

impl CellMatrix {
    /// The cell storage covers the whole grid.
    pub open spec fn wf(self) -> bool {
        self.cells@.len() == self.width as int * self.height as int
    }

    /// Every queued write lies inside the grid.
    pub open spec fn diff_wf(self) -> bool {
        forall|k: int|
            0 <= k < self.diff@.len() ==> self.spec_in_bounds(#[trigger] self.diff@[k].0)
    }

    pub open spec fn spec_in_bounds(self, position: Vector) -> bool {
        position.x < self.width && position.y < self.height
    }

    /// The row-major storage index of an in-bounds position.
    pub open spec fn spec_index_of(self, position: Vector) -> int {
        position.y as int * self.width as int + position.x as int
    }

    /// The cell stored at an in-bounds position.
    pub open spec fn spec_get(self, position: Vector) -> Cell
        recommends
            self.wf(),
            self.spec_in_bounds(position),
    {
        self.cells@[self.spec_index_of(position)]
    }

    pub proof fn lemma_index_in_range(self, position: Vector)
        requires
            self.wf(),
            self.spec_in_bounds(position),
        ensures
            0 <= self.spec_index_of(position) < self.cells@.len(),
            self.spec_index_of(position) < 0x1_0000_0000,
    {
        lemma_row_major_index(
            self.width as int,
            self.height as int,
            position.x as int,
            position.y as int,
        );
    }

    /// A fresh matrix: every cell blank, and the queue already
    /// holding one blank write per cell so that the first flush
    /// paints the whole grid.
    pub fn new(width: u16, height: u16) -> (m: CellMatrix)
        requires
            width as int * height as int <= u16::MAX as int,
        ensures
            m.wf(),
            m.diff_wf(),
            m.width == width,
            m.height == height,
            m.cells@ =~= Seq::new((width as int * height as int) as nat, |i: int| spec_empty_cell()),
            m.diff@ =~= Seq::new(
                (width as int * height as int) as nat,
                |i: int| (row_major_position(width, i), spec_empty_cell()),
            ),
    {
        let total: usize = (width as usize) * (height as usize);
        let mut cells: Vec<Cell> = Vec::new();
        let mut diff: Vec<(Vector, Cell)> = Vec::new();
        let mut k: usize = 0;
        while k < total
            invariant
                total == width as int * height as int,
                total <= u16::MAX,
                k <= total,
                cells@ =~= Seq::new(k as nat, |i: int| spec_empty_cell()),
                diff@ =~= Seq::new(
                    k as nat,
                    |i: int| (row_major_position(width, i), spec_empty_cell()),
                ),
            decreases total - k,
        {
            proof {
                lemma_row_major_decompose(width as int, height as int, k as int);
            }
            let x: u16 = (k % (width as usize)) as u16;
            let y: u16 = (k / (width as usize)) as u16;
            cells.push(Cell::new_empty());
            diff.push((Vector::new(x, y), Cell::new_empty()));
            proof {
                assert(cells@ =~= Seq::new((k + 1) as nat, |i: int| spec_empty_cell()));
                assert(diff@ =~= Seq::new(
                    (k + 1) as nat,
                    |i: int| (row_major_position(width, i), spec_empty_cell()),
                ));
            }
            k = k + 1;
        }
        let m = CellMatrix { cells, width, height, diff };
        proof {
            assert forall|j: int| 0 <= j < m.diff@.len() implies m.spec_in_bounds(
                #[trigger] m.diff@[j].0,
            ) by {
                lemma_row_major_decompose(width as int, height as int, j);
            }
        }
        m
    }

    pub fn width(&self) -> (w: u16)
        ensures
            w == self.width,
    {
        self.width
    }

    pub fn height(&self) -> (h: u16)
        ensures
            h == self.height,
    {
        self.height
    }

    /// Replace the cell at `position` and queue the write; outside
    /// the grid this is a silent no-op.
    pub fn set_cell(&mut self, position: &Vector, cell: Cell)
        requires
            old(self).wf(),
        ensures
            final(self).wf(),
            final(self).width == old(self).width,
            final(self).height == old(self).height,
            old(self).spec_in_bounds(*position) ==> final(self).cells@ == old(self).cells@.update(
                old(self).spec_index_of(*position),
                cell,
            ) && final(self).diff@ == old(self).diff@.push((*position, cell)),
            !old(self).spec_in_bounds(*position) ==> *final(self) == *old(self),
            old(self).diff_wf() ==> final(self).diff_wf(),
            forall|q: Vector|
                old(self).spec_in_bounds(q) ==> #[trigger] final(self).spec_get(q) == (if old(
                    self,
                ).spec_in_bounds(*position) && q == *position {
                    cell
                } else {
                    old(self).spec_get(q)
                }),
    {
        if position.x < self.width && position.y < self.height {
            proof {
                self.lemma_index_in_range(*position);
            }
            let index: usize = (position.y as usize) * (self.width as usize) + (
            position.x as usize);
            self.cells[index] = cell;
            self.diff.push((*position, cell));
            proof {
                assert forall|q: Vector| old(self).spec_in_bounds(q) && q != *position implies #[trigger]
                self.spec_get(q) == old(self).spec_get(q) by {
                    old(self).lemma_index_in_range(q);
                    lemma_index_injective(old(self).width, old(self).height, q, *position);
                }
            }
        }
    }

    /// The stored cell, or nothing when the position is outside the
    /// grid.
    pub fn get_cell(&self, position: &Vector) -> (r: Option<&Cell>)
        requires
            self.wf(),
        ensures
            r is Some <==> self.spec_in_bounds(*position),
            r is Some ==> *r->0 == self.spec_get(*position),
    {
        if position.x < self.width && position.y < self.height {
            proof {
                self.lemma_index_in_range(*position);
            }
            let index: usize = (position.y as usize) * (self.width as usize) + (
            position.x as usize);
            Some(&self.cells[index])
        } else {
            None
        }
    }

    /// Hand out the queued writes in first-in-first-out order and
    /// leave the queue empty: each write is delivered at most once.
    pub fn take_diff(&mut self) -> (d: Vec<(Vector, Cell)>)
        ensures
            d@ == old(self).diff@,
            final(self).diff@.len() == 0,
            final(self).cells == old(self).cells,
            final(self).width == old(self).width,
            final(self).height == old(self).height,
    {
        let mut d: Vec<(Vector, Cell)> = Vec::new();
        core::mem::swap(&mut d, &mut self.diff);
        d
    }

    /// The queued writes as positioned, colored terminal text, in
    /// first-in-first-out order; the queue is left empty.
    pub fn flush_strings(&mut self) -> (out: Vec<String>)
        requires
            old(self).wf(),
            old(self).diff_wf(),
        ensures
            final(self).wf(),
            final(self).diff_wf(),
            final(self).diff@.len() == 0,
            final(self).cells == old(self).cells,
            final(self).width == old(self).width,
            final(self).height == old(self).height,
            out@.len() == old(self).diff@.len(),
            forall|k: int|
                0 <= k < out@.len() ==> #[trigger] out@[k]@ == cell_repr(
                    old(self).diff@[k].0,
                    old(self).diff@[k].1,
                ),
    {
        let entries = self.take_diff();
        let mut out: Vec<String> = Vec::new();
        let mut k: usize = 0;
        while k < entries.len()
            invariant
                entries@ == old(self).diff@,
                old(self).diff_wf(),
                old(self).width <= u16::MAX,
                k <= entries@.len(),
                out@.len() == k,
                forall|j: int|
                    0 <= j < k ==> #[trigger] out@[j]@ == cell_repr(
                        entries@[j].0,
                        entries@[j].1,
                    ),
            decreases entries@.len() - k,
        {
            let (position, cell) = entries[k];
            out.push(cell.to_string(&position));
            k = k + 1;
        }
        out
    }

    /// Blank the whole grid; each cell's blanking is itself a queued
    /// write, so a full redraw is a clear followed by re-rendering.
    pub fn clear(&mut self)
        requires
            old(self).wf(),
        ensures
            final(self).wf(),
            final(self).width == old(self).width,
            final(self).height == old(self).height,
            final(self).cells@ =~= Seq::new(old(self).cells@.len(), |i: int| spec_empty_cell()),
            final(self).diff@ =~= old(self).diff@ + Seq::new(
                old(self).cells@.len(),
                |i: int| (row_major_position(old(self).width, i), spec_empty_cell()),
            ),
            old(self).diff_wf() ==> final(self).diff_wf(),
    {
        let total: usize = self.cells.len();
        let mut k: usize = 0;
        while k < total
            invariant
                self.wf(),
                total == old(self).cells@.len(),
                total == self.width as int * self.height as int,
                self.width == old(self).width,
                self.height == old(self).height,
                k <= total,
                forall|i: int| 0 <= i < k ==> self.cells@[i] == spec_empty_cell(),
                forall|i: int| k <= i < total ==> self.cells@[i] == old(self).cells@[i],
                self.diff@ =~= old(self).diff@ + Seq::new(
                    k as nat,
                    |i: int| (row_major_position(old(self).width, i), spec_empty_cell()),
                ),
                old(self).diff_wf() ==> self.diff_wf(),
            decreases total - k,
        {
            proof {
                lemma_row_major_decompose(self.width as int, self.height as int, k as int);
            }
            let x: u16 = (k % (self.width as usize)) as u16;
            let y: u16 = (k / (self.width as usize)) as u16;
            let position = Vector::new(x, y);
            proof {
                assert(self.spec_index_of(position) == k as int);
            }
            self.set_cell(&position, Cell::new_empty());
            proof {
                assert(self.diff@ =~= old(self).diff@ + Seq::new(
                    (k + 1) as nat,
                    |i: int| (row_major_position(old(self).width, i), spec_empty_cell()),
                ));
            }
            k = k + 1;
        }
        proof {
            assert(self.cells@ =~= Seq::new(old(self).cells@.len(), |i: int| spec_empty_cell()));
        }
    }

    /// Blank every cell of one kind; each blanking is a queued write,
    /// in row-major order.
    pub fn clear_type(&mut self, cell_type: CellType)
        requires
            old(self).wf(),
        ensures
            final(self).wf(),
            final(self).width == old(self).width,
            final(self).height == old(self).height,
            final(self).cells@.len() == old(self).cells@.len(),
            forall|i: int|
                0 <= i < old(self).cells@.len() ==> final(self).cells@[i] == (if old(
                    self,
                ).cells@[i].cell_type == cell_type {
                    spec_empty_cell()
                } else {
                    old(self).cells@[i]
                }),
            final(self).diff@ =~= old(self).diff@ + clear_type_diff(
                old(self).cells@,
                old(self).width,
                cell_type,
                old(self).cells@.len() as int,
            ),
            old(self).diff_wf() ==> final(self).diff_wf(),
    {
        let total: usize = self.cells.len();
        let mut k: usize = 0;
        while k < total
            invariant
                self.wf(),
                total == old(self).cells@.len(),
                total == self.width as int * self.height as int,
                self.width == old(self).width,
                self.height == old(self).height,
                k <= total,
                forall|i: int|
                    0 <= i < k ==> self.cells@[i] == (if old(self).cells@[i].cell_type
                        == cell_type {
                        spec_empty_cell()
                    } else {
                        old(self).cells@[i]
                    }),
                forall|i: int| k <= i < total ==> self.cells@[i] == old(self).cells@[i],
                self.diff@ =~= old(self).diff@ + clear_type_diff(
                    old(self).cells@,
                    old(self).width,
                    cell_type,
                    k as int,
                ),
                old(self).diff_wf() ==> self.diff_wf(),
            decreases total - k,
        {
            proof {
                lemma_row_major_decompose(self.width as int, self.height as int, k as int);
            }
            let x: u16 = (k % (self.width as usize)) as u16;
            let y: u16 = (k / (self.width as usize)) as u16;
            let position = Vector::new(x, y);
            proof {
                assert(self.spec_index_of(position) == k as int);
            }
            let kind = self.cells[k].cell_type();
            if kind == cell_type {
                self.set_cell(&position, Cell::new_empty());
            }
            proof {
                assert(self.diff@ =~= old(self).diff@ + clear_type_diff(
                    old(self).cells@,
                    old(self).width,
                    cell_type,
                    (k + 1) as int,
                ));
            }
            k = k + 1;
        }
    }
}

/// Writing a cell in bounds and then reading the same position gives
/// back exactly the written cell: reading another matrix whose
/// storage is the written update of the first.
pub proof fn lemma_set_then_get(m: CellMatrix, written: CellMatrix, position: Vector, cell: Cell)
    requires
        m.wf(),
        m.spec_in_bounds(position),
        written.width == m.width,
        written.height == m.height,
        written.cells@ == m.cells@.update(m.spec_index_of(position), cell),
    ensures
        written.wf(),
        written.spec_get(position) == cell,
{
    m.lemma_index_in_range(position);
}

/// A write outside the grid changes nothing at all, and a read
/// outside the grid is absent, whatever the matrix holds.
pub proof fn lemma_out_of_bounds_is_inert(m: CellMatrix, written: CellMatrix, position: Vector)
    requires
        m.wf(),
        !m.spec_in_bounds(position),
        written == m,
    ensures
        written.cells@ == m.cells@,
        written.diff@ == m.diff@,
        forall|q: Vector| m.spec_in_bounds(q) ==> written.spec_get(q) == m.spec_get(q),
{
}

/// After a clear, every in-bounds position reads blank, and the
/// queue has gained exactly one entry per cell of the grid.
pub proof fn lemma_clear_reads_empty(m: CellMatrix, cleared: CellMatrix)
    requires
        m.wf(),
        cleared.width == m.width,
        cleared.height == m.height,
        cleared.cells@ =~= Seq::new(m.cells@.len(), |i: int| spec_empty_cell()),
        cleared.diff@ =~= m.diff@ + Seq::new(
            m.cells@.len(),
            |i: int| (row_major_position(m.width, i), spec_empty_cell()),
        ),
    ensures
        cleared.wf(),
        forall|p: Vector| cleared.spec_in_bounds(p) ==> cleared.spec_get(p) == spec_empty_cell(),
        cleared.diff@.len() == m.diff@.len() + m.width as int * m.height as int,
{
    assert forall|p: Vector| cleared.spec_in_bounds(p) implies cleared.spec_get(p)
        == spec_empty_cell() by {
        cleared.lemma_index_in_range(p);
    }
}

} // verus!
