//! A sparse overlay of cells keyed by position. Entities draw into a
//! group, the group is merged into the matrix on render, and entries
//! that have become blank are dropped right after they are pushed, so
//! a vacated cell is erased exactly once and then forgotten.

use vstd::prelude::*;

use crate::cell::{Cell, CellType};
use crate::cell_matrix::CellMatrix;
use crate::vector::Vector;

verus! {

/// The entries as a position-to-cell mapping; a later entry for the
/// same position wins.
pub open spec fn as_map(s: Seq<(Vector, Cell)>) -> Map<Vector, Cell>
    decreases s.len(),
{
    if s.len() == 0 {
        Map::empty()
    } else {
        as_map(s.drop_last()).insert(s.last().0, s.last().1)
    }
}

/// The entries whose cell is not blank, in order.
pub open spec fn strip_empty(s: Seq<(Vector, Cell)>) -> Seq<(Vector, Cell)>
    decreases s.len(),
{
    if s.len() == 0 {
        Seq::empty()
    } else {
        strip_empty(s.drop_last()) + if s.last().1.cell_type != CellType::Empty {
            seq![s.last()]
        } else {
            Seq::empty()
        }
    }
}

/// The entries whose position lies inside a `width` by `height` grid,
/// in order.
pub open spec fn in_bounds_writes(s: Seq<(Vector, Cell)>, width: u16, height: u16) -> Seq<
    (Vector, Cell),
>
    decreases s.len(),
{
    if s.len() == 0 {
        Seq::empty()
    } else {
        in_bounds_writes(s.drop_last(), width, height) + if s.last().0.x < width && s.last().0.y
            < height {
            seq![s.last()]
        } else {
            Seq::empty()
        }
    }
}

/// No two entries share a position.
pub open spec fn unique_positions(s: Seq<(Vector, Cell)>) -> bool {
    forall|i: int, j: int| 0 <= i < j < s.len() ==> (#[trigger] s[i]).0 != (#[trigger] s[j]).0
}

pub proof fn lemma_as_map_contains(s: Seq<(Vector, Cell)>, position: Vector)
    ensures
        as_map(s).contains_key(position) <==> exists|i: int|
            0 <= i < s.len() && (#[trigger] s[i]).0 == position,
    decreases s.len(),
{
    if s.len() > 0 {
        lemma_as_map_contains(s.drop_last(), position);
        if s.last().0 == position {
            assert(s[s.len() - 1].0 == position);
        } else if as_map(s).contains_key(position) {
            let i = choose|i: int| 0 <= i < s.drop_last().len() && (#[trigger] s.drop_last()[i]).0
                == position;
            assert(s[i].0 == position);
        } else {
            assert forall|i: int| 0 <= i < s.len() implies (#[trigger] s[i]).0 != position by {
                if i < s.len() - 1 {
                    assert(s.drop_last()[i] == s[i]);
                }
            }
        }
    }
}

proof fn lemma_as_map_update(s: Seq<(Vector, Cell)>, i: int, cell: Cell)
    requires
        unique_positions(s),
        0 <= i < s.len(),
    ensures
        as_map(s.update(i, (s[i].0, cell))) =~= as_map(s).insert(s[i].0, cell),
    decreases s.len(),
{
    let s2 = s.update(i, (s[i].0, cell));
    if i == s.len() - 1 {
        assert(s2.drop_last() =~= s.drop_last());
    } else {
        assert(s2.drop_last() =~= s.drop_last().update(i, (s[i].0, cell)));
        assert(s.drop_last()[i] == s[i]);
        lemma_as_map_update(s.drop_last(), i, cell);
        assert(s.last().0 != s[i].0);
    }
}

pub proof fn lemma_strip_empty_unique(s: Seq<(Vector, Cell)>)
    requires
        unique_positions(s),
    ensures
        unique_positions(strip_empty(s)),
        forall|i: int|
            0 <= i < strip_empty(s).len() ==> exists|j: int|
                0 <= j < s.len() && #[trigger] strip_empty(s)[i] == s[j],
    decreases s.len(),
{
    if s.len() > 0 {
        lemma_strip_empty_unique(s.drop_last());
        let t = strip_empty(s);
        let td = strip_empty(s.drop_last());
        assert forall|i: int| 0 <= i < t.len() implies exists|j: int|
            0 <= j < s.len() && #[trigger] t[i] == s[j] by {
            if i < td.len() {
                let j = choose|j: int|
                    0 <= j < s.drop_last().len() && #[trigger] td[i] == s.drop_last()[j];
                assert(t[i] == s[j]);
            } else {
                assert(t[i] == s[s.len() - 1]);
            }
        }
        assert forall|i: int, j: int| 0 <= i < j < t.len() implies (#[trigger] t[i]).0 != (
        #[trigger] t[j]).0 by {
            let a = choose|a: int| 0 <= a < s.drop_last().len() && #[trigger] td[i] == s.drop_last()[a];
            if j < td.len() {
                let b = choose|b: int|
                    0 <= b < s.drop_last().len() && #[trigger] td[j] == s.drop_last()[b];
                if a == b {
                    assert(unique_positions(td));
                    assert(t[i].0 != t[j].0);
                }
            } else {
                assert(t[j] == s[s.len() - 1]);
                assert(s.drop_last()[a] == s[a]);
            }
        }
    }
}

/// The cell shown at `p` after painting the first `n` overlays in
/// order over a fallback cell: the latest overlay holding `p` wins.
pub open spec fn overlay_cell(
    maps: Seq<Map<Vector, Cell>>,
    n: int,
    p: Vector,
    fallback: Cell,
) -> Cell
    decreases n,
{
    if n <= 0 {
        fallback
    } else if maps[n - 1].contains_key(p) {
        maps[n - 1][p]
    } else {
        overlay_cell(maps, n - 1, p, fallback)
    }
}

/// Painting overlays that agree pointwise shows the same cell.
pub proof fn lemma_overlay_cell_congruent(
    a: Seq<Map<Vector, Cell>>,
    b: Seq<Map<Vector, Cell>>,
    n: int,
    p: Vector,
    fallback: Cell,
)
    requires
        forall|i: int| 0 <= i < n ==> #[trigger] a[i] == b[i],
    ensures
        overlay_cell(a, n, p, fallback) == overlay_cell(b, n, p, fallback),
    decreases n,
{
    if n > 0 {
        lemma_overlay_cell_congruent(a, b, n - 1, p, fallback);
    }
}

/// Every mapping in the overlay comes from one of its entries.
pub proof fn lemma_as_map_values(s: Seq<(Vector, Cell)>, p: Vector)
    requires
        as_map(s).contains_key(p),
    ensures
        exists|i: int| 0 <= i < s.len() && #[trigger] s[i] == (p, as_map(s)[p]),
    decreases s.len(),
{
    if s.len() > 0 {
        if s.last().0 == p {
            assert(s[s.len() - 1] == (p, as_map(s)[p]));
        } else {
            lemma_as_map_values(s.drop_last(), p);
            let i = choose|i: int|
                0 <= i < s.drop_last().len() && #[trigger] s.drop_last()[i] == (
                    p,
                    as_map(s.drop_last())[p],
                );
            assert(s[i] == (p, as_map(s)[p]));
        }
    }
}

/// Stripping blanks from entries that have none leaves them as they
/// are.
pub proof fn lemma_strip_empty_keeps_all(s: Seq<(Vector, Cell)>)
    requires
        forall|i: int| 0 <= i < s.len() ==> (#[trigger] s[i]).1.cell_type != CellType::Empty,
    ensures
        strip_empty(s) =~= s,
    decreases s.len(),
{
    if s.len() > 0 {
        assert forall|i: int|
            0 <= i < s.drop_last().len() implies (#[trigger] s.drop_last()[i]).1.cell_type
            != CellType::Empty by {
            assert(s.drop_last()[i] == s[i]);
        }
        lemma_strip_empty_keeps_all(s.drop_last());
        assert(s[s.len() - 1].1.cell_type != CellType::Empty);
        assert(strip_empty(s) =~= s.drop_last() + seq![s.last()]);
        assert(s.drop_last() + seq![s.last()] =~= s);
    }
}

/// An entity-owned batch of cell writes.
pub struct CellGroup {
    pub entries: Vec<(Vector, Cell)>,
}

impl CellGroup {
    pub open spec fn wf(self) -> bool {
        unique_positions(self.entries@)
    }

    /// The group as a position-to-cell mapping.
    pub open spec fn spec_map(self) -> Map<Vector, Cell> {
        as_map(self.entries@)
    }

    pub fn new() -> (g: CellGroup)
        ensures
            g.wf(),
            g.entries@.len() == 0,
            g.spec_map() =~= Map::<Vector, Cell>::empty(),
    {
        CellGroup { entries: Vec::new() }
    }

    /// Insert or overwrite the entry for one position.
    pub fn set_cell(&mut self, position: Vector, cell: Cell)
        requires
            old(self).wf(),
        ensures
            final(self).wf(),
            final(self).spec_map() =~= old(self).spec_map().insert(position, cell),
            (exists|i: int|
                0 <= i < old(self).entries@.len() && (#[trigger] old(self).entries@[i]).0
                    == position && final(self).entries@ == old(self).entries@.update(
                    i,
                    (position, cell),
                )) || (final(self).entries@ == old(self).entries@.push((position, cell))
                && !old(self).spec_map().contains_key(position)),
            forall|i: int|
                0 <= i < final(self).entries@.len() ==> ((#[trigger] final(self).entries@[i]) == (
                position,
                cell,
            ) || (exists|j: int|
                    0 <= j < old(self).entries@.len() && old(self).entries@[j]
                        == final(self).entries@[i])),
    {
        let n = self.entries.len();
        let mut k: usize = 0;
        while k < n
            invariant
                old(self).wf(),
                *self == *old(self),
                n == self.entries@.len(),
                k <= n,
                forall|i: int| 0 <= i < k ==> (#[trigger] self.entries@[i]).0 != position,
            decreases n - k,
        {
            if self.entries[k].0 == position {
                let ghost prev = self.entries@;
                self.entries[k] = (position, cell);
                proof {
                    assert(prev[k as int].0 == position);
                    lemma_as_map_update(prev, k as int, cell);
                    assert forall|i: int, j: int|
                        0 <= i < j < self.entries@.len() implies (#[trigger] self.entries@[i]).0
                        != (#[trigger] self.entries@[j]).0 by {
                        assert(prev[i].0 != prev[j].0);
                    }
                }
                return ;
            }
            k = k + 1;
        }
        let ghost prev = self.entries@;
        self.entries.push((position, cell));
        proof {
            assert(self.entries@.drop_last() =~= prev);
            lemma_as_map_contains(prev, position);
            assert forall|i: int, j: int|
                0 <= i < j < self.entries@.len() implies (#[trigger] self.entries@[i]).0 != (
            #[trigger] self.entries@[j]).0 by {
                if j < prev.len() {
                    assert(prev[i].0 != prev[j].0);
                } else {
                    assert(self.entries@[j].0 == position);
                    assert(self.entries@[i] == prev[i]);
                }
            }
        }
    }

    /// Copy every entry into the matrix (queueing one write per
    /// in-bounds entry, in entry order), then drop the entries whose
    /// cell is blank.
    pub fn render(&mut self, cell_matrix: &mut CellMatrix)
        requires
            old(self).wf(),
            old(cell_matrix).wf(),
        ensures
            final(self).wf(),
            final(cell_matrix).wf(),
            final(cell_matrix).width == old(cell_matrix).width,
            final(cell_matrix).height == old(cell_matrix).height,
            final(self).entries@ =~= strip_empty(old(self).entries@),
            final(cell_matrix).diff@ =~= old(cell_matrix).diff@ + in_bounds_writes(
                old(self).entries@,
                old(cell_matrix).width,
                old(cell_matrix).height,
            ),
            forall|p: Vector|
                old(cell_matrix).spec_in_bounds(p) ==> #[trigger] final(cell_matrix).spec_get(p)
                    == (if old(self).spec_map().contains_key(p) {
                    old(self).spec_map()[p]
                } else {
                    old(cell_matrix).spec_get(p)
                }),
            old(cell_matrix).diff_wf() ==> final(cell_matrix).diff_wf(),
    {
        let n = self.entries.len();
        let mut k: usize = 0;
        while k < n
            invariant
                *self == *old(self),
                old(self).wf(),
                old(cell_matrix).wf(),
                n == self.entries@.len(),
                k <= n,
                cell_matrix.wf(),
                cell_matrix.width == old(cell_matrix).width,
                cell_matrix.height == old(cell_matrix).height,
                cell_matrix.diff@ =~= old(cell_matrix).diff@ + in_bounds_writes(
                    self.entries@.subrange(0, k as int),
                    old(cell_matrix).width,
                    old(cell_matrix).height,
                ),
                forall|p: Vector|
                    old(cell_matrix).spec_in_bounds(p) ==> #[trigger] cell_matrix.spec_get(p) == (
                    if as_map(self.entries@.subrange(0, k as int)).contains_key(p) {
                        as_map(self.entries@.subrange(0, k as int))[p]
                    } else {
                        old(cell_matrix).spec_get(p)
                    }),
                old(cell_matrix).diff_wf() ==> cell_matrix.diff_wf(),
            decreases n - k,
        {
            let (position, cell) = self.entries[k];
            let ghost pre = *cell_matrix;
            cell_matrix.set_cell(&position, cell);
            proof {
                let prefix = self.entries@.subrange(0, k as int);
                let prefix2 = self.entries@.subrange(0, k as int + 1);
                assert(prefix2.drop_last() =~= prefix);
                assert(prefix2.last() == self.entries@[k as int]);
                assert(as_map(prefix2) =~= as_map(prefix).insert(position, cell));
                assert(cell_matrix.diff@ =~= old(cell_matrix).diff@ + in_bounds_writes(
                    prefix2,
                    old(cell_matrix).width,
                    old(cell_matrix).height,
                ));
                assert forall|p: Vector| old(cell_matrix).spec_in_bounds(p) implies #[trigger]
                cell_matrix.spec_get(p) == (if as_map(prefix2).contains_key(p) {
                    as_map(prefix2)[p]
                } else {
                    old(cell_matrix).spec_get(p)
                }) by {
                    if pre.spec_in_bounds(position) {
                        pre.lemma_index_in_range(position);
                        pre.lemma_index_in_range(p);
                        if p == position {
                            assert(cell_matrix.spec_get(p) == cell);
                        } else {
                            crate::cell_matrix::lemma_index_injective(
                                pre.width,
                                pre.height,
                                p,
                                position,
                            );
                            assert(cell_matrix.spec_get(p) == pre.spec_get(p));
                        }
                    } else {
                        assert(cell_matrix.spec_get(p) == pre.spec_get(p));
                        assert(p != position);
                    }
                }
            }
            k = k + 1;
        }
        proof {
            assert(self.entries@.subrange(0, n as int) =~= self.entries@);
        }
        self.strip_empty();
    }

    /// Drop the entries whose cell is blank, keeping the rest in
    /// order.
    fn strip_empty(&mut self)
        requires
            old(self).wf(),
        ensures
            final(self).wf(),
            final(self).entries@ =~= strip_empty(old(self).entries@),
    {
        let n = self.entries.len();
        let mut kept: Vec<(Vector, Cell)> = Vec::new();
        let mut k: usize = 0;
        while k < n
            invariant
                n == self.entries@.len(),
                k <= n,
                *self == *old(self),
                kept@ =~= strip_empty(self.entries@.subrange(0, k as int)),
            decreases n - k,
        {
            let (position, cell) = self.entries[k];
            if !matches!(cell.cell_type(), CellType::Empty) {
                kept.push((position, cell));
            }
            proof {
                let prefix2 = self.entries@.subrange(0, k as int + 1);
                assert(prefix2.drop_last() =~= self.entries@.subrange(0, k as int));
                assert(prefix2.last() == self.entries@[k as int]);
                assert(kept@ =~= strip_empty(prefix2));
            }
            k = k + 1;
        }
        proof {
            assert(self.entries@.subrange(0, n as int) =~= self.entries@);
            lemma_strip_empty_unique(self.entries@);
        }
        self.entries = kept;
    }
}

} // verus!
