//! A text widget: a string laid out character by character into its
//! element's overlay, one cell per box position, newlines skipped as
//! line separators, the tail of the box padded with blanks.

use vstd::prelude::*;

use crate::cell::{Cell, CellType};
use crate::cell_group::CellGroup;
use crate::cell_matrix::CellMatrix;
use crate::color::{Color, Rgb};
use crate::text::{calculated_string_box_size, clamp_u16, spec_box_height, spec_box_width, str_to_chars};
use crate::ui::ui_element::{Orientation, UiElement};
use crate::vector::{Offset, Vector};

verus! {

/// The reading position after the first `k` box cells have been laid
/// out: each cell consumes one character, and a newline standing at
/// the reading position is consumed first.
pub open spec fn layout_index(chars: Seq<char>, k: int) -> int
    decreases k,
{
    if k <= 0 {
        0
    } else {
        let p = layout_index(chars, k - 1);
        let q = if 0 <= p < chars.len() && chars[p] == '\n' {
            p + 1
        } else {
            p
        };
        q + 1
    }
}

/// The character shown in box cell `k`, or nothing once the text has
/// run out.
pub open spec fn layout_char(chars: Seq<char>, k: int) -> Option<char> {
    let p = layout_index(chars, k);
    let q = if 0 <= p < chars.len() && chars[p] == '\n' {
        p + 1
    } else {
        p
    };
    if 0 <= q < chars.len() {
        Some(chars[q])
    } else {
        None
    }
}

/// The cell box position `k` gets: the laid-out character in the
/// given colors, or a neutral blank.
pub open spec fn spec_text_cell(chars: Seq<char>, k: int, bg_color: Rgb, fg_color: Rgb) -> Cell {
    match layout_char(chars, k) {
        Some(c) => Cell { glyph: c, bg_color, fg_color, cell_type: CellType::Solid },
        None => Cell {
            glyph: ' ',
            bg_color: Color::Black.spec_rgb(),
            fg_color: Color::White.spec_rgb(),
            cell_type: CellType::Solid,
        },
    }
}

/// A sum of grid coordinates, squeezed into grid range (an
/// overflowing sum lands outside every real grid and its write is
/// dropped).
pub open spec fn sat_add16(a: u16, b: int) -> u16 {
    clamp_u16(a as int + b)
}

/// Where box cell `k` lands on the grid.
pub open spec fn text_pos(origin: Vector, width: u16, k: int) -> Vector
    recommends
        width > 0,
{
    Vector {
        x: sat_add16(origin.x, k % width as int),
        y: sat_add16(origin.y, k / width as int),
    }
}

/// The overlay after the first `n` box cells are written, in
/// row-major box order.
pub open spec fn text_overlay(
    m: Map<Vector, Cell>,
    origin: Vector,
    width: u16,
    chars: Seq<char>,
    bg_color: Rgb,
    fg_color: Rgb,
    n: int,
) -> Map<Vector, Cell>
    decreases n,
{
    if n <= 0 {
        m
    } else {
        text_overlay(m, origin, width, chars, bg_color, fg_color, n - 1).insert(
            text_pos(origin, width, n - 1),
            spec_text_cell(chars, n - 1, bg_color, fg_color),
        )
    }
}

proof fn lemma_box_compose(w: int, x: int, y: int)
    requires
        0 < w,
        0 <= x < w,
        0 <= y,
    ensures
        (y * w + x) % w == x,
        (y * w + x) / w == y,
        (y + 1) * w == y * w + w,
        y * w >= 0,
{
    assert((y + 1) * w == y * w + w && y * w >= 0) by (nonlinear_arith)
        requires
            0 < w,
            0 <= y,
    ;
    assert((y * w + x) % w == x && (y * w + x) / w == y) by (nonlinear_arith)
        requires
            0 < w,
            0 <= x < w,
            0 <= y,
    ;
}

/// Lay a string out into the overlay: one cell per box position in
/// row-major order, characters in the given colors, blanks past the
/// end of the text.
pub fn update_cell_group(
    cell_group: &mut CellGroup,
    aligned_position: Vector,
    width: u16,
    height: u16,
    chars: &Vec<char>,
    bg_color: Rgb,
    fg_color: Rgb,
)
    requires
        old(cell_group).wf(),
    ensures
        final(cell_group).wf(),
        final(cell_group).spec_map() =~= text_overlay(
            old(cell_group).spec_map(),
            aligned_position,
            width,
            chars@,
            bg_color,
            fg_color,
            width as int * height as int,
        ),
        forall|i: int|
            0 <= i < final(cell_group).entries@.len() ==> (
            #[trigger] final(cell_group).entries@[i]).1.cell_type == CellType::Solid || (exists|
                j: int,
            |
                0 <= j < old(cell_group).entries@.len() && old(cell_group).entries@[j]
                    == final(cell_group).entries@[i]),
    {
        let mut si: usize = 0;
        let mut y: u16 = 0;
        while y < height
            invariant
                old(cell_group).wf(),
                y <= height,
                si <= chars@.len(),
                ({
                    let k = y as int * width as int;
                    &&& k >= 0
                    &&& ((si as int == layout_index(chars@, k) && layout_index(chars@, k)
                        <= chars@.len()) || (si as int == chars@.len() && layout_index(chars@, k)
                        >= chars@.len()))
                    &&& cell_group.wf()
                    &&& cell_group.spec_map() =~= text_overlay(
                        old(cell_group).spec_map(),
                        aligned_position,
                        width,
                        chars@,
                        bg_color,
                        fg_color,
                        k,
                    )
                }),
                forall|i: int|
                    0 <= i < cell_group.entries@.len() ==> (
                    #[trigger] cell_group.entries@[i]).1.cell_type == CellType::Solid || (exists|
                        j: int,
                    |
                        0 <= j < old(cell_group).entries@.len() && old(cell_group).entries@[j]
                            == cell_group.entries@[i]),
            decreases height - y,
        {
            let mut x: u16 = 0;
            while x < width
                invariant
                    old(cell_group).wf(),
                    y < height,
                    x <= width,
                    si <= chars@.len(),
                    ({
                        let k = y as int * width as int + x as int;
                        &&& y as int * width as int >= 0
                        &&& ((si as int == layout_index(chars@, k) && layout_index(chars@, k)
                            <= chars@.len()) || (si as int == chars@.len() && layout_index(
                            chars@,
                            k,
                        ) >= chars@.len()))
                        &&& cell_group.wf()
                        &&& cell_group.spec_map() =~= text_overlay(
                            old(cell_group).spec_map(),
                            aligned_position,
                            width,
                            chars@,
                            bg_color,
                            fg_color,
                            k,
                        )
                    }),
                    forall|i: int|
                        0 <= i < cell_group.entries@.len() ==> (
                        #[trigger] cell_group.entries@[i]).1.cell_type == CellType::Solid || (
                        exists|j: int|
                            0 <= j < old(cell_group).entries@.len() && old(
                                cell_group,
                            ).entries@[j] == cell_group.entries@[i]),
                decreases width - x,
            {
                let ghost k = y as int * width as int + x as int;
                proof {
                    lemma_box_compose(width as int, x as int, y as int);
                }
                let target = Vector::new(
                    crate::ui::ui_element::shifted(aligned_position.x, x as i32),
                    crate::ui::ui_element::shifted(aligned_position.y, y as i32),
                );
                if si < chars.len() && chars[si] == '\n' {
                    si = si + 1;
                }
                let cell = if si < chars.len() {
                    Cell::new_typeless(chars[si], bg_color, fg_color)
                } else {
                    Cell::new_colorless(' ')
                };
                let ghost prev_entries = cell_group.entries@;
                cell_group.set_cell(target, cell);
                if si < chars.len() {
                    si = si + 1;
                }
                proof {
                    assert(target == text_pos(aligned_position, width, k));
                    assert(cell == spec_text_cell(chars@, k, bg_color, fg_color));
                    assert forall|i: int|
                        0 <= i < cell_group.entries@.len() implies (
                    #[trigger] cell_group.entries@[i]).1.cell_type == CellType::Solid || (exists|
                        j: int,
                    |
                        0 <= j < old(cell_group).entries@.len() && old(cell_group).entries@[j]
                            == cell_group.entries@[i]) by {
                        if cell_group.entries@[i] != (target, cell) {
                            assert(cell_group.entries@[i] == prev_entries[i]);
                        }
                    }
                }
                x = x + 1;
            }
            proof {
                assert((y as int + 1) * (width as int) == y as int * width as int + width as int)
                    by (nonlinear_arith);
            }
            y = y + 1;
        }
        proof {
            assert(height as int * width as int == width as int * height as int)
                by (nonlinear_arith);
        }
    }

/// Each text's overlay map, in text order.
pub open spec fn texts_maps(texts: Seq<Text>) -> Seq<Map<Vector, Cell>> {
    Seq::new(texts.len(), |i: int| texts[i].ui_element.cell_group.spec_map())
}

/// The geometry `set_string` leaves a text with: re-measured and
/// re-aligned when the byte lengths of the old and new strings match,
/// untouched otherwise. The result is the box width, height and
/// aligned top-left corner.
pub open spec fn spec_set_string_geometry(t: Text, s: Seq<char>) -> (u16, u16, Vector) {
    let resized = vstd::utf8::encode_utf8(t.string@).len() as usize == vstd::utf8::encode_utf8(
        s,
    ).len() as usize;
    if resized {
        let w = clamp_u16(spec_box_width(s));
        let h = clamp_u16(spec_box_height(s));
        let aligned = Vector {
            x: crate::ui::ui_element::spec_shifted(
                crate::ui::ui_element::spec_x_offset(
                    t.ui_element.anchor,
                    t.ui_element.alignment,
                    t.ui_element.cell_matrix_width,
                    w,
                ),
                t.ui_element.position.x,
            ),
            y: crate::ui::ui_element::spec_shifted(
                crate::ui::ui_element::spec_y_offset(
                    t.ui_element.anchor,
                    t.ui_element.alignment,
                    t.ui_element.cell_matrix_height,
                    h,
                ),
                t.ui_element.position.y,
            ),
        };
        (w, h, aligned)
    } else {
        (t.ui_element.width, t.ui_element.height, t.ui_element.aligned_position)
    }
}

/// The overlay map `set_string` leaves on a text: the new characters
/// laid out over the old overlay at the geometry the resize rule
/// picks.
pub open spec fn spec_set_string_map(t: Text, s: Seq<char>) -> Map<Vector, Cell> {
    let (w, h, aligned) = spec_set_string_geometry(t, s);
    text_overlay(
        t.ui_element.cell_group.spec_map(),
        aligned,
        w,
        s,
        t.bg_color,
        t.fg_color,
        w as int * h as int,
    )
}

/// The first index whose text bears the given name; the length when
/// none does.
pub open spec fn first_named(texts: Seq<Text>, name: Seq<char>) -> int
    decreases texts.len(),
{
    if texts.len() == 0 {
        0
    } else if texts[0].ui_element.name@ == name {
        0
    } else {
        1 + first_named(texts.drop_first(), name)
    }
}

/// The first-match index is never negative.
pub proof fn lemma_first_named_nonneg(texts: Seq<Text>, name: Seq<char>)
    ensures
        0 <= first_named(texts, name),
    decreases texts.len(),
{
    if texts.len() > 0 && texts[0].ui_element.name@ != name {
        lemma_first_named_nonneg(texts.drop_first(), name);
    }
}

/// When a text bears the name, the first-match index lands on one
/// that does.
pub proof fn lemma_first_named_hit(texts: Seq<Text>, name: Seq<char>)
    ensures
        first_named(texts, name) < texts.len() ==> texts[first_named(
            texts,
            name,
        )].ui_element.name@ == name,
    decreases texts.len(),
{
    if texts.len() > 0 && texts[0].ui_element.name@ != name {
        lemma_first_named_hit(texts.drop_first(), name);
        lemma_first_named_nonneg(texts.drop_first(), name);
        let fd = first_named(texts.drop_first(), name);
        if fd < texts.drop_first().len() {
            assert(texts.drop_first()[fd] == texts[fd + 1]);
        }
    }
}

/// A forward scan that saw no match before `k` and a match at `k`
/// pins the first match at `k`; a scan that saw none at all pins it
/// at the length.
pub proof fn lemma_first_named(texts: Seq<Text>, name: Seq<char>, k: int)
    requires
        0 <= k <= texts.len(),
        forall|j: int| 0 <= j < k ==> (#[trigger] texts[j]).ui_element.name@ != name,
        k < texts.len() ==> texts[k].ui_element.name@ == name,
    ensures
        first_named(texts, name) == if k < texts.len() {
            k
        } else {
            texts.len() as int
        },
    decreases texts.len(),
{
    if texts.len() > 0 {
        if k == 0 {
        } else {
            assert(texts[0].ui_element.name@ != name);
            assert forall|j: int|
                0 <= j < k - 1 implies (#[trigger] texts.drop_first()[j]).ui_element.name@
                != name by {
                assert(texts.drop_first()[j] == texts[j + 1]);
            }
            if k - 1 < texts.drop_first().len() {
                assert(texts.drop_first()[k - 1] == texts[k]);
            }
            lemma_first_named(texts.drop_first(), name, k - 1);
        }
    }
}

/// A named, colored block of text placed on the grid.
pub struct Text {
    pub ui_element: UiElement,
    pub string: String,
    pub chars: Vec<char>,
    pub bg_color: Rgb,
    pub fg_color: Rgb,
}

impl Text {
    pub open spec fn wf(self) -> bool {
        &&& self.ui_element.wf()
        &&& self.chars@ == self.string@
        &&& forall|i: int|
            0 <= i < self.ui_element.cell_group.entries@.len() ==> (
            #[trigger] self.ui_element.cell_group.entries@[i]).1.cell_type == CellType::Solid
    }

    /// Build a text widget: measure the string, place the element,
    /// and lay the characters into its overlay.
    pub fn new(
        name: String,
        position: Offset,
        anchor: Orientation,
        alignment: Orientation,
        string: String,
        cell_matrix_width: u16,
        cell_matrix_height: u16,
        bg_color: Rgb,
        fg_color: Rgb,
    ) -> (t: Text)
        ensures
            t.wf(),
            t.string@ == string@,
            t.bg_color == bg_color,
            t.fg_color == fg_color,
            t.ui_element.name@ == name@,
            t.ui_element.position == position,
            t.ui_element.anchor == anchor,
            t.ui_element.alignment == alignment,
            t.ui_element.width == clamp_u16(spec_box_width(string@)),
            t.ui_element.height == clamp_u16(spec_box_height(string@)),
            t.ui_element.cell_matrix_width == cell_matrix_width,
            t.ui_element.cell_matrix_height == cell_matrix_height,
            t.ui_element.aligned_position == t.ui_element.spec_aligned(),
            t.ui_element.cell_group.spec_map() =~= text_overlay(
                Map::empty(),
                t.ui_element.aligned_position,
                t.ui_element.width,
                string@,
                bg_color,
                fg_color,
                t.ui_element.width as int * t.ui_element.height as int,
            ),
    {
        let size = calculated_string_box_size(string.as_str());
        let width = size.0;
        let height = size.1;
        let chars = str_to_chars(string.as_str());
        let mut ui_element = UiElement::new(
            name,
            position,
            anchor,
            alignment,
            width,
            height,
            cell_matrix_width,
            cell_matrix_height,
        );
        let aligned_position = ui_element.aligned_position();
        update_cell_group(
            ui_element.cell_group_mut(),
            aligned_position,
            width,
            height,
            &chars,
            bg_color,
            fg_color,
        );
        Text { ui_element, string, chars, bg_color, fg_color }
    }

    pub fn name(&self) -> (n: String)
        ensures
            n@ == self.ui_element.name@,
    {
        self.ui_element.name()
    }

    /// Replace the shown string. When the new string has the same
    /// byte length as the old one, the box is re-measured and
    /// re-aligned first; either way the overlay is laid out afresh.
    pub fn set_string(&mut self, string: String)
        requires
            old(self).wf(),
        ensures
            final(self).wf(),
            final(self).string@ == string@,
            final(self).bg_color == old(self).bg_color,
            final(self).fg_color == old(self).fg_color,
            final(self).ui_element.name@ == old(self).ui_element.name@,
            ({
                let resized = vstd::utf8::encode_utf8(old(self).string@).len() as usize
                    == vstd::utf8::encode_utf8(string@).len() as usize;
                if resized {
                    final(self).ui_element.width == clamp_u16(spec_box_width(string@))
                        && final(self).ui_element.height == clamp_u16(spec_box_height(string@))
                } else {
                    &&& final(self).ui_element.width == old(self).ui_element.width
                    &&& final(self).ui_element.height == old(self).ui_element.height
                    &&& final(self).ui_element.aligned_position == old(
                        self,
                    ).ui_element.aligned_position
                }
            }),
            (final(self).ui_element.width, final(self).ui_element.height, final(self).ui_element.aligned_position) == spec_set_string_geometry(*old(self), string@),
            final(self).ui_element.cell_group.spec_map() =~= spec_set_string_map(
                *old(self),
                string@,
            ),
    {
        let resize = self.string.as_str().len() == string.as_str().len();
        self.string = string;
        self.chars = str_to_chars(self.string.as_str());

        if resize {
            let size = calculated_string_box_size(self.string.as_str());
            self.ui_element.set_width(size.0);
            self.ui_element.set_height(size.1);
        }
        self.update_cell_group_wrapper();
    }

    pub fn set_bg_color(&mut self, color: Rgb)
        requires
            old(self).wf(),
        ensures
            final(self).wf(),
            final(self).bg_color == color,
            final(self).fg_color == old(self).fg_color,
            final(self).string@ == old(self).string@,
            final(self).ui_element.name@ == old(self).ui_element.name@,
    {
        self.bg_color = color;
        self.update_cell_group_wrapper();
    }

    pub fn set_fg_color(&mut self, color: Rgb)
        requires
            old(self).wf(),
        ensures
            final(self).wf(),
            final(self).fg_color == color,
            final(self).bg_color == old(self).bg_color,
            final(self).string@ == old(self).string@,
            final(self).ui_element.name@ == old(self).ui_element.name@,
    {
        self.fg_color = color;
        self.update_cell_group_wrapper();
    }

    /// Merge the text into the matrix.
    pub fn render(&mut self, cell_matrix: &mut CellMatrix)
        requires
            old(self).wf(),
            old(cell_matrix).wf(),
        ensures
            final(self).wf(),
            final(self).string@ == old(self).string@,
            final(self).bg_color == old(self).bg_color,
            final(self).fg_color == old(self).fg_color,
            final(self).ui_element.name@ == old(self).ui_element.name@,
            *final(self) == (Text { ui_element: final(self).ui_element, ..*old(self) }),
            final(self).ui_element == (UiElement {
                cell_group: final(self).ui_element.cell_group,
                ..old(self).ui_element
            }),
            final(self).ui_element.cell_group.entries@ =~= old(
                self,
            ).ui_element.cell_group.entries@,
            final(self).ui_element.cell_group.spec_map() =~= old(
                self,
            ).ui_element.cell_group.spec_map(),
            final(cell_matrix).wf(),
            final(cell_matrix).width == old(cell_matrix).width,
            final(cell_matrix).height == old(cell_matrix).height,
            forall|p: Vector|
                old(cell_matrix).spec_in_bounds(p) ==> #[trigger] final(cell_matrix).spec_get(p)
                    == (if old(self).ui_element.cell_group.spec_map().contains_key(p) {
                    old(self).ui_element.cell_group.spec_map()[p]
                } else {
                    old(cell_matrix).spec_get(p)
                }),
            old(cell_matrix).diff_wf() ==> final(cell_matrix).diff_wf(),
    {
        proof {
            crate::cell_group::lemma_strip_empty_keeps_all(
                old(self).ui_element.cell_group.entries@,
            );
        }
        self.ui_element.render(cell_matrix);
    }

    /// Re-lay the current string into the overlay at the element's
    /// current geometry.
    fn update_cell_group_wrapper(&mut self)
        requires
            old(self).wf(),
        ensures
            final(self).wf(),
            final(self).string == old(self).string,
            final(self).chars == old(self).chars,
            final(self).bg_color == old(self).bg_color,
            final(self).fg_color == old(self).fg_color,
            *final(self) == (Text { ui_element: final(self).ui_element, ..*old(self) }),
            final(self).ui_element == (UiElement {
                cell_group: final(self).ui_element.cell_group,
                ..old(self).ui_element
            }),
            final(self).ui_element.cell_group.spec_map() =~= text_overlay(
                old(self).ui_element.cell_group.spec_map(),
                old(self).ui_element.aligned_position,
                old(self).ui_element.width,
                old(self).string@,
                old(self).bg_color,
                old(self).fg_color,
                old(self).ui_element.width as int * old(self).ui_element.height as int,
            ),
    {
        let aligned_position = self.ui_element.aligned_position();
        let width = self.ui_element.width();
        let height = self.ui_element.height();
        let chars = str_to_chars(self.string.as_str());
        update_cell_group(
            self.ui_element.cell_group_mut(),
            aligned_position,
            width,
            height,
            &chars,
            self.bg_color,
            self.fg_color,
        );
    }
}

} // verus!
