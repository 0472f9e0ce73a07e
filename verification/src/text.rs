//! Measuring and aligning text: the bounding box of a multi-line
//! string and the offset an alignment puts it at.

use vstd::prelude::*;

verus! {

/// Where a text block sits relative to the grid.
#[derive(Clone, Copy, Debug, PartialEq, Eq, Structural)]
pub enum Alignment {
    TopLeft,
    Top,
    TopRight,
    CenterLeft,
    Center,
    CenterRight,
    BottomLeft,
    Bottom,
    BottomRight,
}

/// One pass over the first `i` characters: the length of the current
/// unterminated line, the longest terminated line, and how many lines
/// have been terminated by a newline.
pub open spec fn box_scan(s: Seq<char>, i: int) -> (int, int, int)
    decreases i,
{
    if i <= 0 {
        (0, 0, 0)
    } else {
        let (cur, w, h) = box_scan(s, i - 1);
        if s[i - 1] == '\n' {
            (0, if cur > w { cur } else { w }, h + 1)
        } else {
            (cur + 1, w, h)
        }
    }
}

/// The length of the longest newline-separated line.
pub open spec fn spec_box_width(s: Seq<char>) -> int {
    let (cur, w, h) = box_scan(s, s.len() as int);
    if cur > w {
        cur
    } else {
        w
    }
}

/// The number of newline-separated lines; a trailing newline does not
/// open a new one.
pub open spec fn spec_box_height(s: Seq<char>) -> int {
    let (cur, w, h) = box_scan(s, s.len() as int);
    if cur > 0 {
        h + 1
    } else {
        h
    }
}

/// An integer squeezed into grid-coordinate range.
pub open spec fn clamp_u16(v: int) -> u16 {
    if v < 0 {
        0u16
    } else if v > 0xffff {
        0xffffu16
    } else {
        v as u16
    }
}

/// The characters of a string, one by one.
pub fn str_to_chars(s: &str) -> (v: Vec<char>)
    ensures
        v@ == s@,
{
    let n = s.unicode_len();
    let mut v: Vec<char> = Vec::new();
    let mut i: usize = 0;
    while i < n
        invariant
            n == s@.len(),
            i <= n,
            v@ =~= s@.subrange(0, i as int),
        decreases n - i,
    {
        v.push(s.get_char(i));
        proof {
            assert(v@ =~= s@.subrange(0, i as int + 1));
        }
        i = i + 1;
    }
    proof {
        assert(v@ =~= s@);
    }
    v
}

/// The bounding box of a multi-line string: the longest line and the
/// line count, each squeezed into grid range.
pub fn calculated_string_box_size(string: &str) -> (size: (u16, u16))
    ensures
        size.0 == clamp_u16(spec_box_width(string@)),
        size.1 == clamp_u16(spec_box_height(string@)),
{
    let chars = str_to_chars(string);
    let n = chars.len();
    let mut cur: usize = 0;
    let mut width: usize = 0;
    let mut height: usize = 0;
    let mut i: usize = 0;
    while i < n
        invariant
            chars@ == string@,
            n == chars@.len(),
            i <= n,
            (cur as int, width as int, height as int) == box_scan(string@, i as int),
            cur + height <= i && width <= i,
        decreases n - i,
    {
        if chars[i] == '\n' {
            if cur > width {
                width = cur;
            }
            cur = 0;
            height = height + 1;
        } else {
            cur = cur + 1;
        }
        i = i + 1;
    }
    let final_width: usize = if cur > width {
        cur
    } else {
        width
    };
    let final_height: usize = if cur > 0 {
        height + 1
    } else {
        height
    };
    let w16: u16 = if final_width > 0xffff {
        0xffff
    } else {
        final_width as u16
    };
    let h16: u16 = if final_height > 0xffff {
        0xffff
    } else {
        final_height as u16
    };
    (w16, h16)
}

/// The top-left offset an alignment gives a `width` by `height` box
/// inside a grid: flush at the named edges, centered otherwise.
pub open spec fn spec_aligned_offset(
    alignment: Alignment,
    width: u16,
    height: u16,
    cell_matrix_width: u16,
    cell_matrix_height: u16,
) -> (u16, u16)
    recommends
        width <= cell_matrix_width,
        height <= cell_matrix_height,
{
    let x = match alignment {
        Alignment::TopLeft | Alignment::CenterLeft | Alignment::BottomLeft => 0,
        Alignment::Top | Alignment::Center | Alignment::Bottom => (cell_matrix_width - width) as int
            / 2,
        Alignment::TopRight | Alignment::CenterRight | Alignment::BottomRight => (cell_matrix_width
            - width) as int,
    };
    let y = match alignment {
        Alignment::TopLeft | Alignment::Top | Alignment::TopRight => 0,
        Alignment::CenterLeft | Alignment::Center | Alignment::CenterRight => (cell_matrix_height
            - height) as int / 2,
        Alignment::BottomLeft | Alignment::Bottom | Alignment::BottomRight => (cell_matrix_height
            - height) as int,
    };
    (x as u16, y as u16)
}

/// The aligned top-left corner of a text box inside the grid.
pub fn calculated_aligned_offset(
    alignment: Alignment,
    width: u16,
    height: u16,
    cell_matrix_width: u16,
    cell_matrix_height: u16,
) -> (offset: (u16, u16))
    requires
        width <= cell_matrix_width,
        height <= cell_matrix_height,
    ensures
        offset == spec_aligned_offset(alignment, width, height, cell_matrix_width,
        cell_matrix_height),
{
    let x_offset: u16 = match alignment {
        Alignment::TopLeft | Alignment::CenterLeft | Alignment::BottomLeft => 0,
        Alignment::Top | Alignment::Center | Alignment::Bottom => (cell_matrix_width - width) / 2,
        Alignment::TopRight | Alignment::CenterRight | Alignment::BottomRight => cell_matrix_width
            - width,
    };
    let y_offset: u16 = match alignment {
        Alignment::TopLeft | Alignment::Top | Alignment::TopRight => 0,
        Alignment::CenterLeft | Alignment::Center | Alignment::CenterRight => (cell_matrix_height
            - height) / 2,
        Alignment::BottomLeft | Alignment::Bottom | Alignment::BottomRight => cell_matrix_height
            - height,
    };
    (x_offset, y_offset)
}

/// `piece`, `count` times over.
pub fn repeat_str(piece: &str, count: usize) -> (s: String)
    ensures
        s@.len() == piece@.len() * count,
        forall|i: int|
            0 <= i < count ==> s@.subrange(
                #[trigger] (i * piece@.len()),
                (i + 1) * piece@.len(),
            ) =~= piece@,
{
    let mut s = String::new();
    let mut k: usize = 0;
    while k < count
        invariant
            k <= count,
            s@.len() == piece@.len() * k,
            forall|i: int|
                0 <= i < k ==> s@.subrange(
                    #[trigger] (i * piece@.len()),
                    (i + 1) * piece@.len(),
                ) =~= piece@,
        decreases count - k,
    {
        let ghost prev = s@;
        s.append(piece);
        proof {
            let pl = piece@.len() as int;
            assert(s@.len() == pl * (k + 1)) by (nonlinear_arith)
                requires
                    s@.len() == prev.len() + pl,
                    prev.len() == pl * k,
            ;
            assert forall|i: int|
                0 <= i < k + 1 implies s@.subrange(#[trigger] (i * pl), (i + 1) * pl)
                    =~= piece@ by {
                assert(0 <= i * pl && (i + 1) * pl <= s@.len()) by (nonlinear_arith)
                    requires
                        0 <= i < k + 1,
                        s@.len() == pl * (k + 1),
                        pl >= 0,
                ;
                assert((i + 1) * pl == i * pl + pl) by (nonlinear_arith);
                if i < k {
                    assert((i + 1) * pl <= prev.len()) by (nonlinear_arith)
                        requires
                            0 <= i < k,
                            prev.len() == pl * k,
                            pl >= 0,
                    ;
                    assert(prev.subrange(i * pl, (i + 1) * pl) =~= piece@);
                    assert(s@.subrange(i * pl, (i + 1) * pl) =~= prev.subrange(
                        i * pl,
                        (i + 1) * pl,
                    ));
                } else {
                    assert(i * pl == prev.len()) by (nonlinear_arith)
                        requires
                            i == k,
                            prev.len() == pl * k,
                    ;
                    assert(s@.subrange(i * pl, (i + 1) * pl) =~= piece@);
                }
            }
        }
        k = k + 1;
    }
    s
}

} // verus!
