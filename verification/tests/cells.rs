use snake_game::cell::{Cell, CellType};
use snake_game::cell_group::CellGroup;
use snake_game::cell_matrix::CellMatrix;
use snake_game::color::{Color, Rgb};
use snake_game::dec::{centi_string, dec_string, zero_padded_decimal};
use snake_game::vector::Vector;

#[test]
fn set_then_get_returns_written_cell() {
    let mut m = CellMatrix::new(10, 5);
    let cell = Cell::new('x', Color::Blue.to_rgb(), Color::Yellow.to_rgb(), CellType::Snake);
    m.set_cell(&Vector::new(3, 2), cell);
    let got = m.get_cell(&Vector::new(3, 2)).copied();
    assert_eq!(got, Some(cell));
}

#[test]
fn out_of_bounds_write_is_noop_and_read_is_absent() {
    let mut m = CellMatrix::new(4, 3);
    let before = m.cells.clone();
    let diff_before = m.diff.len();
    let cell = Cell::new_colorless('#');
    m.set_cell(&Vector::new(4, 0), cell);
    m.set_cell(&Vector::new(0, 3), cell);
    m.set_cell(&Vector::new(65535, 65535), cell);
    assert_eq!(m.cells, before);
    assert_eq!(m.diff.len(), diff_before);
    assert!(m.get_cell(&Vector::new(4, 0)).is_none());
    assert!(m.get_cell(&Vector::new(0, 3)).is_none());
    assert!(m.get_cell(&Vector::new(3, 2)).is_some());
}

#[test]
fn clear_blanks_every_cell_and_queues_one_write_per_cell() {
    let mut m = CellMatrix::new(4, 3);
    let _ = m.take_diff();
    m.set_cell(&Vector::new(1, 1), Cell::new_colorless('#'));
    let _ = m.take_diff();
    m.clear();
    let diff = m.take_diff();
    assert_eq!(diff.len(), 12);
    for (pos, cell) in &diff {
        assert_eq!(cell.cell_type, CellType::Empty);
        assert_eq!(*cell, Cell::new_empty());
        assert!(pos.x < 4 && pos.y < 3);
    }
    for y in 0..3u16 {
        for x in 0..4u16 {
            let got = m.get_cell(&Vector::new(x, y)).unwrap();
            assert_eq!(got.cell_type, CellType::Empty);
            assert_eq!(got.glyph, ' ');
        }
    }
}

#[test]
fn fresh_matrix_queues_a_full_first_paint() {
    let mut m = CellMatrix::new(3, 2);
    let diff = m.take_diff();
    assert_eq!(diff.len(), 6);
    assert_eq!(diff[0].0, Vector::new(0, 0));
    assert_eq!(diff[1].0, Vector::new(1, 0));
    assert_eq!(diff[2].0, Vector::new(2, 0));
    assert_eq!(diff[3].0, Vector::new(0, 1));
    let empty = m.take_diff();
    assert!(empty.is_empty());
}

#[test]
fn diff_queue_is_first_in_first_out_and_delivered_once() {
    let mut m = CellMatrix::new(5, 5);
    let _ = m.take_diff();
    let a = Cell::new_colorless('a');
    let b = Cell::new_colorless('b');
    m.set_cell(&Vector::new(1, 0), a);
    m.set_cell(&Vector::new(2, 0), b);
    let diff = m.take_diff();
    assert_eq!(diff, vec![(Vector::new(1, 0), a), (Vector::new(2, 0), b)]);
    assert!(m.take_diff().is_empty());
}

#[test]
fn clear_type_blanks_only_that_kind() {
    let mut m = CellMatrix::new(3, 1);
    m.set_cell(&Vector::new(0, 0), Cell::new('s', Color::Black.to_rgb(), Color::Green.to_rgb(), CellType::Snake));
    m.set_cell(&Vector::new(1, 0), Cell::new_colorless('w'));
    m.clear_type(CellType::Snake);
    assert_eq!(m.get_cell(&Vector::new(0, 0)).unwrap().cell_type, CellType::Empty);
    assert_eq!(m.get_cell(&Vector::new(1, 0)).unwrap().cell_type, CellType::Solid);
}

#[test]
fn cell_to_string_is_the_exact_escape_sequence() {
    let cell = Cell::new('A', Rgb::new(0, 0, 0), Rgb::new(255, 255, 255), CellType::Solid);
    let s = cell.to_string(&Vector::new(0, 0));
    assert_eq!(s, "\u{1b}[1;1H\u{1b}[48;2;0;0;0m\u{1b}[38;2;255;255;255mA\u{1b}[39m");

    let cell2 = Cell::new('■', Rgb::new(1, 2, 3), Rgb::new(10, 20, 30), CellType::Fruit);
    let s2 = cell2.to_string(&Vector::new(12, 7));
    assert_eq!(s2, "\u{1b}[8;13H\u{1b}[48;2;1;2;3m\u{1b}[38;2;10;20;30m■\u{1b}[39m");
}

#[test]
fn flush_strings_renders_each_queued_write() {
    let mut m = CellMatrix::new(2, 1);
    let _ = m.take_diff();
    m.set_cell(&Vector::new(1, 0), Cell::new('z', Rgb::new(0, 0, 0), Rgb::new(255, 255, 255), CellType::Solid));
    let out = m.flush_strings();
    assert_eq!(out.len(), 1);
    assert_eq!(out[0], "\u{1b}[1;2H\u{1b}[48;2;0;0;0m\u{1b}[38;2;255;255;255mz\u{1b}[39m");
    assert!(m.flush_strings().is_empty());
}

#[test]
fn decimal_rendering_is_exact() {
    assert_eq!(dec_string(0), "0");
    assert_eq!(dec_string(907), "907");
    assert_eq!(zero_padded_decimal(42, 10), "0000000042");
    assert_eq!(zero_padded_decimal(1234567890123, 10), "1234567890123");
    assert_eq!(centi_string(5999), "059.99");
    assert_eq!(centi_string(0), "000.00");
    assert_eq!(centi_string(123456), "1234.56");
}

#[test]
fn cell_group_overwrites_by_position_and_prunes_empties() {
    let mut g = CellGroup::new();
    let p = Vector::new(2, 2);
    g.set_cell(p, Cell::new_colorless('a'));
    g.set_cell(p, Cell::new_colorless('b'));
    assert_eq!(g.entries.len(), 1);
    assert_eq!(g.entries[0].1.glyph, 'b');

    let mut m = CellMatrix::new(5, 5);
    let _ = m.take_diff();
    g.set_cell(Vector::new(3, 3), Cell::new_empty());
    g.render(&mut m);
    assert_eq!(m.get_cell(&p).unwrap().glyph, 'b');
    assert_eq!(m.get_cell(&Vector::new(3, 3)).unwrap().cell_type, CellType::Empty);
    // the blank entry was pushed once and then forgotten
    assert_eq!(g.entries.len(), 1);
    assert_eq!(g.entries[0].0, p);
    let diff = m.take_diff();
    assert_eq!(diff.len(), 2);
    // rendering again re-sends only what the group still holds
    g.render(&mut m);
    assert_eq!(m.take_diff().len(), 1);
}

#[test]
fn out_of_bounds_group_entries_are_dropped_silently() {
    let mut g = CellGroup::new();
    g.set_cell(Vector::new(9, 9), Cell::new_colorless('x'));
    let mut m = CellMatrix::new(3, 3);
    let _ = m.take_diff();
    g.render(&mut m);
    assert!(m.take_diff().is_empty());
}
