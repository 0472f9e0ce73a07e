use snake_game::cell::CellType;
use snake_game::cell_matrix::CellMatrix;
use snake_game::color::Color;
use snake_game::events::Event;
use snake_game::text::{calculated_aligned_offset, calculated_string_box_size, repeat_str, Alignment};
use snake_game::ui::button::Button;
use snake_game::ui::text::Text;
use snake_game::ui::ui_element::{calculated_x_offset, calculated_y_offset, Orientation};
use snake_game::vector::{Offset, Vector};

#[test]
fn string_box_size_measures_lines() {
    assert_eq!(calculated_string_box_size(""), (0, 0));
    assert_eq!(calculated_string_box_size("abc"), (3, 1));
    assert_eq!(calculated_string_box_size("a\nbb\nc"), (2, 3));
    // a trailing newline does not open a new line
    assert_eq!(calculated_string_box_size("ab\n"), (2, 1));
    assert_eq!(calculated_string_box_size("\n"), (0, 1));
}

#[test]
fn aligned_offset_centers_and_flushes() {
    assert_eq!(calculated_aligned_offset(Alignment::TopLeft, 4, 2, 10, 8), (0, 0));
    assert_eq!(calculated_aligned_offset(Alignment::Center, 4, 2, 10, 8), (3, 3));
    assert_eq!(calculated_aligned_offset(Alignment::BottomRight, 4, 2, 10, 8), (6, 6));
    assert_eq!(calculated_aligned_offset(Alignment::BottomLeft, 4, 2, 10, 8), (0, 6));
}

#[test]
fn anchor_offsets_use_rounded_up_centers() {
    assert_eq!(calculated_x_offset(&Orientation::TopLeft, &Orientation::TopLeft, 11, 4), 0);
    // grid center 6 minus box center 2
    assert_eq!(calculated_x_offset(&Orientation::Center, &Orientation::Center, 11, 4), 4);
    assert_eq!(calculated_x_offset(&Orientation::TopRight, &Orientation::TopRight, 11, 4), 7);
    // a box wider than the grid is floored at the left edge
    assert_eq!(calculated_x_offset(&Orientation::TopLeft, &Orientation::TopRight, 11, 20), 0);
    assert_eq!(calculated_y_offset(&Orientation::Center, &Orientation::Center, 9, 3), 3);
}

#[test]
fn repeat_str_repeats() {
    assert_eq!(repeat_str("ab", 3), "ababab");
    assert_eq!(repeat_str("━", 4), "━━━━");
    assert_eq!(repeat_str("x", 0), "");
}

#[test]
fn text_lays_its_characters_onto_the_grid() {
    let mut t = Text::new(
        "label".to_string(),
        Offset::new(2, 1),
        Orientation::TopLeft,
        Orientation::TopLeft,
        "hi\nyo".to_string(),
        20,
        10,
        Color::Black.to_rgb(),
        Color::White.to_rgb(),
    );
    assert_eq!(t.name(), "label");
    let mut m = CellMatrix::new(20, 10);
    let _ = m.take_diff();
    t.render(&mut m);
    assert_eq!(m.get_cell(&Vector::new(2, 1)).unwrap().glyph, 'h');
    assert_eq!(m.get_cell(&Vector::new(3, 1)).unwrap().glyph, 'i');
    assert_eq!(m.get_cell(&Vector::new(2, 2)).unwrap().glyph, 'y');
    assert_eq!(m.get_cell(&Vector::new(3, 2)).unwrap().glyph, 'o');
    assert_eq!(m.get_cell(&Vector::new(2, 1)).unwrap().cell_type, CellType::Solid);
    // around the box nothing was painted
    assert_eq!(m.get_cell(&Vector::new(4, 1)).unwrap().cell_type, CellType::Empty);
    assert_eq!(m.get_cell(&Vector::new(1, 1)).unwrap().cell_type, CellType::Empty);
}

#[test]
fn set_string_redraws_the_text() {
    let mut t = Text::new(
        "score".to_string(),
        Offset::zero(),
        Orientation::TopLeft,
        Orientation::TopLeft,
        "00".to_string(),
        20,
        10,
        Color::Black.to_rgb(),
        Color::White.to_rgb(),
    );
    t.set_string("42".to_string());
    let mut m = CellMatrix::new(20, 10);
    t.render(&mut m);
    assert_eq!(m.get_cell(&Vector::new(0, 0)).unwrap().glyph, '4');
    assert_eq!(m.get_cell(&Vector::new(1, 0)).unwrap().glyph, '2');
}

#[test]
fn buttons_pad_their_label_and_swap_colors_on_selection() {
    let mut b = Button::new(
        "start".to_string(),
        Offset::zero(),
        Orientation::TopLeft,
        Orientation::TopLeft,
        "GO".to_string(),
        20,
        10,
        Color::Black.to_rgb(),
        Color::White.to_rgb(),
        Color::White.to_rgb(),
        Color::Black.to_rgb(),
        Event::Start,
    );
    assert_eq!(b.event(), Event::Start);
    assert_eq!(b.text.string, " GO ");
    assert_eq!(b.text.bg_color, Color::Black.to_rgb());
    b.select();
    assert_eq!(b.text.bg_color, Color::White.to_rgb());
    assert_eq!(b.text.fg_color, Color::Black.to_rgb());
    b.deselect();
    assert_eq!(b.text.bg_color, Color::Black.to_rgb());

    let mut m = CellMatrix::new(20, 10);
    b.render(&mut m);
    assert_eq!(m.get_cell(&Vector::new(0, 0)).unwrap().glyph, ' ');
    assert_eq!(m.get_cell(&Vector::new(1, 0)).unwrap().glyph, 'G');
    assert_eq!(m.get_cell(&Vector::new(2, 0)).unwrap().glyph, 'O');
    assert_eq!(m.get_cell(&Vector::new(3, 0)).unwrap().glyph, ' ');
}
