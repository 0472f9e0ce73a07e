use snake_game::cell::{Cell, CellType};
use snake_game::cell_matrix::CellMatrix;
use snake_game::color::Color;
use snake_game::fruit::Fruit;
use snake_game::input::Key;
use snake_game::snake::{Direction, Snake, INITIAL_SNAKE_LENGTH};
use snake_game::vector::Vector;
use snake_game::wall::Wall;
use snake_game::world::generate_walls;

#[test]
fn snake_starts_stacked_downward_facing_up() {
    let s = Snake::new(&Vector::new(5, 5), 10);
    assert_eq!(s.body.len(), INITIAL_SNAKE_LENGTH as usize);
    assert_eq!(s.body[0], Vector::new(5, 5));
    assert_eq!(s.body[1], Vector::new(5, 6));
    assert_eq!(s.direction(), Direction::Up);
}

#[test]
fn one_step_moves_head_one_cell_and_keeps_length() {
    let mut s = Snake::new(&Vector::new(5, 5), 10);
    // 10 cells per second: one step per 100000 microseconds
    let head = s.move_forward(100000);
    assert_eq!(head, Some(Vector::new(5, 4)));
    assert_eq!(s.body.len(), 2);
    assert_eq!(s.body[0], Vector::new(5, 4));
    assert_eq!(s.body[1], Vector::new(5, 5));
}

#[test]
fn below_threshold_accumulates_without_stepping() {
    let mut s = Snake::new(&Vector::new(5, 5), 10);
    assert_eq!(s.move_forward(99999), None);
    assert_eq!(s.body[0], Vector::new(5, 5));
    // one more microsecond crosses the threshold
    let head = s.move_forward(1);
    assert_eq!(head, Some(Vector::new(5, 4)));
}

#[test]
fn a_step_discards_the_fractional_overshoot() {
    let mut s = Snake::new(&Vector::new(5, 5), 10);
    let head = s.move_forward(250000);
    assert_eq!(head, Some(Vector::new(5, 4)));
    assert_eq!(s.movement_accumulator, 0);
    // the 150000 microseconds of overshoot are gone
    assert_eq!(s.move_forward(50000), None);
}

#[test]
fn placeholder_snake_never_steps() {
    let mut s = Snake::none();
    assert_eq!(s.move_forward(u64::MAX), None);
    assert_eq!(s.move_forward(u64::MAX), None);
}

#[test]
fn grow_prepends_the_head_a_step_would_produce() {
    let mut s = Snake::new(&Vector::new(5, 5), 10);
    let head = s.move_forward(100000).unwrap();
    assert_eq!(head, Vector::new(5, 4));
    s.grow();
    assert_eq!(s.body.len(), 3);
    assert_eq!(s.body[0], Vector::new(5, 3));
    assert_eq!(s.body[1], Vector::new(5, 4));
}

#[test]
fn reversal_is_ignored_and_other_arrows_turn() {
    let mut s = Snake::new(&Vector::new(5, 5), 10);
    assert_eq!(s.direction(), Direction::Up);
    s.update(Some(Key::Down));
    assert_eq!(s.direction(), Direction::Up);
    s.update(Some(Key::Left));
    assert_eq!(s.direction(), Direction::Left);
    s.update(Some(Key::Right));
    assert_eq!(s.direction(), Direction::Left);
    s.update(Some(Key::Up));
    assert_eq!(s.direction(), Direction::Up);
    s.update(Some(Key::Right));
    assert_eq!(s.direction(), Direction::Right);
    s.update(None);
    assert_eq!(s.direction(), Direction::Right);
    s.update(Some(Key::Esc));
    assert_eq!(s.direction(), Direction::Right);
}

#[test]
fn snake_render_paints_snake_cells_and_erases_the_tail_once() {
    let mut s = Snake::new(&Vector::new(2, 2), 10);
    let mut m = CellMatrix::new(6, 6);
    let _ = m.take_diff();
    s.render(&mut m);
    assert_eq!(m.get_cell(&Vector::new(2, 2)).unwrap().cell_type, CellType::Snake);
    assert_eq!(m.get_cell(&Vector::new(2, 3)).unwrap().cell_type, CellType::Snake);
    let _ = s.move_forward(100000);
    s.render(&mut m);
    // the vacated tail cell was blanked
    assert_eq!(m.get_cell(&Vector::new(2, 3)).unwrap().cell_type, CellType::Empty);
    assert_eq!(m.get_cell(&Vector::new(2, 1)).unwrap().cell_type, CellType::Snake);
}

#[test]
fn fruit_lands_on_a_blank_cell_inside_the_area() {
    let m = CellMatrix::new(12, 12);
    let f = Fruit::new(&m, &Vector::new(1, 1), &Vector::new(11, 11));
    let p = f.position.unwrap();
    assert!(1 <= p.x && p.x < 11);
    assert!(1 <= p.y && p.y < 11);
    assert_eq!(m.get_cell(&p).unwrap().cell_type, CellType::Empty);
    assert_eq!(f.cell_group.entries.len(), 1);
    assert_eq!(f.cell_group.entries[0].1.cell_type, CellType::Fruit);
}

#[test]
fn fruit_avoids_occupied_cells() {
    let mut m = CellMatrix::new(5, 5);
    // fill the whole 3x3 area except one cell
    for y in 1..4u16 {
        for x in 1..4u16 {
            if !(x == 2 && y == 3) {
                m.set_cell(&Vector::new(x, y), Cell::new_colorless('#'));
            }
        }
    }
    let f = Fruit::new(&m, &Vector::new(1, 1), &Vector::new(4, 4));
    assert_eq!(f.position, Some(Vector::new(2, 3)));
}

#[test]
fn fruit_on_a_saturated_area_is_not_placed() {
    let mut m = CellMatrix::new(4, 4);
    m.set_cell(&Vector::new(1, 1), Cell::new_colorless('#'));
    let f = Fruit::new(&m, &Vector::new(1, 1), &Vector::new(2, 2));
    assert_eq!(f.position, None);
    assert!(f.cell_group.entries.is_empty());
}

#[test]
fn wall_outlines_the_rectangle() {
    let mut w = Wall::new(6, 4);
    let mut m = CellMatrix::new(6, 5);
    let _ = m.take_diff();
    w.render(&mut m);
    assert_eq!(m.get_cell(&Vector::new(0, 0)).unwrap().glyph, '┏');
    assert_eq!(m.get_cell(&Vector::new(5, 0)).unwrap().glyph, '┓');
    assert_eq!(m.get_cell(&Vector::new(0, 3)).unwrap().glyph, '┗');
    assert_eq!(m.get_cell(&Vector::new(5, 3)).unwrap().glyph, '┛');
    assert_eq!(m.get_cell(&Vector::new(2, 0)).unwrap().glyph, '━');
    assert_eq!(m.get_cell(&Vector::new(2, 3)).unwrap().glyph, '━');
    assert_eq!(m.get_cell(&Vector::new(0, 2)).unwrap().glyph, '┃');
    assert_eq!(m.get_cell(&Vector::new(5, 2)).unwrap().glyph, '┃');
    assert_eq!(m.get_cell(&Vector::new(0, 0)).unwrap().cell_type, CellType::Solid);
    assert_eq!(m.get_cell(&Vector::new(2, 2)).unwrap().cell_type, CellType::Empty);
    // row 4 lies below the frame and stays blank
    assert_eq!(m.get_cell(&Vector::new(0, 4)).unwrap().cell_type, CellType::Empty);
}

#[test]
fn generate_walls_writes_the_frame_into_the_matrix() {
    let mut m = CellMatrix::new(5, 4);
    generate_walls(&mut m, 5, 4);
    assert_eq!(m.get_cell(&Vector::new(0, 0)).unwrap().glyph, '┏');
    assert_eq!(m.get_cell(&Vector::new(4, 3)).unwrap().glyph, '┛');
    assert_eq!(m.get_cell(&Vector::new(2, 0)).unwrap().glyph, '━');
    assert_eq!(m.get_cell(&Vector::new(0, 2)).unwrap().glyph, '┃');
    assert_eq!(m.get_cell(&Vector::new(2, 2)).unwrap().cell_type, CellType::Empty);
}

#[test]
fn snake_body_shading_follows_the_pattern() {
    assert_eq!(snake_game::snake::body_glyph(0), '█');
    assert_eq!(snake_game::snake::body_glyph(1), '▓');
    assert_eq!(snake_game::snake::body_glyph(2), '▒');
    assert_eq!(snake_game::snake::body_glyph(3), '░');
    assert_eq!(snake_game::snake::body_glyph(4), '░');
    assert_eq!(snake_game::snake::body_glyph(7), '█');
    assert_eq!(snake_game::snake::body_glyph(8), '█');
}

#[test]
fn fruit_cell_uses_the_fruit_glyph_and_colors() {
    let m = CellMatrix::new(10, 10);
    let f = Fruit::new(&m, &Vector::new(1, 1), &Vector::new(9, 9));
    let cell = f.cell_group.entries[0].1;
    assert_eq!(cell.glyph, '■');
    assert_eq!(cell.bg_color, Color::Black.to_rgb());
    assert_eq!(cell.fg_color, Color::Red.to_rgb());
}
