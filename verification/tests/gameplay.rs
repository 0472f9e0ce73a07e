use snake_game::cell::{Cell, CellType};
use snake_game::color::Color;
use snake_game::events::Event;
use snake_game::fruit::Fruit;
use snake_game::gameplay_context::GameplayContext;
use snake_game::gameplay_scene::build_gameplay_scene;
use snake_game::input::Key;
use snake_game::snake::{Direction, INITIAL_SNAKE_LENGTH};
use snake_game::vector::Vector;

const STEP_US: u64 = 100000;

#[test]
fn first_update_consumes_the_new_game_flag_without_input() {
    let mut scene = build_gameplay_scene(80, 45);
    let ctx = GameplayContext::new();
    assert!(ctx.start_new_game());

    let r = scene.update(Some(Key::Left), 0, STEP_US, ctx);
    assert_eq!(r.event(), Event::Nothing);
    assert!(!r.gameplay_context().start_new_game());
    assert_eq!(r.gameplay_context().score(), 0);

    // a fresh snake stands at the grid center, facing up, untouched
    // by the key pressed on the initialization tick
    assert_eq!(scene.snake.body.len(), INITIAL_SNAKE_LENGTH as usize);
    assert_eq!(scene.snake.body[0], Vector::new(40, 22));
    assert_eq!(scene.snake.direction(), Direction::Up);
    assert_eq!(scene.score(), 0);
    let fruit_pos = scene.fruit.position.unwrap();
    assert!(1 <= fruit_pos.x && fruit_pos.x < 79);
    assert!(1 <= fruit_pos.y && fruit_pos.y < 43);
}

#[test]
fn escape_pauses_without_moving() {
    let mut scene = build_gameplay_scene(80, 45);
    let ctx = GameplayContext::new();
    let ctx = scene.update(None, 0, 0, ctx).gameplay_context();

    let r = scene.update(Some(Key::Esc), 0, STEP_US, ctx);
    assert_eq!(r.event(), Event::Pause);
    assert_eq!(r.gameplay_context(), ctx);
    assert_eq!(scene.snake.body[0], Vector::new(40, 22));
}

#[test]
fn eating_a_fruit_grows_scores_and_replaces_the_fruit() {
    let mut scene = build_gameplay_scene(80, 45);
    let ctx = GameplayContext::new();
    let ctx = scene.update(None, 0, 0, ctx).gameplay_context();

    // put a fruit directly above the head
    scene.cell_matrix.set_cell(
        &Vector::new(40, 21),
        Cell::new('■', Color::Black.to_rgb(), Color::Red.to_rgb(), CellType::Fruit),
    );

    let r = scene.update(None, 0, STEP_US, ctx);
    assert_eq!(r.event(), Event::Nothing);
    assert_eq!(r.gameplay_context().score(), 1);
    assert_eq!(scene.score(), 1);
    assert_eq!(scene.snake.body.len(), 3);
    assert_eq!(scene.snake.body[0], Vector::new(40, 20));

    // a replacement fruit sits on a cell that is blank right now
    let new_fruit = scene.fruit.position.unwrap();
    assert_eq!(
        scene.cell_matrix.get_cell(&new_fruit).unwrap().cell_type,
        CellType::Empty
    );
    assert!(1 <= new_fruit.x && new_fruit.x < 79);
    assert!(1 <= new_fruit.y && new_fruit.y < 43);
}

#[test]
fn hitting_a_solid_cell_ends_the_game_with_the_score_kept() {
    let mut scene = build_gameplay_scene(80, 45);
    let ctx = GameplayContext::new();
    let ctx = scene.update(None, 0, 0, ctx).gameplay_context();

    // eat one fruit planted above the head
    scene.cell_matrix.set_cell(
        &Vector::new(40, 21),
        Cell::new('■', Color::Black.to_rgb(), Color::Red.to_rgb(), CellType::Fruit),
    );
    let ctx = scene.update(None, 0, STEP_US, ctx).gameplay_context();
    assert_eq!(ctx.score(), 1);

    // drop the random replacement fruit so it cannot repaint the
    // barrier, then wall the snake in
    scene.fruit = Fruit::none();
    scene.cell_matrix.set_cell(&Vector::new(40, 19), Cell::new_colorless('━'));

    let r = scene.update(None, 0, STEP_US, ctx);
    assert_eq!(r.event(), Event::End);
    // the score is retained in the returned context
    assert_eq!(r.gameplay_context().score(), 1);
}

#[test]
fn running_into_the_border_wall_ends_the_game() {
    let mut scene = build_gameplay_scene(80, 45);
    let ctx = GameplayContext::new();
    let mut ctx = scene.update(None, 0, 0, ctx).gameplay_context();
    scene.fruit = Fruit::none();

    // the head starts at y = 22 and the top border sits at y = 0
    let mut ended = false;
    for _ in 0..22 {
        let r = scene.update(None, 0, STEP_US, ctx);
        ctx = r.gameplay_context();
        if r.event() == Event::End {
            ended = true;
            break;
        }
    }
    assert!(ended);
    assert_eq!(scene.snake.body[0], Vector::new(40, 0));
    assert_eq!(ctx.score(), 0);
}

#[test]
fn a_no_step_tick_changes_nothing_observable() {
    let mut scene = build_gameplay_scene(80, 45);
    let ctx = GameplayContext::new();
    let ctx = scene.update(None, 0, 0, ctx).gameplay_context();

    let before_head = scene.snake.body[0];
    let r = scene.update(Some(Key::Left), 0, 10, ctx);
    assert_eq!(r.event(), Event::Nothing);
    assert_eq!(r.gameplay_context(), ctx);
    assert_eq!(scene.snake.body[0], before_head);
    // the turn itself is applied even without a step
    assert_eq!(scene.snake.direction(), Direction::Left);
}

#[test]
fn the_status_texts_show_the_rate_and_the_score() {
    let mut scene = build_gameplay_scene(80, 45);
    let ctx = GameplayContext::new();
    let ctx = scene.update(None, 0, 0, ctx).gameplay_context();

    // one tick at 59.99 frames per second refreshes the rate text
    let _ = scene.update(None, 5999, 10, ctx);
    let fps = scene
        .texts
        .iter()
        .find(|t| t.ui_element.name == "fps")
        .unwrap();
    assert_eq!(fps.string, "059.99");

    // eating a fruit refreshes the zero-padded score text
    scene.cell_matrix.set_cell(
        &Vector::new(40, 21),
        Cell::new('■', Color::Black.to_rgb(), Color::Red.to_rgb(), CellType::Fruit),
    );
    let _ = scene.update(None, 0, STEP_US, ctx);
    let score = scene
        .texts
        .iter()
        .find(|t| t.ui_element.name == "score")
        .unwrap();
    assert_eq!(score.string, "0000000001");
}

#[test]
fn readiness_check_rejects_a_step_off_the_grid() {
    let mut scene = build_gameplay_scene(80, 45);
    let ctx = GameplayContext::new();
    let mut ctx = scene.update(None, 0, 0, ctx).gameplay_context();
    assert!(scene.update_ready(None, STEP_US, ctx));

    // drive the snake onto the top border; the game ends there
    scene.fruit = Fruit::none();
    for _ in 0..22 {
        let r = scene.update(None, 0, STEP_US, ctx);
        ctx = r.gameplay_context();
        if r.event() == Event::End {
            break;
        }
    }
    assert_eq!(scene.snake.body[0], Vector::new(40, 0));
    // one more due step would leave the grid upward
    assert!(!scene.update_ready(None, STEP_US, ctx));
    // a turn away from the edge is fine again
    assert!(scene.update_ready(Some(Key::Left), STEP_US, ctx));
}
