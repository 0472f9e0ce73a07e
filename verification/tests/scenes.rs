use snake_game::chronometer::Chronometer;
use snake_game::events::Event;
use snake_game::gameplay_context::GameplayContext;
use snake_game::gameplay_scene::build_gameplay_scene;
use snake_game::input::Key;
use snake_game::scene::UpdateResult;
use snake_game::scene_manager::{Scene, SceneManager};
use snake_game::state_machine::Event as StateEvent;
use snake_game::state_machine::State;
use snake_game::ui_scene::{build_game_over_scene, build_main_menu_scene, build_paused_scene};

#[test]
fn chronometer_gates_frames_at_the_target_rate() {
    let mut c = Chronometer::new(256);
    assert_eq!(c.frame_duration_us, 3906);
    assert!(!c.update(0));
    assert!(!c.update(3905));
    assert!(c.update(3906));
    assert_eq!(c.real_frame_duration_us(), 3906);
    assert_eq!(c.current_fps_centi(), 100000000 / 3906);
    assert!(!c.update(3906 + 100));
    assert!(c.update(3906 + 5000));
    assert_eq!(c.real_frame_duration_us(), 5000);
    assert_eq!(c.current_fps_centi(), 20000);
}

#[test]
fn state_machine_follows_the_table() {
    assert_eq!(State::MainMenu.transition(StateEvent::Start), State::Starting);
    assert_eq!(State::Starting.transition(StateEvent::Nothing), State::Gameplay);
    assert_eq!(State::Gameplay.transition(StateEvent::Pause), State::Paused);
    assert_eq!(State::Paused.transition(StateEvent::Resume), State::Gameplay);
    assert_eq!(State::Gameplay.transition(StateEvent::End), State::GameOver);
    assert_eq!(State::Paused.transition(StateEvent::End), State::GameOver);
    assert_eq!(State::GameOver.transition(StateEvent::GoToMenu), State::MainMenu);
    assert_eq!(State::Paused.transition(StateEvent::Exit), State::Exit);
    assert_eq!(State::MainMenu.transition(StateEvent::Resume), State::Invalid);
}

#[test]
fn gameplay_context_carries_score_and_flag() {
    let c = GameplayContext::new();
    assert_eq!(c.score(), 0);
    assert!(c.start_new_game());
    let c2 = GameplayContext::new_game_started(c);
    assert!(!c2.start_new_game());
    assert_eq!(c2.score(), 0);
    let c3 = GameplayContext::new_incremented(c2);
    assert_eq!(c3.score(), 1);
    assert!(!c3.start_new_game());
    let mut c4 = c3;
    c4.reset();
    assert_eq!(c4.score(), 0);
    assert!(c4.start_new_game());
}

#[test]
fn menu_selection_moves_and_enter_raises_the_buttons_event() {
    let mut menu = build_main_menu_scene(80, 45);
    let ctx = GameplayContext::new();
    assert_eq!(menu.selector.selected_index, 0);

    let r = menu.update(Some(Key::Down), ctx);
    assert_eq!(r.event(), Event::Nothing);
    assert_eq!(menu.selector.selected_index, 1);

    let r = menu.update(Some(Key::Enter), ctx);
    assert_eq!(r.event(), Event::Exit);

    let r = menu.update(Some(Key::Up), ctx);
    assert_eq!(r.event(), Event::Nothing);
    assert_eq!(menu.selector.selected_index, 0);

    let r = menu.update(Some(Key::Enter), ctx);
    assert_eq!(r.event(), Event::Start);

    // moving past the ends stays put
    let r = menu.update(Some(Key::Up), ctx);
    assert_eq!(r.event(), Event::Nothing);
    assert_eq!(menu.selector.selected_index, 0);
}

#[test]
fn paused_and_game_over_scenes_raise_their_events() {
    let ctx = GameplayContext::new();

    let mut paused = build_paused_scene(80, 45);
    assert_eq!(paused.update(Some(Key::Enter), ctx).event(), Event::Resume);
    let _ = paused.update(Some(Key::Down), ctx);
    assert_eq!(paused.update(Some(Key::Enter), ctx).event(), Event::Restart);
    let _ = paused.update(Some(Key::Down), ctx);
    assert_eq!(paused.update(Some(Key::Enter), ctx).event(), Event::End);

    let mut over = build_game_over_scene(80, 45);
    assert_eq!(over.update(Some(Key::Enter), ctx).event(), Event::Restart);
    let _ = over.update(Some(Key::Down), ctx);
    assert_eq!(over.update(Some(Key::Enter), ctx).event(), Event::GoToMenu);
}

fn manager_with_all_scenes() -> SceneManager {
    let mut manager = SceneManager::new();
    manager.add_scene(Scene::Ui(build_main_menu_scene(80, 45)));
    manager.add_scene(Scene::Gameplay(build_gameplay_scene(80, 45)));
    manager.add_scene(Scene::Ui(build_paused_scene(80, 45)));
    manager.add_scene(Scene::Ui(build_game_over_scene(80, 45)));
    manager
}

#[test]
fn scene_switch_round_trip_restores_the_first_scene() {
    let mut manager = manager_with_all_scenes();
    manager.set_current_scene("main_menu");
    assert_eq!(manager.current_scene.as_ref().unwrap().name(), "main_menu");
    assert_eq!(manager.scenes.len(), 3);

    manager.set_current_scene("gameplay");
    assert_eq!(manager.current_scene.as_ref().unwrap().name(), "gameplay");
    let parked: Vec<String> = manager.scenes.iter().map(|s| s.name()).collect();
    assert!(parked.contains(&"main_menu".to_string()));
    assert!(!parked.contains(&"gameplay".to_string()));

    manager.set_current_scene("main_menu");
    assert_eq!(manager.current_scene.as_ref().unwrap().name(), "main_menu");
    let parked: Vec<String> = manager.scenes.iter().map(|s| s.name()).collect();
    assert!(parked.contains(&"gameplay".to_string()));
    assert!(!parked.contains(&"main_menu".to_string()));
    assert_eq!(manager.scenes.len(), 3);
}

#[test]
fn switching_to_an_unknown_scene_changes_nothing() {
    let mut manager = manager_with_all_scenes();
    manager.set_current_scene("main_menu");
    manager.set_current_scene("lobby");
    assert_eq!(manager.current_scene.as_ref().unwrap().name(), "main_menu");
    assert_eq!(manager.scenes.len(), 3);
}

#[test]
fn events_drive_the_transition_table() {
    let mut manager = manager_with_all_scenes();
    manager.set_current_scene("main_menu");

    let ctx = manager.gameplay_context();
    manager.handle_update_result(UpdateResult::new(Event::Start, ctx));
    assert_eq!(manager.current_scene.as_ref().unwrap().name(), "gameplay");
    assert_eq!(manager.gameplay_context().score(), 0);
    assert!(manager.gameplay_context().start_new_game());

    let played = GameplayContext::new_incremented(GameplayContext::new_game_started(ctx));
    manager.handle_update_result(UpdateResult::new(Event::Pause, played));
    assert_eq!(manager.current_scene.as_ref().unwrap().name(), "paused");
    assert_eq!(manager.gameplay_context().score(), 1);

    manager.handle_update_result(UpdateResult::new(Event::Resume, played));
    assert_eq!(manager.current_scene.as_ref().unwrap().name(), "gameplay");

    manager.handle_update_result(UpdateResult::new(Event::End, played));
    assert_eq!(manager.current_scene.as_ref().unwrap().name(), "game_over");
    // the score is retained for display
    assert_eq!(manager.gameplay_context().score(), 1);

    manager.handle_update_result(UpdateResult::new(Event::GoToMenu, played));
    assert_eq!(manager.current_scene.as_ref().unwrap().name(), "main_menu");

    manager.handle_update_result(UpdateResult::new(Event::Restart, played));
    assert_eq!(manager.current_scene.as_ref().unwrap().name(), "gameplay");
    assert!(manager.gameplay_context().start_new_game());
    assert_eq!(manager.gameplay_context().score(), 0);

    assert!(!manager.exit());
    manager.handle_update_result(UpdateResult::new(Event::Exit, played));
    assert!(manager.exit());
    assert_eq!(manager.current_scene.as_ref().unwrap().name(), "gameplay");
}

#[test]
fn ending_a_game_shows_the_final_score_on_the_game_over_screen() {
    let mut manager = manager_with_all_scenes();
    manager.set_current_scene("gameplay");

    let played = GameplayContext::new_incremented(GameplayContext::new_game_started(
        GameplayContext::new(),
    ));
    manager.handle_update_result(UpdateResult::new(Event::End, played));

    let over = manager.current_scene.as_ref().unwrap();
    assert_eq!(over.name(), "game_over");
    match over {
        Scene::Ui(scene) => {
            let shown = scene
                .texts
                .iter()
                .find(|t| t.ui_element.name == "score")
                .unwrap();
            assert_eq!(shown.string, "0000000001");
        }
        Scene::Gameplay(_) => panic!("the game-over screen is a menu scene"),
    }
}
