//! The scene manager: every scene of the game, exactly one of them
//! current, the gameplay context carried across transitions, and the
//! event-to-transition table.

use vstd::prelude::*;

use crate::dec::zero_padded_decimal;
use crate::events::Event;
use crate::gameplay_context::GameplayContext;
use crate::gameplay_scene::GameplayScene;
use crate::input::Key;
use crate::scene::UpdateResult;
use crate::ui_scene::UiScene;

verus! {

/// One screen of the game: a menu-style scene or the gameplay scene.
pub enum Scene {
    Ui(UiScene),
    Gameplay(GameplayScene),
}

impl Scene {
    pub open spec fn wf(self) -> bool {
        match self {
            Scene::Ui(s) => s.wf() && s.interactive(),
            Scene::Gameplay(s) => s.wf(),
        }
    }

    pub open spec fn spec_name(self) -> Seq<char> {
        match self {
            Scene::Ui(s) => s.name@,
            Scene::Gameplay(s) => s.name@,
        }
    }

    /// The screen's queued grid writes, oldest first.
    pub open spec fn spec_diff(self) -> Seq<(crate::vector::Vector, crate::cell::Cell)> {
        match self {
            Scene::Ui(s) => s.cell_matrix.diff@,
            Scene::Gameplay(s) => s.cell_matrix.diff@,
        }
    }

    /// Both screens are the same variant and show the same named
    /// texts with the same strings.
    pub open spec fn spec_same_texts(pre: Scene, post: Scene) -> bool {
        match (pre, post) {
            (Scene::Ui(a), Scene::Ui(b)) => b.texts@.len() == a.texts@.len() && (forall|i: int|
                0 <= i < a.texts@.len() ==> (#[trigger] b.texts@[i]).ui_element.name@
                    == a.texts@[i].ui_element.name@ && b.texts@[i].string@ == a.texts@[i].string@),
            (Scene::Gameplay(a), Scene::Gameplay(b)) => b.texts@.len() == a.texts@.len() && (forall|
                i: int,
            |
                0 <= i < a.texts@.len() ==> (#[trigger] b.texts@[i]).ui_element.name@
                    == a.texts@[i].ui_element.name@ && b.texts@[i].string@ == a.texts@[i].string@),
            _ => false,
        }
    }

    /// The screen's grid shows a full redraw of its widgets.
    pub open spec fn spec_fully_drawn(self) -> bool {
        match self {
            Scene::Ui(s) => s.spec_fully_drawn(),
            Scene::Gameplay(s) => s.spec_fully_drawn(),
        }
    }

    /// What the caller must know before a tick: the score can still
    /// grow, and a due snake step stays on the grid.
    pub open spec fn update_safe(
        self,
        pressed_key: Option<Key>,
        frame_us: u64,
        gameplay_context: GameplayContext,
    ) -> bool {
        match self {
            Scene::Ui(_) => true,
            Scene::Gameplay(s) => gameplay_context.score < u32::MAX && (
            !gameplay_context.start_new_game ==> s.tick_steppable(pressed_key, frame_us)),
        }
    }

    pub fn name(&self) -> (n: String)
        ensures
            n@ == self.spec_name(),
    {
        match self {
            Scene::Ui(s) => s.name(),
            Scene::Gameplay(s) => s.name(),
        }
    }

    /// Whether the next tick's requirements hold, so a driving loop
    /// can test them at run time before calling `update`.
    pub fn update_ready(
        &self,
        pressed_key: Option<Key>,
        frame_us: u64,
        gameplay_context: GameplayContext,
    ) -> (b: bool)
        ensures
            b == self.update_safe(pressed_key, frame_us, gameplay_context),
    {
        match self {
            Scene::Ui(_) => true,
            Scene::Gameplay(s) => s.update_ready(pressed_key, frame_us, gameplay_context),
        }
    }

    /// One tick of the current screen.
    pub fn update(
        &mut self,
        pressed_key: Option<Key>,
        fps_centi: u64,
        frame_us: u64,
        gameplay_context: GameplayContext,
    ) -> (r: UpdateResult)
        requires
            old(self).wf(),
            old(self).update_safe(pressed_key, frame_us, gameplay_context),
        ensures
            final(self).wf(),
            final(self).spec_name() == old(self).spec_name(),
            (match (*old(self), *final(self)) {
                (Scene::Ui(pre), Scene::Ui(post)) => UiScene::spec_menu_outcome(
                    pre,
                    pressed_key,
                    gameplay_context,
                    post,
                    r,
                ),
                (Scene::Gameplay(pre), Scene::Gameplay(post)) => GameplayScene::spec_tick_outcome(
                    pre,
                    pressed_key,
                    fps_centi,
                    frame_us,
                    gameplay_context,
                    post,
                    r,
                ),
                _ => false,
            }),
    {
        match self {
            Scene::Ui(s) => s.update(pressed_key, gameplay_context),
            Scene::Gameplay(s) => s.update(pressed_key, fps_centi, frame_us, gameplay_context),
        }
    }

    /// Redraw the screen from scratch.
    pub fn render(&mut self)
        requires
            old(self).wf(),
        ensures
            final(self).wf(),
            final(self).spec_name() == old(self).spec_name(),
            (*final(self)) is Ui <==> (*old(self)) is Ui,
            Self::spec_same_texts(*old(self), *final(self)),
            final(self).spec_fully_drawn(),
    {
        match self {
            Scene::Ui(s) => s.render(),
            Scene::Gameplay(s) => s.render(),
        }
    }

    /// Hand out the screen's queued grid writes as terminal text.
    pub fn flush_strings(&mut self) -> (out: Vec<String>)
        requires
            old(self).wf(),
        ensures
            final(self).wf(),
            final(self).spec_name() == old(self).spec_name(),
            (*final(self)) is Ui <==> (*old(self)) is Ui,
            final(self).spec_diff().len() == 0,
            out@.len() == old(self).spec_diff().len(),
            forall|k: int|
                0 <= k < out@.len() ==> #[trigger] out@[k]@ == crate::ansi::cell_repr(
                    old(self).spec_diff()[k].0,
                    old(self).spec_diff()[k].1,
                ),
    {
        match self {
            Scene::Ui(s) => s.flush_strings(),
            Scene::Gameplay(s) => s.flush_strings(),
        }
    }
}

pub struct SceneManager {
    pub scenes: Vec<Scene>,
    pub current_scene: Option<Scene>,
    pub gameplay_context: GameplayContext,
    pub exit: bool,
}

impl SceneManager {
    /// The parked scenes' names, in parking order.
    pub open spec fn spec_names(self) -> Seq<Seq<char>> {
        Seq::new(self.scenes@.len(), |i: int| self.scenes@[i].spec_name())
    }

    pub open spec fn wf(self) -> bool {
        &&& (forall|i: int| 0 <= i < self.scenes@.len() ==> (#[trigger] self.scenes@[i]).wf())
        &&& (self.current_scene matches Some(s) ==> s.wf())
        &&& (forall|i: int, j: int|
            0 <= i < j < self.scenes@.len() ==> (#[trigger] self.scenes@[i]).spec_name() != (
            #[trigger] self.scenes@[j]).spec_name())
        &&& (self.current_scene matches Some(s) ==> forall|i: int|
            0 <= i < self.scenes@.len() ==> (#[trigger] self.scenes@[i]).spec_name()
                != s.spec_name())
    }

    /// An empty manager: no scenes, no current scene, a fresh
    /// context, not exiting.
    pub fn new() -> (m: SceneManager)
        ensures
            m.wf(),
            m.scenes@.len() == 0,
            m.current_scene is None,
            m.gameplay_context == (GameplayContext { score: 0u32, start_new_game: true }),
            !m.exit,
    {
        SceneManager {
            scenes: Vec::new(),
            current_scene: None,
            gameplay_context: GameplayContext::new(),
            exit: false,
        }
    }

    pub fn exit(&self) -> (e: bool)
        ensures
            e == self.exit,
    {
        self.exit
    }

    pub fn gameplay_context(&self) -> (c: GameplayContext)
        ensures
            c == self.gameplay_context,
    {
        self.gameplay_context
    }

    /// The current scene slot, for the driving loop to write to and
    /// update.
    pub fn current_scene_mut(&mut self) -> (r: &mut Option<Scene>)
        ensures
            *r == old(self).current_scene,
            *final(self) == (SceneManager { current_scene: *final(r), ..*old(self) }),
    {
        &mut self.current_scene
    }

    /// Park a new scene, whose name must be fresh.
    pub fn add_scene(&mut self, scene: Scene)
        requires
            old(self).wf(),
            scene.wf(),
            forall|i: int| 0 <= i < old(self).scenes@.len() ==> old(self).spec_names()[i]
                != scene.spec_name(),
            old(self).current_scene matches Some(s) ==> s.spec_name() != scene.spec_name(),
        ensures
            final(self).wf(),
            final(self).scenes@ == old(self).scenes@.push(scene),
            final(self).spec_names() =~= old(self).spec_names().push(scene.spec_name()),
            final(self).current_scene == old(self).current_scene,
            final(self).gameplay_context == old(self).gameplay_context,
            final(self).exit == old(self).exit,
    {
        self.scenes.push(scene);
        proof {
            assert(self.spec_names() =~= old(self).spec_names().push(scene.spec_name()));
            assert forall|i: int, j: int|
                0 <= i < j < self.scenes@.len() implies (#[trigger] self.scenes@[i]).spec_name()
                != (#[trigger] self.scenes@[j]).spec_name() by {
                if j == self.scenes@.len() - 1 {
                    assert(old(self).spec_names()[i] == old(self).scenes@[i].spec_name());
                } else {
                    assert(old(self).scenes@[i].spec_name() != old(self).scenes@[j].spec_name());
                }
            }
            if self.current_scene is Some {
                assert forall|i: int|
                    0 <= i < self.scenes@.len() implies (#[trigger] self.scenes@[i]).spec_name()
                    != self.current_scene->0.spec_name() by {
                    if i < self.scenes@.len() - 1 {
                        assert(old(self).scenes@[i].spec_name()
                            != old(self).current_scene->0.spec_name());
                    }
                }
            }
        }
    }

    /// Make the named parked scene current: the previous current
    /// scene, if any, is parked at the end of the list, the requested
    /// one is removed from the list, becomes current and is redrawn.
    /// An unknown name changes nothing.
    pub fn set_current_scene(&mut self, name: &str)
        requires
            old(self).wf(),
        ensures
            final(self).wf(),
            final(self).gameplay_context == old(self).gameplay_context,
            final(self).exit == old(self).exit,
            (exists|i: int|
                0 <= i < old(self).spec_names().len() && old(self).spec_names()[i] == name@)
                ==> ({
                &&& final(self).current_scene matches Some(s) && s.spec_name() == name@
                    && s.spec_fully_drawn()
                &&& exists|i: int|
                    0 <= i < old(self).scenes@.len() && (#[trigger] old(self).scenes@[i]).spec_name()
                        == name@ && Scene::spec_same_texts(
                        old(self).scenes@[i],
                        final(self).current_scene->0,
                    )
                &&& exists|i: int|
                    0 <= i < old(self).spec_names().len() && old(self).spec_names()[i] == name@
                        && final(self).spec_names() =~= old(self).spec_names().remove(i) + (
                    if old(self).current_scene is Some {
                        seq![old(self).current_scene->0.spec_name()]
                    } else {
                        Seq::<Seq<char>>::empty()
                    })
            }),
            !(exists|i: int|
                0 <= i < old(self).spec_names().len() && old(self).spec_names()[i] == name@)
                ==> *final(self) == *old(self),
    {
        let target = name.to_owned();
        let n = self.scenes.len();
        let mut k: usize = 0;
        while k < n
            invariant
                old(self).wf(),
                *self == *old(self),
                n == self.scenes@.len(),
                k <= n,
                target@ == name@,
                forall|j: int| 0 <= j < k ==> old(self).spec_names()[j] != name@,
            decreases n - k,
        {
            let found = {
                let scene_ref = &self.scenes[k];
                let scene_name = scene_ref.name();
                scene_name == target
            };
            if found {
                let mut scene = self.scenes.remove(k);
                if let Some(previous_scene) = self.current_scene.take() {
                    self.scenes.push(previous_scene);
                }
                scene.render();
                self.current_scene = Some(scene);
                proof {
                    assert(old(self).spec_names()[k as int] == name@);
                    if old(self).current_scene is Some {
                        assert(self.spec_names() =~= old(self).spec_names().remove(k as int) + seq![
                            old(self).current_scene->0.spec_name(),
                        ]);
                    } else {
                        assert(self.spec_names() =~= old(self).spec_names().remove(k as int)
                            + Seq::<Seq<char>>::empty());
                    }
                    assert forall|i: int, j: int|
                        0 <= i < j < self.scenes@.len() implies self.spec_names()[i]
                        != self.spec_names()[j] by {
                        assert(old(self).wf());
                    }
                }
                return ;
            }
            k = k + 1;
        }
        proof {
            assert forall|i: int|
                0 <= i < old(self).spec_names().len() implies old(self).spec_names()[i]
                != name@ by {}
        }
    }

    /// Show the final score on the game-over screen.
    fn update_game_over_scene(&mut self)
        requires
            old(self).wf(),
        ensures
            final(self).wf(),
            final(self).scenes@.len() == old(self).scenes@.len(),
            final(self).spec_names() =~= old(self).spec_names(),
            final(self).current_scene is Some <==> old(self).current_scene is Some,
            final(self).current_scene matches Some(s) ==> s.spec_name() == old(
                self,
            ).current_scene->0.spec_name(),
            final(self).gameplay_context == old(self).gameplay_context,
            final(self).exit == old(self).exit,
            forall|i: int|
                0 <= i < old(self).scenes@.len() && (#[trigger] old(self).scenes@[i]).spec_name()
                    == "game_over"@ ==> (match (old(self).scenes@[i], final(self).scenes@[i]) {
                    (Scene::Ui(pre), Scene::Ui(post)) => (exists|j: int|
                        0 <= j < pre.texts@.len() && (#[trigger] pre.texts@[j]).ui_element.name@
                            == "score"@) ==> (exists|j: int|
                        0 <= j < post.texts@.len() && (#[trigger] post.texts@[j]).ui_element.name@
                            == "score"@ && post.texts@[j].string@ == crate::dec::zero_pad(
                            old(self).gameplay_context.score as nat,
                            10,
                        )),
                    (Scene::Ui(pre), _) => false,
                    _ => true,
                }),
    {
        let shown = zero_padded_decimal(self.gameplay_context.score() as u64, 10);
        let ghost shown_view = shown@;
        let target = "game_over".to_owned();
        let n = self.scenes.len();
        let mut k: usize = 0;
        while k < n
            invariant
                old(self).wf(),
                n == self.scenes@.len(),
                k <= n,
                self.scenes@.len() == n,
                *self == (SceneManager { scenes: self.scenes, ..*old(self) }),
                forall|i: int| 0 <= i < n ==> (#[trigger] self.scenes@[i]).wf(),
                forall|i: int|
                    0 <= i < n ==> (#[trigger] self.scenes@[i]).spec_name() == old(
                        self,
                    ).scenes@[i].spec_name(),
                self.spec_names() =~= old(self).spec_names(),
                target@ == "game_over"@,
                self.scenes == old(self).scenes,
                shown@ == shown_view,
                shown_view == crate::dec::zero_pad(old(self).gameplay_context.score as nat, 10),
                forall|j: int|
                    0 <= j < k ==> (#[trigger] self.scenes@[j]).spec_name() != "game_over"@,
            decreases n - k,
        {
            let found = {
                let scene_ref = &self.scenes[k];
                let scene_name = scene_ref.name();
                scene_name == target
            };
            if found {
                let ghost pre_scene = self.scenes@[k as int];
                let slot = &mut self.scenes[k];
                match slot {
                    Scene::Ui(s) => {
                        s.set_text_string("score", shown);
                    },
                    Scene::Gameplay(_) => {},
                }
                proof {
                    assert(self.scenes@[k as int].wf());
                    assert(self.scenes@[k as int].spec_name() == old(
                        self,
                    ).scenes@[k as int].spec_name());
                    assert(self.spec_names() =~= old(self).spec_names());
                    assert forall|i: int, j: int|
                        0 <= i < j < self.scenes@.len() implies (
                    #[trigger] self.scenes@[i]).spec_name() != (
                    #[trigger] self.scenes@[j]).spec_name() by {
                        assert(old(self).scenes@[i].spec_name()
                            != old(self).scenes@[j].spec_name());
                    }
                    if self.current_scene is Some {
                        assert forall|i: int|
                            0 <= i < self.scenes@.len() implies (
                        #[trigger] self.scenes@[i]).spec_name()
                            != self.current_scene->0.spec_name() by {
                            assert(old(self).scenes@[i].spec_name()
                                != old(self).current_scene->0.spec_name());
                        }
                    }
                    assert forall|i: int|
                        0 <= i < old(self).scenes@.len() && (
                    #[trigger] old(self).scenes@[i]).spec_name() == "game_over"@ implies (match (
                        old(self).scenes@[i],
                        self.scenes@[i],
                    ) {
                        (Scene::Ui(pre), Scene::Ui(post)) => (exists|j: int|
                            0 <= j < pre.texts@.len() && (#[trigger] pre.texts@[j]).ui_element.name@
                                == "score"@) ==> (exists|j: int|
                            0 <= j < post.texts@.len() && (
                            #[trigger] post.texts@[j]).ui_element.name@ == "score"@
                                && post.texts@[j].string@ == crate::dec::zero_pad(
                                old(self).gameplay_context.score as nat,
                                10,
                            )),
                        (Scene::Ui(pre), _) => false,
                        _ => true,
                    }) by {
                        if i != k as int {
                            assert(old(self).scenes@[i].spec_name()
                                != old(self).scenes@[k as int].spec_name());
                        } else {
                            assert(old(self).scenes@[i] == pre_scene);
                            match (pre_scene, self.scenes@[k as int]) {
                                (Scene::Ui(a), Scene::Ui(b)) => {
                                    if exists|j: int|
                                        0 <= j < a.texts@.len() && (
                                        #[trigger] a.texts@[j]).ui_element.name@ == "score"@ {
                                        assert(exists|j: int|
                                            0 <= j < b.texts@.len() && (
                                            #[trigger] b.texts@[j]).ui_element.name@ == "score"@
                                                && b.texts@[j].string@ == shown_view);
                                        let j = choose|j: int|
                                            0 <= j < b.texts@.len() && (
                                            #[trigger] b.texts@[j]).ui_element.name@ == "score"@
                                                && b.texts@[j].string@ == shown_view;
                                        assert(b.texts@[j].string@ == crate::dec::zero_pad(
                                            old(self).gameplay_context.score as nat,
                                            10,
                                        ));
                                    }
                                },
                                _ => {},
                            }
                        }
                    }
                }
                return ;
            }
            k = k + 1;
        }
        proof {
            assert forall|i: int|
                0 <= i < old(self).scenes@.len() implies (
            #[trigger] old(self).scenes@[i]).spec_name() != "game_over"@ by {
                assert(self.scenes@[i].spec_name() == old(self).scenes@[i].spec_name());
            }
        }
    }

    /// Apply one update result: store the context, then follow the
    /// transition table. Starting or restarting resets the context;
    /// ending shows the final score on the game-over screen; exiting
    /// raises the exit flag; anything else only switches scenes.
    pub fn handle_update_result(&mut self, update_result: UpdateResult)
        requires
            old(self).wf(),
        ensures
            final(self).wf(),
            final(self).exit == (update_result.event == Event::Exit || old(self).exit),
            final(self).gameplay_context == (match update_result.event {
                Event::Start | Event::Restart => GameplayContext {
                    score: 0u32,
                    start_new_game: true,
                },
                _ => update_result.gameplay_context,
            }),
            (update_result.event == Event::Exit || update_result.event == Event::Nothing) ==> {
                &&& final(self).spec_names() =~= old(self).spec_names()
                &&& final(self).current_scene is Some <==> old(self).current_scene is Some
            },
            (update_result.event == Event::Start || update_result.event == Event::Restart) ==> (
            forall|i: int|
                0 <= i < old(self).scenes@.len() && (#[trigger] old(self).scenes@[i]).spec_name()
                    == "gameplay"@ && old(self).scenes@[i] is Gameplay ==> (
                final(self).current_scene matches Some(s) && s is Gameplay && s.spec_name()
                    == "gameplay"@)),
            update_result.event == Event::End ==> (forall|i: int|
                0 <= i < old(self).scenes@.len() && (#[trigger] old(self).scenes@[i]).spec_name()
                    == "game_over"@ ==> (match (old(self).scenes@[i], final(self).current_scene) {
                    (Scene::Ui(pre), Some(Scene::Ui(cur))) => (exists|j: int|
                        0 <= j < pre.texts@.len() && (#[trigger] pre.texts@[j]).ui_element.name@
                            == "score"@) ==> (exists|j: int|
                        0 <= j < cur.texts@.len() && (#[trigger] cur.texts@[j]).ui_element.name@
                            == "score"@ && cur.texts@[j].string@ == crate::dec::zero_pad(
                            update_result.gameplay_context.score as nat,
                            10,
                        )),
                    (Scene::Ui(pre), _) => false,
                    _ => true,
                })),
            ({
                let switch_target: Seq<char> = match update_result.event {
                    Event::Start | Event::Restart | Event::Resume => "gameplay"@,
                    Event::Pause => "paused"@,
                    Event::End => "game_over"@,
                    Event::GoToMenu => "main_menu"@,
                    _ => Seq::empty(),
                };
                (update_result.event != Event::Exit && update_result.event != Event::Nothing && (
                exists|i: int|
                    0 <= i < old(self).spec_names().len() && old(self).spec_names()[i]
                        == switch_target)) ==> (final(self).current_scene matches Some(s)
                    && s.spec_name() == switch_target)
            }),
    {
        self.gameplay_context = update_result.gameplay_context();
        proof {
            assert(self.spec_names() =~= old(self).spec_names());
        }

        match update_result.event() {
            Event::Start => {
                self.gameplay_context.reset();
                proof {
                    assert(self.spec_names() =~= old(self).spec_names());
                }
                let ghost mid = *self;
                self.set_current_scene("gameplay");
                proof {
                    assert forall|i: int|
                        0 <= i < old(self).scenes@.len() && (
                    #[trigger] old(self).scenes@[i]).spec_name() == "gameplay"@ && old(
                        self,
                    ).scenes@[i] is Gameplay implies (self.current_scene matches Some(s)
                        && s is Gameplay && s.spec_name() == "gameplay"@) by {
                        assert(mid.spec_names()[i] == mid.scenes@[i].spec_name());
                        assert(mid.scenes@[i].spec_name() == "gameplay"@);
                        let i2 = choose|i2: int|
                            0 <= i2 < mid.scenes@.len() && (#[trigger] mid.scenes@[i2]).spec_name()
                                == "gameplay"@ && Scene::spec_same_texts(
                                mid.scenes@[i2],
                                self.current_scene->0,
                            );
                        assert(i2 == i);
                    }
                }
            },
            Event::Pause => {
                self.set_current_scene("paused");
            },
            Event::Resume => {
                self.set_current_scene("gameplay");
            },
            Event::Restart => {
                self.gameplay_context.reset();
                proof {
                    assert(self.spec_names() =~= old(self).spec_names());
                }
                let ghost mid = *self;
                self.set_current_scene("gameplay");
                proof {
                    assert forall|i: int|
                        0 <= i < old(self).scenes@.len() && (
                    #[trigger] old(self).scenes@[i]).spec_name() == "gameplay"@ && old(
                        self,
                    ).scenes@[i] is Gameplay implies (self.current_scene matches Some(s)
                        && s is Gameplay && s.spec_name() == "gameplay"@) by {
                        assert(mid.spec_names()[i] == mid.scenes@[i].spec_name());
                        assert(mid.scenes@[i].spec_name() == "gameplay"@);
                        let i2 = choose|i2: int|
                            0 <= i2 < mid.scenes@.len() && (#[trigger] mid.scenes@[i2]).spec_name()
                                == "gameplay"@ && Scene::spec_same_texts(
                                mid.scenes@[i2],
                                self.current_scene->0,
                            );
                        assert(i2 == i);
                    }
                }
            },
            Event::End => {
                self.update_game_over_scene();
                let ghost mid = *self;
                self.set_current_scene("game_over");
                proof {
                    assert forall|i: int|
                        0 <= i < old(self).scenes@.len() && (
                    #[trigger] old(self).scenes@[i]).spec_name() == "game_over"@ implies (match (
                        old(self).scenes@[i],
                        self.current_scene,
                    ) {
                        (Scene::Ui(pre), Some(Scene::Ui(cur))) => (exists|j: int|
                            0 <= j < pre.texts@.len() && (#[trigger] pre.texts@[j]).ui_element.name@
                                == "score"@) ==> (exists|j: int|
                            0 <= j < cur.texts@.len() && (
                            #[trigger] cur.texts@[j]).ui_element.name@ == "score"@
                                && cur.texts@[j].string@ == crate::dec::zero_pad(
                                update_result.gameplay_context.score as nat,
                                10,
                            )),
                        (Scene::Ui(pre), _) => false,
                        _ => true,
                    }) by {
                        assert(mid.spec_names()[i] == mid.scenes@[i].spec_name());
                        assert(mid.scenes@[i].spec_name() == "game_over"@);
                        let i2 = choose|i2: int|
                            0 <= i2 < mid.scenes@.len() && (#[trigger] mid.scenes@[i2]).spec_name()
                                == "game_over"@ && Scene::spec_same_texts(
                                mid.scenes@[i2],
                                self.current_scene->0,
                            );
                        assert(i2 == i);
                        match (old(self).scenes@[i], mid.scenes@[i], self.current_scene->0) {
                            (Scene::Ui(pre), Scene::Ui(post), Scene::Ui(cur)) => {
                                if exists|j: int|
                                    0 <= j < pre.texts@.len() && (
                                    #[trigger] pre.texts@[j]).ui_element.name@ == "score"@ {
                                    let j = choose|j: int|
                                        0 <= j < post.texts@.len() && (
                                        #[trigger] post.texts@[j]).ui_element.name@ == "score"@
                                            && post.texts@[j].string@ == crate::dec::zero_pad(
                                            update_result.gameplay_context.score as nat,
                                            10,
                                        );
                                    assert(cur.texts@[j].ui_element.name@ == "score"@);
                                    assert(cur.texts@[j].string@ == crate::dec::zero_pad(
                                        update_result.gameplay_context.score as nat,
                                        10,
                                    ));
                                }
                            },
                            _ => {},
                        }
                    }
                }
            },
            Event::GoToMenu => {
                self.set_current_scene("main_menu");
            },
            Event::Exit => {
                self.exit = true;
                proof {
                    assert(self.spec_names() =~= old(self).spec_names());
                }
            },
            Event::Nothing => {
                proof {
                    assert(self.spec_names() =~= old(self).spec_names());
                }
            },
        }
    }
}

/// Switching from scene `A` to scene `B` and back restores `A` as the
/// current scene, and the parked names are `B` back in place of its
/// old slot: a round trip changes which scene is current and nothing
/// else about who is parked.
pub proof fn lemma_scene_round_trip(
    names0: Seq<Seq<char>>,
    current0: Seq<char>,
    i: int,
    names1: Seq<Seq<char>>,
    j: int,
    names2: Seq<Seq<char>>,
    target: Seq<char>,
)
    requires
        0 <= i < names0.len(),
        names0[i] == target,
        forall|a: int| 0 <= a < names0.len() ==> names0[a] != current0,
        names1 =~= names0.remove(i) + seq![current0],
        0 <= j < names1.len(),
        names1[j] == current0,
        names2 =~= names1.remove(j) + seq![target],
    ensures
        names2 =~= names0.remove(i).push(target),
        names2.len() == names0.len(),
        names2.contains(target),
        forall|a: int| 0 <= a < names0.len() && a != i ==> names2.contains(#[trigger] names0[a]),
{
    assert forall|a: int| 0 <= a < names1.len() - 1 implies names1[a] != current0 by {
        assert(names1[a] == names0.remove(i)[a]);
        if a < i {
            assert(names0.remove(i)[a] == names0[a]);
        } else {
            assert(names0.remove(i)[a] == names0[a + 1]);
        }
    }
    assert(j == names1.len() - 1);
    assert(names1.remove(j) =~= names0.remove(i));
    assert(names2 =~= names0.remove(i).push(target));
    assert(names2[names2.len() - 1] == target);
    assert forall|a: int| 0 <= a < names0.len() && a != i implies names2.contains(
        #[trigger] names0[a],
    ) by {
        if a < i {
            assert(names2[a] == names0.remove(i)[a]);
            assert(names0.remove(i)[a] == names0[a]);
        } else {
            assert(names2[a - 1] == names0.remove(i)[a - 1]);
            assert(names0.remove(i)[a - 1] == names0[a]);
        }
    }
}

} // verus!
