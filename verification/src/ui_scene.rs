//! The menu-style scenes: a grid, a set of named texts, and a button
//! selector. The main menu, the pause screen and the game-over screen
//! are all built here.

use vstd::prelude::*;

use crate::cell::CellType;
use crate::cell_matrix::CellMatrix;
use crate::color::Color;
use crate::events::Event;
use crate::gameplay_context::GameplayContext;
use crate::input::Key;
use crate::scene::UpdateResult;
use crate::text::repeat_str;
use crate::ui::button::Button;
use crate::ui::selector::{spec_next_index, Selector};
use crate::ui::text::Text;
use crate::ui::ui_element::Orientation;
use crate::vector::{Offset, Vector};

verus! {

pub struct UiScene {
    pub name: String,
    pub cell_matrix: CellMatrix,
    pub texts: Vec<Text>,
    pub selector: Selector,
}

impl UiScene {
    pub open spec fn wf(self) -> bool {
        &&& self.cell_matrix.wf()
        &&& self.cell_matrix.diff_wf()
        &&& self.selector.wf()
        &&& (forall|i: int| 0 <= i < self.texts@.len() ==> (#[trigger] self.texts@[i]).wf())
    }

    /// The scene has at least one button to select.
    pub open spec fn interactive(self) -> bool {
        self.selector.buttons@.len() > 0
    }

    /// The grid shows a full redraw of the scene: every cell blank
    /// except where a text paints it, with the buttons painted over
    /// both.
    pub open spec fn spec_fully_drawn(self) -> bool {
        forall|p: Vector|
            self.cell_matrix.spec_in_bounds(p) ==> #[trigger] self.cell_matrix.spec_get(p)
                == crate::cell_group::overlay_cell(
                crate::ui::selector::buttons_maps(self.selector.buttons@),
                self.selector.buttons@.len() as int,
                p,
                crate::cell_group::overlay_cell(
                    crate::ui::text::texts_maps(self.texts@),
                    self.texts@.len() as int,
                    p,
                    crate::cell::spec_empty_cell(),
                ),
            )
    }

    /// Everything one menu tick promises: the selection moves with
    /// the arrow keys (redrawing the buttons), enter raises the
    /// selected button's event, anything else leaves the grid alone,
    /// and the context passes through unchanged.
    pub open spec fn spec_menu_outcome(
        pre: UiScene,
        pressed_key: Option<Key>,
        gameplay_context: GameplayContext,
        post: UiScene,
        r: UpdateResult,
    ) -> bool {
        &&& post.texts == pre.texts
        &&& post.selector.buttons@.len() == pre.selector.buttons@.len()
        &&& post.selector.selected_index as int == spec_next_index(
            pre.selector.selected_index as int,
            pre.selector.buttons@.len() as int,
            pressed_key,
        )
        &&& r.gameplay_context == gameplay_context
        &&& r.event == (if pressed_key == Some(Key::Enter) {
            pre.selector.buttons@[pre.selector.selected_index as int].event
        } else {
            Event::Nothing
        })
        &&& ({
            let moved = post.selector.selected_index != pre.selector.selected_index;
            if moved {
                &&& (forall|p: Vector|
                    pre.cell_matrix.spec_in_bounds(p) ==> #[trigger] post.cell_matrix.spec_get(p)
                        == crate::cell_group::overlay_cell(
                        crate::ui::selector::buttons_maps(post.selector.buttons@),
                        post.selector.buttons@.len() as int,
                        p,
                        pre.cell_matrix.spec_get(p),
                    ))
                &&& post.selector.buttons@[post.selector.selected_index as int].text.bg_color
                    == pre.selector.buttons@[post.selector.selected_index as int].selected_bg_color
                &&& post.selector.buttons@[post.selector.selected_index as int].text.fg_color
                    == pre.selector.buttons@[post.selector.selected_index as int].selected_fg_color
                &&& post.selector.buttons@[pre.selector.selected_index as int].text.bg_color
                    == pre.selector.buttons@[pre.selector.selected_index as int].bg_color
                &&& post.selector.buttons@[pre.selector.selected_index as int].text.fg_color
                    == pre.selector.buttons@[pre.selector.selected_index as int].fg_color
            } else {
                post.cell_matrix == pre.cell_matrix
            }
        })
    }

    pub fn new(name: String, width: u16, height: u16) -> (s: UiScene)
        requires
            width as int * height as int <= u16::MAX as int,
        ensures
            s.wf(),
            s.name@ == name@,
            s.cell_matrix.width == width,
            s.cell_matrix.height == height,
            s.texts@.len() == 0,
            s.selector.buttons@.len() == 0,
            s.selector.selected_index == 0,
    {
        UiScene {
            name,
            cell_matrix: CellMatrix::new(width, height),
            texts: Vec::new(),
            selector: Selector::new(),
        }
    }

    pub fn name(&self) -> (n: String)
        ensures
            n@ == self.name@,
    {
        self.name.clone()
    }

    /// Store a text widget under its name, replacing one of the same
    /// name.
    pub fn add_text(&mut self, text: Text)
        requires
            old(self).wf(),
            text.wf(),
        ensures
            final(self).wf(),
            *final(self) == (UiScene { texts: final(self).texts, ..*old(self) }),
            final(self).texts@.len() >= 1,
    {
        let n = self.texts.len();
        let mut k: usize = 0;
        while k < n
            invariant
                old(self).wf(),
                text.wf(),
                *self == *old(self),
                n == self.texts@.len(),
                k <= n,
            decreases n - k,
        {
            if self.texts[k].ui_element.name == text.ui_element.name {
                self.texts[k] = text;
                return ;
            }
            k = k + 1;
        }
        self.texts.push(text);
    }

    /// Update the string of the text stored under `text_name`, if one
    /// is.
    pub fn set_text_string(&mut self, text_name: &str, new_text: String)
        requires
            old(self).wf(),
        ensures
            final(self).wf(),
            *final(self) == (UiScene { texts: final(self).texts, ..*old(self) }),
            final(self).texts@.len() == old(self).texts@.len(),
            final(self).selector == old(self).selector,
            (exists|i: int|
                0 <= i < old(self).texts@.len() && (#[trigger] old(self).texts@[i]).ui_element.name@
                    == text_name@) ==> exists|i: int|
                0 <= i < final(self).texts@.len() && (
                #[trigger] final(self).texts@[i]).ui_element.name@ == text_name@ && final(self).texts@[i].string@ == new_text@,
    {
        let target = text_name.to_owned();
        let n = self.texts.len();
        let mut k: usize = 0;
        while k < n
            invariant
                old(self).wf(),
                n == self.texts@.len(),
                n == old(self).texts@.len(),
                k <= n,
                *self == (UiScene { texts: self.texts, ..*old(self) }),
                forall|i: int| 0 <= i < n ==> (#[trigger] self.texts@[i]).wf(),
                target@ == text_name@,
                self.texts == old(self).texts,
                forall|j: int|
                    0 <= j < k ==> (#[trigger] self.texts@[j]).ui_element.name@ != text_name@,
            decreases n - k,
        {
            if self.texts[k].ui_element.name == target {
                let slot = &mut self.texts[k];
                slot.set_string(new_text);
                proof {
                    assert(self.texts@.len() == n);
                    assert(self.texts@[k as int].ui_element.name@ == text_name@);
                    assert(self.texts@[k as int].string@ == new_text@);
                }
                return ;
            }
            k = k + 1;
        }
    }

    pub fn selector_mut(&mut self) -> (s: &mut Selector)
        ensures
            *s == old(self).selector,
            *final(self) == (UiScene { selector: *final(s), ..*old(self) }),
    {
        &mut self.selector
    }

    /// One tick: hand the key to the selector and raise whatever it
    /// returns, carrying the context through unchanged.
    pub fn update(&mut self, pressed_key: Option<Key>, gameplay_context: GameplayContext) -> (r:
        UpdateResult)
        requires
            old(self).wf(),
            old(self).interactive(),
        ensures
            final(self).wf(),
            final(self).interactive(),
            final(self).name@ == old(self).name@,
            final(self).cell_matrix.width == old(self).cell_matrix.width,
            final(self).cell_matrix.height == old(self).cell_matrix.height,
            Self::spec_menu_outcome(*old(self), pressed_key, gameplay_context, *final(self), r),
    {
        let event = self.selector.update(pressed_key, &mut self.cell_matrix);
        UpdateResult::new(event, gameplay_context)
    }

    /// Redraw every stored text into the matrix, in storage order: a
    /// later text paints over an earlier one.
    pub fn render_texts(&mut self)
        requires
            old(self).wf(),
        ensures
            final(self).wf(),
            *final(self) == (UiScene {
                texts: final(self).texts,
                cell_matrix: final(self).cell_matrix,
                ..*old(self)
            }),
            final(self).texts@.len() == old(self).texts@.len(),
            final(self).cell_matrix.width == old(self).cell_matrix.width,
            final(self).cell_matrix.height == old(self).cell_matrix.height,
            forall|p: Vector|
                old(self).cell_matrix.spec_in_bounds(p) ==> #[trigger] final(self).cell_matrix.spec_get(
                    p,
                ) == crate::cell_group::overlay_cell(
                    crate::ui::text::texts_maps(old(self).texts@),
                    old(self).texts@.len() as int,
                    p,
                    old(self).cell_matrix.spec_get(p),
                ),
            forall|i: int|
                0 <= i < old(self).texts@.len() ==> (
                #[trigger] final(self).texts@[i]).ui_element.cell_group.spec_map() == old(
                    self,
                ).texts@[i].ui_element.cell_group.spec_map(),
            forall|i: int|
                0 <= i < old(self).texts@.len() ==> (#[trigger] final(self).texts@[i]).ui_element.name@
                    == old(self).texts@[i].ui_element.name@ && final(self).texts@[i].string@ == old(
                    self,
                ).texts@[i].string@,
    {
        let n = self.texts.len();
        let mut k: usize = 0;
        while k < n
            invariant
                old(self).wf(),
                n == self.texts@.len(),
                n == old(self).texts@.len(),
                k <= n,
                forall|i: int|
                    0 <= i < n ==> (#[trigger] self.texts@[i]).ui_element.name@ == old(
                        self,
                    ).texts@[i].ui_element.name@ && self.texts@[i].string@ == old(
                        self,
                    ).texts@[i].string@,
                *self == (UiScene {
                    texts: self.texts,
                    cell_matrix: self.cell_matrix,
                    ..*old(self)
                }),
                self.wf(),
                self.texts@.len() == n,
                self.cell_matrix.width == old(self).cell_matrix.width,
                self.cell_matrix.height == old(self).cell_matrix.height,
                forall|i: int|
                    0 <= i < n ==> (#[trigger] self.texts@[i]).ui_element.cell_group.spec_map()
                        == old(self).texts@[i].ui_element.cell_group.spec_map(),
                forall|p: Vector|
                    old(self).cell_matrix.spec_in_bounds(p) ==> #[trigger] self.cell_matrix.spec_get(
                        p,
                    ) == crate::cell_group::overlay_cell(
                        crate::ui::text::texts_maps(old(self).texts@),
                        k as int,
                        p,
                        old(self).cell_matrix.spec_get(p),
                    ),
            decreases n - k,
        {
            let ghost pre = *self;
            let text = &mut self.texts[k];
            let ghost pre_text = *text;
            crate::ui::text::Text::render(text, &mut self.cell_matrix);
            proof {
                assert forall|i: int|
                    0 <= i < n implies (#[trigger] self.texts@[i]).ui_element.name@ == old(
                    self,
                ).texts@[i].ui_element.name@ && self.texts@[i].string@ == old(
                    self,
                ).texts@[i].string@ by {
                    if i != k as int {
                        assert(self.texts@[i] == pre.texts@[i]);
                    }
                }
                let maps = crate::ui::text::texts_maps(old(self).texts@);
                assert(pre_text.ui_element.cell_group.spec_map() == maps[k as int]);
                assert forall|p: Vector|
                    old(self).cell_matrix.spec_in_bounds(p) implies #[trigger] self.cell_matrix.spec_get(
                    p,
                ) == crate::cell_group::overlay_cell(
                    maps,
                    k as int + 1,
                    p,
                    old(self).cell_matrix.spec_get(p),
                ) by {
                    assert(pre.cell_matrix.spec_get(p) == crate::cell_group::overlay_cell(
                        maps,
                        k as int,
                        p,
                        old(self).cell_matrix.spec_get(p),
                    ));
                }
                assert forall|i: int|
                    0 <= i < n implies (#[trigger] self.texts@[i]).ui_element.cell_group.spec_map()
                    == old(self).texts@[i].ui_element.cell_group.spec_map() by {
                    if i != k as int {
                        assert(self.texts@[i] == pre.texts@[i]);
                    }
                }
            }
            k = k + 1;
        }
    }

    /// Redraw the whole scene from scratch: every cell blanked, the
    /// texts painted over the blanks, the buttons painted over both.
    pub fn render(&mut self)
        requires
            old(self).wf(),
        ensures
            final(self).wf(),
            final(self).name@ == old(self).name@,
            final(self).cell_matrix.width == old(self).cell_matrix.width,
            final(self).cell_matrix.height == old(self).cell_matrix.height,
            final(self).texts@.len() == old(self).texts@.len(),
            final(self).selector.buttons@.len() == old(self).selector.buttons@.len(),
            final(self).selector.selected_index == old(self).selector.selected_index,
            forall|i: int|
                0 <= i < old(self).selector.buttons@.len() ==> (
                #[trigger] final(self).selector.buttons@[i]).event == old(
                    self,
                ).selector.buttons@[i].event,
            old(self).interactive() ==> final(self).interactive(),
            forall|i: int|
                0 <= i < old(self).texts@.len() ==> (
                #[trigger] final(self).texts@[i]).ui_element.cell_group.spec_map() == old(
                    self,
                ).texts@[i].ui_element.cell_group.spec_map(),
            forall|i: int|
                0 <= i < old(self).selector.buttons@.len() ==> (
                #[trigger] final(self).selector.buttons@[i]).text.ui_element.cell_group.spec_map()
                    == old(self).selector.buttons@[i].text.ui_element.cell_group.spec_map(),
            forall|i: int|
                0 <= i < old(self).texts@.len() ==> (#[trigger] final(self).texts@[i]).ui_element.name@
                    == old(self).texts@[i].ui_element.name@ && final(self).texts@[i].string@ == old(
                    self,
                ).texts@[i].string@,
            final(self).spec_fully_drawn(),
    {
        self.cell_matrix.clear();
        proof {
            assert forall|p: Vector|
                self.cell_matrix.spec_in_bounds(p) implies #[trigger] self.cell_matrix.spec_get(p)
                == crate::cell::spec_empty_cell() by {
                self.cell_matrix.lemma_index_in_range(p);
            }
        }
        self.render_texts();
        let ghost mid = *self;
        self.selector.render(&mut self.cell_matrix);
        proof {
            assert forall|p: Vector|
                self.cell_matrix.spec_in_bounds(p) implies #[trigger] self.cell_matrix.spec_get(p)
                == crate::cell_group::overlay_cell(
                crate::ui::selector::buttons_maps(self.selector.buttons@),
                self.selector.buttons@.len() as int,
                p,
                crate::cell_group::overlay_cell(
                    crate::ui::text::texts_maps(self.texts@),
                    self.texts@.len() as int,
                    p,
                    crate::cell::spec_empty_cell(),
                ),
            ) by {
                let inner_old = crate::cell_group::overlay_cell(
                    crate::ui::text::texts_maps(old(self).texts@),
                    old(self).texts@.len() as int,
                    p,
                    crate::cell::spec_empty_cell(),
                );
                assert(mid.cell_matrix.spec_get(p) == inner_old);
                assert(self.cell_matrix.spec_get(p) == crate::cell_group::overlay_cell(
                    crate::ui::selector::buttons_maps(old(self).selector.buttons@),
                    old(self).selector.buttons@.len() as int,
                    p,
                    inner_old,
                ));
                assert forall|i: int|
                    0 <= i < self.texts@.len() implies #[trigger] crate::ui::text::texts_maps(
                    self.texts@,
                )[i] == crate::ui::text::texts_maps(old(self).texts@)[i] by {}
                crate::cell_group::lemma_overlay_cell_congruent(
                    crate::ui::text::texts_maps(old(self).texts@),
                    crate::ui::text::texts_maps(self.texts@),
                    self.texts@.len() as int,
                    p,
                    crate::cell::spec_empty_cell(),
                );
                assert forall|i: int|
                    0 <= i < self.selector.buttons@.len() implies #[trigger] crate::ui::selector::buttons_maps(
                    self.selector.buttons@,
                )[i] == crate::ui::selector::buttons_maps(old(self).selector.buttons@)[i] by {}
                crate::cell_group::lemma_overlay_cell_congruent(
                    crate::ui::selector::buttons_maps(old(self).selector.buttons@),
                    crate::ui::selector::buttons_maps(self.selector.buttons@),
                    self.selector.buttons@.len() as int,
                    p,
                    crate::cell_group::overlay_cell(
                        crate::ui::text::texts_maps(self.texts@),
                        self.texts@.len() as int,
                        p,
                        crate::cell::spec_empty_cell(),
                    ),
                );
            }
        }
    }

    /// Hand out the queued grid writes as terminal text, oldest
    /// first.
    pub fn flush_strings(&mut self) -> (out: Vec<String>)
        requires
            old(self).wf(),
        ensures
            final(self).wf(),
            *final(self) == (UiScene { cell_matrix: final(self).cell_matrix, ..*old(self) }),
            final(self).cell_matrix.diff@.len() == 0,
            out@.len() == old(self).cell_matrix.diff@.len(),
            forall|k: int|
                0 <= k < out@.len() ==> #[trigger] out@[k]@ == crate::ansi::cell_repr(
                    old(self).cell_matrix.diff@[k].0,
                    old(self).cell_matrix.diff@[k].1,
                ),
    {
        self.cell_matrix.flush_strings()
    }
}

/// The version line the main menu shows.
pub const VERSION_LINE: &'static str = "0.1.0";

/// The main menu: title art, dividers, version and credit lines, and
/// the start and exit buttons.
pub fn build_main_menu_scene(width: u16, height: u16) -> (s: UiScene)
    requires
        width as int * height as int <= u16::MAX as int,
    ensures
        s.wf(),
        s.interactive(),
        s.name@ == "main_menu"@,
        s.cell_matrix.width == width,
        s.cell_matrix.height == height,
        s.selector.buttons@.len() == 2,
        s.selector.selected_index == 0,
        s.selector.buttons@[0].event == Event::Start,
        s.selector.buttons@[1].event == Event::Exit,
{
    let mut ui_scene = UiScene::new("main_menu".to_owned(), width, height);

    let divider = repeat_str("━", width as usize);
    let top_divider = Text::new(
        "top_divider".to_owned(),
        Offset::zero(),
        Orientation::Top,
        Orientation::Center,
        divider,
        width,
        height,
        Color::Black.to_rgb(),
        Color::LightGreen.to_rgb(),
    );
    let bottom_divider = Text::new(
        "bottom_divider".to_owned(),
        Offset::zero(),
        Orientation::Bottom,
        Orientation::Center,
        repeat_str("━", width as usize),
        width,
        height,
        Color::Black.to_rgb(),
        Color::LightGreen.to_rgb(),
    );

    let back_ascii = Text::new(
        "back_ascii".to_owned(),
        Offset::new(0, 10),
        Orientation::Center,
        Orientation::Center,
        "⠀⠀⠀⠀⠀⠀⠀⢀⣠⣤⣶⣶⣿⣿⣿⣿⣿⣷⣶⣦⣄⡀⠀⠀⠀⠀⠀⠀⠀⠀⠀⠀⠀⠀⠀⠀⠀⠀⠀⠀⣀⣤⣶⣶⡿⠿⢿⣿⣶⣶⣤⣄⡀⠀⠀⠀⠀⠀⠀⠀\n⠀⠀⠀⠀⠀⣠⣶⣿⣿⣿⣿⣿⣿⣿⣿⣿⣿⣿⣿⣿⣿⣿⣷⣄⡀⠀⠀⠀⠀⠀⠀⠀⠀⠀⠀⠀⠀⠀⠠⠞⠋⠉⠀⠀⠀⠀⠀⠀⠀⠉⠛⢿⣿⣷⣄⠀⠀⠀⠀⠀\n⠀⠀⠀⣠⣾⣿⣿⣿⣿⠿⠛⠉⠁⠀⠀⠀⠀⠉⠙⠻⢿⣿⣿⣿⣿⣄⠀⠀⠀⠀⠀⠀⠀⠀⣀⣴⣶⣆⠀⠀⠀⠀⠀⠀⠀⠀⠀⠀⠀⠀⠀⠀⠈⠻⣿⣷⣄⠀⠀⠀\n⠀⠀⣼⣿⣿⣿⡿⠋⠁⠀⠀⠀⠀⠀⠀⠀⠀⠀⠀⠀⠀⠙⢿⣿⣿⣿⣷⡀⠀⠀⠀⢀⣶⣿⣿⣿⣿⠏⠀⠀⠀⠀⠀⠀⠀⠀⠀⠀⠀⠀⠀⠀⠀⠀⠘⣿⣿⣧⠀⠀\n⠀⣼⣿⣿⣿⡟⠀⠀⠀⠀⠀⠀⠀⠀⠀⠀⠀⠀⠀⠀⠀⠀⠀⠙⣿⣿⣿⣿⣄⠀⠀⣿⣿⣿⣿⣿⡟⠀⠀⠀⠀⠀⠀⠀⠀⠀⠀⠀⠀⠀⠀⠀⠀⠀⠀⠘⣿⣿⣧⠀\n⢸⣿⣿⣿⡟⠀⠀⠀⠀⠀⠀⠀⠀⠀⠀⠀⠀⠀⠀⠀⠀⠀⠀⠀⠈⢿⣿⣿⣿⢂⣾⣿⣿⣿⠿⠛⠀⠀⠀⠀⠀⠀⠀⠀⠀⠀⠀⠀⠀⠀⠀⠀⠀⠀⠀⠀⢸⣿⣿⡄\n⣿⣿⣿⣿⠁⠀⠀⠀⠀⠀⠀⠀⠀⠀⠀⠀⠀⠀⠀⠀⠀⠀⠀⠀⠀⠀⢻⡿⢡⣿⣿⣿⡿⠃⠀⠀⠀⠀⠀⠀⠀⠀⠀⠀⠀⠀⠀⠀⠀⠀⠀⠀⠀⠀⠀⠀⠈⣿⣿⡇\n⣿⣿⣿⣿⠀⠀⠀⠀⠀⠀⠀⠀⠀⠀⠀⠀⠀⠀⠀⠀⠀⠀⠀⠀⠀⠀⠀⣱⣿⣿⣿⡿⡁⠀⠀⠀⠀⠀⠀⠀⠀⠀⠀⠀⠀⠀⠀⠀⠀⠀⠀⠀⠀⠀⠀⠀⢠⣿⣿⡇\n⢿⣿⣿⣿⡄⠀⠀⠀⠀⠀⠀⠀⠀⠀⠀⠀⠀⠀⠀⠀⠀⠀⠀⠀⠀⠀⣼⣿⣿⣿⡟⣴⣿⣦⠀⠀⠀⠀⠀⠀⠀⠀⠀⠀⠀⠀⠀⠀⠀⠀⠀⠀⠀⠀⠀⠀⣸⣿⣿⡇\n⠸⣿⣿⣿⣷⠀⠀⠀⠀⠀⠀⠀⠀⠀⠀⠀⠀⠀⠀⠀⠀⠀⠀⠀⢀⣾⣿⣿⣿⠏⢸⣿⣿⣿⣷⡀⠀⠀⠀⠀⠀⠀⠀⠀⠀⠀⠀⠀⠀⠀⠀⠀⠀⠀⠀⣰⣿⣿⣿⠁\n⠀⢻⣿⣿⣿⣷⡀⠀⠀⠀⠀⠀⠀⠀⠀⠀⠀⠀⠀⠀⠀⠀⣠⣿⣿⣿⡿⠃⠀⠀⠹⣿⣿⣿⣿⣆⠀⠀⠀⠀⠀⠀⠀⠀⠀⠀⠀⠀⠀⠀⠀⠀⠀⣴⣿⣿⣿⠃⠀\n⠀⠀⠹⣿⣿⣿⣿⣦⡀⠀⠀⠀⠀⠀⠀⠀⠀⠀⠀⠀⢀⣠⣾⣿⣿⣿⠟⠁⠀⠀⠀⠀⠈⢻⣿⣿⣿⣷⣄⡀⠀⠀⠀⠀⠀⠀⠀⠀⠀⠀⠀⢀⣠⣾⣿⣿⡿⠃⠀⠀\n⠀⠀⠀⠈⠻⣿⣿⣿⣿⣶⣤⣀⣀⠀⠀⠀⣀⣀⣤⣶⣿⣿⣿⣿⡿⠁⠀⠀⠀⠀⠀⠀⠀⠀⠙⢿⣿⣿⣿⣿⣶⣤⣀⣀⠀⠀⠀⢀⣀⣤⣶⣿⣿⣿⣿⠟⠁⠀⠀⠀\n⠀⠀⠀⠀⠀⠈⠛⢿⣿⣿⣿⣿⣿⣿⣿⣿⣿⣿⣿⣿⣿⡿⠟⠁⠀⠀⠀⠀⠀⠀⠀⠀⠀⠀⠀⠀⠈⠻⢿⣿⣿⣿⣿⣿⣿⣿⣿⣿⣿⣿⣿⣿⡿⠛⠁⠀⠀⠀⠀⠀\n⠀⠀⠀⠀⠀⠀⠀⠀⠈⠉⠛⠻⠿⠿⠿⠿⠿⠟⠛⠉⠁⠀⠀⠀⠀⠀⠀⠀⠀⠀⠀⠀⠀⠀⠀⠀⠀⠀⠀⠉⠛⠻⠿⢿⣿⣿⣿⠿⠿⠟⠋⠁⠀⠀⠀⠀⠀⠀⠀⠀".to_owned(),
        width,
        height,
        Color::Black.to_rgb(),
        Color::LightGreen.to_rgb(),
    );

    let title = Text::new(
        "title".to_owned(),
        Offset::new(0, 5),
        Orientation::Top,
        Orientation::Center,
        "███████╗███╗   ██╗ █████╗ ██╗  ██╗███████╗\n██╔════╝████╗  ██║██╔══██╗██║ ██╔╝██╔════╝\n███████╗██╔██╗ ██║███████║█████╔╝ █████╗  \n╚════██║██║╚██╗██║██╔══██║██╔═██╗ ██╔══╝  \n███████║██║ ╚████║██║  ██║██║  ██╗███████╗\n╚══════╝╚═╝  ╚═══╝╚═╝  ╚═╝╚═╝  ╚═╝╚══════╝".to_owned(),
        width,
        height,
        Color::Black.to_rgb(),
        Color::LightGreen.to_rgb(),
    );

    let start = Button::new(
        "start".to_owned(),
        Offset::new(-3, -5),
        Orientation::Center,
        Orientation::CenterLeft,
        "START".to_owned(),
        width,
        height,
        Color::Black.to_rgb(),
        Color::LightGreen.to_rgb(),
        Color::LightGreen.to_rgb(),
        Color::Black.to_rgb(),
        Event::Start,
    );
    let exit = Button::new(
        "exit".to_owned(),
        Offset::new(-3, -3),
        Orientation::Center,
        Orientation::CenterLeft,
        "EXIT".to_owned(),
        width,
        height,
        Color::Black.to_rgb(),
        Color::LightGreen.to_rgb(),
        Color::LightGreen.to_rgb(),
        Color::Black.to_rgb(),
        Event::Exit,
    );

    let version = Text::new(
        "version".to_owned(),
        Offset::new(0, -3),
        Orientation::Bottom,
        Orientation::Center,
        VERSION_LINE.to_owned(),
        width,
        height,
        Color::Black.to_rgb(),
        Color::LightCyan.to_rgb(),
    );
    let info = Text::new(
        "info".to_owned(),
        Offset::new(0, -2),
        Orientation::Bottom,
        Orientation::Center,
        "Written in Rust by ErFer7".to_owned(),
        width,
        height,
        Color::Black.to_rgb(),
        Color::White.to_rgb(),
    );

    ui_scene.add_text(top_divider);
    ui_scene.add_text(bottom_divider);
    ui_scene.add_text(back_ascii);
    ui_scene.add_text(title);
    ui_scene.add_text(version);
    ui_scene.add_text(info);

    let selector = ui_scene.selector_mut();
    selector.add_button(start);
    selector.add_button(exit);

    ui_scene.render();

    ui_scene
}

/// The pause screen: title and dividers, with resume, restart and
/// end buttons.
pub fn build_paused_scene(width: u16, height: u16) -> (s: UiScene)
    requires
        width as int * height as int <= u16::MAX as int,
    ensures
        s.wf(),
        s.interactive(),
        s.name@ == "paused"@,
        s.cell_matrix.width == width,
        s.cell_matrix.height == height,
        s.selector.buttons@.len() == 3,
        s.selector.selected_index == 0,
        s.selector.buttons@[0].event == Event::Resume,
        s.selector.buttons@[1].event == Event::Restart,
        s.selector.buttons@[2].event == Event::End,
{
    let mut ui_scene = UiScene::new("paused".to_owned(), width, height);

    let top_divider = Text::new(
        "top_divider".to_owned(),
        Offset::zero(),
        Orientation::Top,
        Orientation::Center,
        repeat_str("━", width as usize),
        width,
        height,
        Color::Black.to_rgb(),
        Color::White.to_rgb(),
    );
    let bottom_divider = Text::new(
        "bottom_divider".to_owned(),
        Offset::zero(),
        Orientation::Bottom,
        Orientation::Center,
        repeat_str("━", width as usize),
        width,
        height,
        Color::Black.to_rgb(),
        Color::White.to_rgb(),
    );
    let title = Text::new(
        "title".to_owned(),
        Offset::new(0, 5),
        Orientation::Top,
        Orientation::Center,
        "██████╗  █████╗ ██╗   ██╗███████╗███████╗██████╗ \n██╔══██╗██╔══██╗██║   ██║██╔════╝██╔════╝██╔══██╗\n██████╔╝███████║██║   ██║███████╗█████╗  ██║  ██║\n██╔═══╝ ██╔══██║██║   ██║╚════██║██╔══╝  ██║  ██║\n██║     ██║  ██║╚██████╔╝███████║███████╗██████╔╝\n╚═╝     ╚═╝  ╚═╝ ╚═════╝ ╚══════╝╚══════╝╚═════╝".to_owned(),
        width,
        height,
        Color::Black.to_rgb(),
        Color::White.to_rgb(),
    );

    let resume = Button::new(
        "resume".to_owned(),
        Offset::new(-4, -5),
        Orientation::Center,
        Orientation::CenterLeft,
        "RESUME".to_owned(),
        width,
        height,
        Color::Black.to_rgb(),
        Color::White.to_rgb(),
        Color::White.to_rgb(),
        Color::Black.to_rgb(),
        Event::Resume,
    );
    let restart = Button::new(
        "restart".to_owned(),
        Offset::new(-4, -3),
        Orientation::Center,
        Orientation::CenterLeft,
        "RESTART".to_owned(),
        width,
        height,
        Color::Black.to_rgb(),
        Color::White.to_rgb(),
        Color::White.to_rgb(),
        Color::Black.to_rgb(),
        Event::Restart,
    );
    let end = Button::new(
        "exit".to_owned(),
        Offset::new(-4, -1),
        Orientation::Center,
        Orientation::CenterLeft,
        "END".to_owned(),
        width,
        height,
        Color::Black.to_rgb(),
        Color::White.to_rgb(),
        Color::White.to_rgb(),
        Color::Black.to_rgb(),
        Event::End,
    );

    ui_scene.add_text(top_divider);
    ui_scene.add_text(bottom_divider);
    ui_scene.add_text(title);

    let selector = ui_scene.selector_mut();
    selector.add_button(resume);
    selector.add_button(restart);
    selector.add_button(end);

    ui_scene.render();

    ui_scene
}

/// The game-over screen: title, dividers, the final score, and the
/// restart and menu buttons.
pub fn build_game_over_scene(width: u16, height: u16) -> (s: UiScene)
    requires
        width as int * height as int <= u16::MAX as int,
    ensures
        s.wf(),
        s.interactive(),
        s.name@ == "game_over"@,
        s.cell_matrix.width == width,
        s.cell_matrix.height == height,
        s.selector.buttons@.len() == 2,
        s.selector.selected_index == 0,
        s.selector.buttons@[0].event == Event::Restart,
        s.selector.buttons@[1].event == Event::GoToMenu,
{
    let mut ui_scene = UiScene::new("game_over".to_owned(), width, height);

    let top_divider = Text::new(
        "top_divider".to_owned(),
        Offset::zero(),
        Orientation::Top,
        Orientation::Center,
        repeat_str("━", width as usize),
        width,
        height,
        Color::Black.to_rgb(),
        Color::LightRed.to_rgb(),
    );
    let bottom_divider = Text::new(
        "bottom_divider".to_owned(),
        Offset::zero(),
        Orientation::Bottom,
        Orientation::Center,
        repeat_str("━", width as usize),
        width,
        height,
        Color::Black.to_rgb(),
        Color::LightRed.to_rgb(),
    );
    let title = Text::new(
        "title".to_owned(),
        Offset::new(0, 5),
        Orientation::Top,
        Orientation::Center,
        " ██████╗  █████╗ ███╗   ███╗███████╗     ██████╗ ██╗   ██╗███████╗██████╗ \n██╔════╝ ██╔══██╗████╗ ████║██╔════╝    ██╔═══██╗██║   ██║██╔════╝██╔══██╗\n██║  ███╗███████║██╔████╔██║█████╗      ██║   ██║██║   ██║█████╗  ██████╔╝\n██║   ██║██╔══██║██║╚██╔╝██║██╔══╝      ██║   ██║╚██╗ ██╔╝██╔══╝  ██╔══██╗\n╚██████╔╝██║  ██║██║ ╚═╝ ██║███████╗    ╚██████╔╝ ╚████╔╝ ███████╗██║  ██║\n ╚═════╝ ╚═╝  ╚═╝╚═╝     ╚═╝╚══════╝     ╚═════╝   ╚═══╝  ╚══════╝╚═╝  ╚═╝".to_owned(),
        width,
        height,
        Color::Black.to_rgb(),
        Color::LightRed.to_rgb(),
    );

    let restart = Button::new(
        "restart".to_owned(),
        Offset::new(-4, -3),
        Orientation::Center,
        Orientation::CenterLeft,
        "RESTART".to_owned(),
        width,
        height,
        Color::Black.to_rgb(),
        Color::LightRed.to_rgb(),
        Color::LightRed.to_rgb(),
        Color::Black.to_rgb(),
        Event::Restart,
    );
    let menu = Button::new(
        "menu".to_owned(),
        Offset::new(-4, -1),
        Orientation::Center,
        Orientation::CenterLeft,
        "MENU".to_owned(),
        width,
        height,
        Color::Black.to_rgb(),
        Color::LightRed.to_rgb(),
        Color::LightRed.to_rgb(),
        Color::Black.to_rgb(),
        Event::GoToMenu,
    );

    let score_label = Text::new(
        "score_label".to_owned(),
        Offset::new(-8, 5),
        Orientation::Center,
        Orientation::CenterLeft,
        "Score:".to_owned(),
        width,
        height,
        Color::Black.to_rgb(),
        Color::LightRed.to_rgb(),
    );
    let score = Text::new(
        "score".to_owned(),
        Offset::new(-1, 5),
        Orientation::Center,
        Orientation::CenterLeft,
        "0000000000".to_owned(),
        width,
        height,
        Color::Black.to_rgb(),
        Color::LightRed.to_rgb(),
    );

    ui_scene.add_text(top_divider);
    ui_scene.add_text(bottom_divider);
    ui_scene.add_text(title);
    ui_scene.add_text(score_label);
    ui_scene.add_text(score);

    let selector = ui_scene.selector_mut();
    selector.add_button(restart);
    selector.add_button(menu);

    ui_scene.render();

    ui_scene
}

} // verus!
