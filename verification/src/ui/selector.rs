//! The button selector: an ordered list of buttons, exactly one of
//! which is shown selected; arrow keys move the selection and the
//! enter key raises the selected button's event.

use vstd::prelude::*;

use crate::cell::Cell;
use crate::cell_matrix::CellMatrix;
use crate::events::Event;
use crate::input::Key;
use crate::ui::button::Button;
use crate::vector::Vector;

verus! {

/// Where the selection moves on a key press: up and down within the
/// list, nowhere otherwise.
pub open spec fn spec_next_index(index: int, len: int, key: Option<Key>) -> int {
    match key {
        Some(Key::Up) => if index > 0 {
            index - 1
        } else {
            index
        },
        Some(Key::Down) => if index < len - 1 {
            index + 1
        } else {
            index
        },
        _ => index,
    }
}

/// Each button label's overlay map, in button order.
pub open spec fn buttons_maps(buttons: Seq<Button>) -> Seq<Map<Vector, Cell>> {
    Seq::new(buttons.len(), |i: int| buttons[i].text.ui_element.cell_group.spec_map())
}

pub struct Selector {
    pub buttons: Vec<Button>,
    pub selected_index: usize,
}

impl Selector {
    pub open spec fn wf(self) -> bool {
        &&& (self.buttons@.len() == 0 ==> self.selected_index == 0)
        &&& (self.buttons@.len() > 0 ==> self.selected_index < self.buttons@.len())
        &&& forall|i: int| 0 <= i < self.buttons@.len() ==> (#[trigger] self.buttons@[i]).wf()
    }

    pub fn new() -> (s: Selector)
        ensures
            s.wf(),
            s.buttons@.len() == 0,
            s.selected_index == 0,
    {
        Selector { buttons: Vec::new(), selected_index: 0 }
    }

    /// Append a button; the first button added becomes the selected
    /// one.
    pub fn add_button(&mut self, button: Button)
        requires
            old(self).wf(),
            button.wf(),
        ensures
            final(self).wf(),
            final(self).buttons@.len() == old(self).buttons@.len() + 1,
            final(self).selected_index == old(self).selected_index,
            forall|i: int|
                0 <= i < old(self).buttons@.len() ==> final(self).buttons@[i] == old(
                    self,
                ).buttons@[i],
            final(self).buttons@.last().event == button.event,
            final(self).buttons@.last().text.string@ == button.text.string@,
            old(self).buttons@.len() > 0 ==> final(self).buttons@.last() == button,
    {
        let was_empty = self.buttons.len() == 0;
        self.buttons.push(button);

        if was_empty {
            self.buttons[0].select();
        }
    }

    /// React to one key press: arrows move the selection (redrawing
    /// the buttons), enter raises the selected button's event,
    /// anything else does nothing.
    pub fn update(&mut self, pressed_key: Option<Key>, cell_matrix: &mut CellMatrix) -> (e: Event)
        requires
            old(self).wf(),
            old(self).buttons@.len() > 0,
            old(cell_matrix).wf(),
        ensures
            final(self).wf(),
            final(self).buttons@.len() == old(self).buttons@.len(),
            final(self).selected_index as int == spec_next_index(
                old(self).selected_index as int,
                old(self).buttons@.len() as int,
                pressed_key,
            ),
            forall|i: int|
                0 <= i < old(self).buttons@.len() ==> (#[trigger] final(self).buttons@[i]).event
                    == old(self).buttons@[i].event,
            e == (if pressed_key == Some(Key::Enter) {
                old(self).buttons@[old(self).selected_index as int].event
            } else {
                Event::Nothing
            }),
            final(cell_matrix).wf(),
            final(cell_matrix).width == old(cell_matrix).width,
            final(cell_matrix).height == old(cell_matrix).height,
            ({
                let moved = final(self).selected_index != old(self).selected_index;
                if moved {
                    &&& (forall|p: Vector|
                        old(cell_matrix).spec_in_bounds(p)
                            ==> #[trigger] final(cell_matrix).spec_get(p)
                            == crate::cell_group::overlay_cell(
                            buttons_maps(final(self).buttons@),
                            final(self).buttons@.len() as int,
                            p,
                            old(cell_matrix).spec_get(p),
                        ))
                    &&& final(self).buttons@[final(self).selected_index as int].text.bg_color
                        == old(self).buttons@[final(self).selected_index as int].selected_bg_color
                    &&& final(self).buttons@[final(self).selected_index as int].text.fg_color
                        == old(self).buttons@[final(self).selected_index as int].selected_fg_color
                    &&& final(self).buttons@[old(self).selected_index as int].text.bg_color == old(
                        self,
                    ).buttons@[old(self).selected_index as int].bg_color
                    &&& final(self).buttons@[old(self).selected_index as int].text.fg_color == old(
                        self,
                    ).buttons@[old(self).selected_index as int].fg_color
                } else {
                    *final(cell_matrix) == *old(cell_matrix)
                }
            }),
            old(cell_matrix).diff_wf() ==> final(cell_matrix).diff_wf(),
    {
        match pressed_key {
            Some(Key::Up) => {
                if self.selected_index > 0 {
                    let target = self.selected_index - 1;
                    self.update_selection(target, cell_matrix);
                }
            },
            Some(Key::Down) => {
                if self.selected_index < self.buttons.len() - 1 {
                    let target = self.selected_index + 1;
                    self.update_selection(target, cell_matrix);
                }
            },
            Some(Key::Enter) => {
                return self.buttons[self.selected_index].event();
            },
            _ => {},
        }
        Event::Nothing
    }

    /// Redraw every button into the matrix, in list order: a later
    /// button paints over an earlier one.
    pub fn render(&mut self, cell_matrix: &mut CellMatrix)
        requires
            old(self).wf(),
            old(cell_matrix).wf(),
        ensures
            final(self).wf(),
            final(self).buttons@.len() == old(self).buttons@.len(),
            final(self).selected_index == old(self).selected_index,
            forall|i: int|
                0 <= i < old(self).buttons@.len() ==> (#[trigger] final(self).buttons@[i]).event
                    == old(self).buttons@[i].event,
            forall|i: int|
                0 <= i < old(self).buttons@.len() ==> (
                #[trigger] final(self).buttons@[i]).text.ui_element.cell_group.spec_map() == old(
                    self,
                ).buttons@[i].text.ui_element.cell_group.spec_map(),
            forall|i: int|
                0 <= i < old(self).buttons@.len() ==> (
                #[trigger] final(self).buttons@[i]).text.bg_color == old(
                    self,
                ).buttons@[i].text.bg_color && final(self).buttons@[i].text.fg_color == old(
                    self,
                ).buttons@[i].text.fg_color,
            final(cell_matrix).wf(),
            final(cell_matrix).width == old(cell_matrix).width,
            final(cell_matrix).height == old(cell_matrix).height,
            forall|p: Vector|
                old(cell_matrix).spec_in_bounds(p) ==> #[trigger] final(cell_matrix).spec_get(p)
                    == crate::cell_group::overlay_cell(
                    buttons_maps(old(self).buttons@),
                    old(self).buttons@.len() as int,
                    p,
                    old(cell_matrix).spec_get(p),
                ),
            old(cell_matrix).diff_wf() ==> final(cell_matrix).diff_wf(),
    {
        let n = self.buttons.len();
        let mut i: usize = 0;
        while i < n
            invariant
                n == self.buttons@.len(),
                n == old(self).buttons@.len(),
                i <= n,
                self.selected_index == old(self).selected_index,
                self.wf(),
                forall|j: int|
                    0 <= j < n ==> (#[trigger] self.buttons@[j]).event == old(
                        self,
                    ).buttons@[j].event,
                forall|j: int|
                    0 <= j < n ==> (
                    #[trigger] self.buttons@[j]).text.ui_element.cell_group.spec_map() == old(
                        self,
                    ).buttons@[j].text.ui_element.cell_group.spec_map(),
                forall|j: int|
                    0 <= j < n ==> (#[trigger] self.buttons@[j]).text.bg_color == old(
                        self,
                    ).buttons@[j].text.bg_color && self.buttons@[j].text.fg_color == old(
                        self,
                    ).buttons@[j].text.fg_color,
                cell_matrix.wf(),
                cell_matrix.width == old(cell_matrix).width,
                cell_matrix.height == old(cell_matrix).height,
                forall|p: Vector|
                    old(cell_matrix).spec_in_bounds(p) ==> #[trigger] cell_matrix.spec_get(p)
                        == crate::cell_group::overlay_cell(
                        buttons_maps(old(self).buttons@),
                        i as int,
                        p,
                        old(cell_matrix).spec_get(p),
                    ),
                old(cell_matrix).diff_wf() ==> cell_matrix.diff_wf(),
            decreases n - i,
        {
            let ghost pre = *self;
            let ghost pre_matrix = *cell_matrix;
            let slot = &mut self.buttons[i];
            let ghost pre_button = *slot;
            crate::ui::button::Button::render(slot, cell_matrix);
            proof {
                let maps = buttons_maps(old(self).buttons@);
                assert(pre_button.text.ui_element.cell_group.spec_map() == maps[i as int]);
                assert forall|p: Vector|
                    old(cell_matrix).spec_in_bounds(p) implies #[trigger] cell_matrix.spec_get(p)
                    == crate::cell_group::overlay_cell(
                    maps,
                    i as int + 1,
                    p,
                    old(cell_matrix).spec_get(p),
                ) by {
                    assert(pre_matrix.spec_get(p) == crate::cell_group::overlay_cell(
                        maps,
                        i as int,
                        p,
                        old(cell_matrix).spec_get(p),
                    ));
                }
                assert forall|j: int|
                    0 <= j < n implies (
                #[trigger] self.buttons@[j]).text.ui_element.cell_group.spec_map() == old(
                    self,
                ).buttons@[j].text.ui_element.cell_group.spec_map() by {
                    if j != i as int {
                        assert(self.buttons@[j] == pre.buttons@[j]);
                    }
                }
                assert forall|j: int|
                    0 <= j < n implies (#[trigger] self.buttons@[j]).event == old(
                    self,
                ).buttons@[j].event by {
                    if j != i as int {
                        assert(self.buttons@[j] == pre.buttons@[j]);
                    }
                }
                assert forall|j: int|
                    0 <= j < n implies (#[trigger] self.buttons@[j]).text.bg_color == old(
                    self,
                ).buttons@[j].text.bg_color && self.buttons@[j].text.fg_color == old(
                    self,
                ).buttons@[j].text.fg_color by {
                    if j != i as int {
                        assert(self.buttons@[j] == pre.buttons@[j]);
                    }
                }
            }
            i = i + 1;
        }
    }

    /// Move the selection: deselect the old button, select the new
    /// one, redraw.
    fn update_selection(&mut self, index: usize, cell_matrix: &mut CellMatrix)
        requires
            old(self).wf(),
            old(self).buttons@.len() > 0,
            index < old(self).buttons@.len(),
            old(cell_matrix).wf(),
        ensures
            final(self).wf(),
            final(self).buttons@.len() == old(self).buttons@.len(),
            final(self).selected_index == index,
            forall|i: int|
                0 <= i < old(self).buttons@.len() ==> (#[trigger] final(self).buttons@[i]).event
                    == old(self).buttons@[i].event,
            final(self).buttons@[index as int].text.bg_color == old(
                self,
            ).buttons@[index as int].selected_bg_color,
            final(self).buttons@[index as int].text.fg_color == old(
                self,
            ).buttons@[index as int].selected_fg_color,
            index != old(self).selected_index ==> {
                &&& final(self).buttons@[old(self).selected_index as int].text.bg_color == old(
                    self,
                ).buttons@[old(self).selected_index as int].bg_color
                &&& final(self).buttons@[old(self).selected_index as int].text.fg_color == old(
                    self,
                ).buttons@[old(self).selected_index as int].fg_color
            },
            final(cell_matrix).wf(),
            final(cell_matrix).width == old(cell_matrix).width,
            final(cell_matrix).height == old(cell_matrix).height,
            forall|p: Vector|
                old(cell_matrix).spec_in_bounds(p) ==> #[trigger] final(cell_matrix).spec_get(p)
                    == crate::cell_group::overlay_cell(
                    buttons_maps(final(self).buttons@),
                    final(self).buttons@.len() as int,
                    p,
                    old(cell_matrix).spec_get(p),
                ),
            old(cell_matrix).diff_wf() ==> final(cell_matrix).diff_wf(),
    {
        let current = self.selected_index;
        self.buttons[current].deselect();
        self.selected_index = index;
        self.buttons[index].select();
        let ghost recolored = *self;
        self.render(cell_matrix);
        proof {
            assert forall|p: Vector|
                old(cell_matrix).spec_in_bounds(p) implies #[trigger] cell_matrix.spec_get(p)
                == crate::cell_group::overlay_cell(
                buttons_maps(self.buttons@),
                self.buttons@.len() as int,
                p,
                old(cell_matrix).spec_get(p),
            ) by {
                assert forall|i: int|
                    0 <= i < self.buttons@.len() implies #[trigger] buttons_maps(
                    recolored.buttons@,
                )[i] == buttons_maps(self.buttons@)[i] by {}
                crate::cell_group::lemma_overlay_cell_congruent(
                    buttons_maps(recolored.buttons@),
                    buttons_maps(self.buttons@),
                    self.buttons@.len() as int,
                    p,
                    old(cell_matrix).spec_get(p),
                );
            }
        }
    }
}

} // verus!
