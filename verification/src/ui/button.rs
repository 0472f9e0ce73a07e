//! A button: a text widget with a normal and a selected color pair
//! and the event it raises when chosen.

use vstd::prelude::*;

use crate::cell_matrix::CellMatrix;
use crate::color::Rgb;
use crate::events::Event;
use crate::ui::text::Text;
use crate::ui::ui_element::Orientation;
use crate::vector::{Offset, Vector};

verus! {

pub struct Button {
    pub text: Text,
    pub bg_color: Rgb,
    pub fg_color: Rgb,
    pub selected_bg_color: Rgb,
    pub selected_fg_color: Rgb,
    pub event: Event,
}

impl Button {
    pub open spec fn wf(self) -> bool {
        self.text.wf()
    }

    /// Build a button: the label padded with one space on each side,
    /// shown in the normal colors.
    pub fn new(
        name: String,
        position: Offset,
        anchor: Orientation,
        alignment: Orientation,
        string: String,
        cell_matrix_width: u16,
        cell_matrix_height: u16,
        bg_color: Rgb,
        fg_color: Rgb,
        selected_bg_color: Rgb,
        selected_fg_color: Rgb,
        event: Event,
    ) -> (b: Button)
        ensures
            b.wf(),
            b.event == event,
            b.bg_color == bg_color,
            b.fg_color == fg_color,
            b.selected_bg_color == selected_bg_color,
            b.selected_fg_color == selected_fg_color,
            b.text.string@ =~= seq![' '] + string@ + seq![' '],
            b.text.bg_color == bg_color,
            b.text.fg_color == fg_color,
            b.text.ui_element.name@ == name@,
    {
        proof {
            reveal_strlit(" ");
        }
        let mut padded = String::new();
        padded.append(" ");
        padded.append(string.as_str());
        padded.append(" ");
        proof {
            assert(padded@ =~= seq![' '] + string@ + seq![' ']);
        }

        let text = Text::new(
            name,
            position,
            anchor,
            alignment,
            padded,
            cell_matrix_width,
            cell_matrix_height,
            bg_color,
            fg_color,
        );

        Button { text, bg_color, fg_color, selected_bg_color, selected_fg_color, event }
    }

    pub fn event(&self) -> (e: Event)
        ensures
            e == self.event,
    {
        self.event
    }

    /// Show the button in its selected colors.
    pub fn select(&mut self)
        requires
            old(self).wf(),
        ensures
            final(self).wf(),
            final(self).event == old(self).event,
            final(self).text.bg_color == old(self).selected_bg_color,
            final(self).text.fg_color == old(self).selected_fg_color,
            final(self).text.string@ == old(self).text.string@,
            final(self).text.ui_element.name@ == old(self).text.ui_element.name@,
            final(self).bg_color == old(self).bg_color,
            final(self).fg_color == old(self).fg_color,
            final(self).selected_bg_color == old(self).selected_bg_color,
            final(self).selected_fg_color == old(self).selected_fg_color,
    {
        let bg = self.selected_bg_color;
        let fg = self.selected_fg_color;
        self.text.set_bg_color(bg);
        self.text.set_fg_color(fg);
    }

    /// Show the button in its normal colors.
    pub fn deselect(&mut self)
        requires
            old(self).wf(),
        ensures
            final(self).wf(),
            final(self).event == old(self).event,
            final(self).text.bg_color == old(self).bg_color,
            final(self).text.fg_color == old(self).fg_color,
            final(self).text.string@ == old(self).text.string@,
            final(self).text.ui_element.name@ == old(self).text.ui_element.name@,
            final(self).bg_color == old(self).bg_color,
            final(self).fg_color == old(self).fg_color,
            final(self).selected_bg_color == old(self).selected_bg_color,
            final(self).selected_fg_color == old(self).selected_fg_color,
    {
        let bg = self.bg_color;
        let fg = self.fg_color;
        self.text.set_bg_color(bg);
        self.text.set_fg_color(fg);
    }

    /// Merge the button's text into the matrix.
    pub fn render(&mut self, cell_matrix: &mut CellMatrix)
        requires
            old(self).wf(),
            old(cell_matrix).wf(),
        ensures
            final(self).wf(),
            final(self).event == old(self).event,
            final(self).text.string@ == old(self).text.string@,
            final(self).bg_color == old(self).bg_color,
            final(self).fg_color == old(self).fg_color,
            final(self).selected_bg_color == old(self).selected_bg_color,
            final(self).selected_fg_color == old(self).selected_fg_color,
            final(self).text.ui_element.cell_group.spec_map() =~= old(
                self,
            ).text.ui_element.cell_group.spec_map(),
            final(self).text.bg_color == old(self).text.bg_color,
            final(self).text.fg_color == old(self).text.fg_color,
            final(cell_matrix).wf(),
            final(cell_matrix).width == old(cell_matrix).width,
            final(cell_matrix).height == old(cell_matrix).height,
            forall|p: Vector|
                old(cell_matrix).spec_in_bounds(p) ==> #[trigger] final(cell_matrix).spec_get(p)
                    == (if old(self).text.ui_element.cell_group.spec_map().contains_key(p) {
                    old(self).text.ui_element.cell_group.spec_map()[p]
                } else {
                    old(cell_matrix).spec_get(p)
                }),
            old(cell_matrix).diff_wf() ==> final(cell_matrix).diff_wf(),
    {
        self.text.render(cell_matrix);
    }
}

} // verus!
