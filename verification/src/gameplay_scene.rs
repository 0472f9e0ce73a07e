//! The gameplay scene: the playable grid with its wall, snake, fruit
//! and status texts, driven one tick at a time.

use vstd::prelude::*;

use crate::cell::{Cell, CellType};
use crate::cell_matrix::CellMatrix;
use crate::dec::{centi_str, centi_string, zero_padded_decimal};
use crate::events::Event;
use crate::fruit::{in_area, Fruit};
use crate::gameplay_context::GameplayContext;
use crate::input::Key;
use crate::scene::UpdateResult;
use crate::snake::{can_step, next_direction, step_position, Direction, Snake, INITIAL_SNAKE_LENGTH};
use crate::ui::text::Text;
use crate::vector::Vector;
use crate::wall::Wall;

verus! {

/// How fast the snake moves, in grid cells per second.
pub const SNAKE_SPEED: u16 = 10;

pub struct GameplayScene {
    pub name: String,
    pub cell_matrix: CellMatrix,
    pub texts: Vec<Text>,
    pub gameplay_area_origin: Vector,
    pub gameplay_area_extension: Vector,
    pub wall: Wall,
    pub snake: Snake,
    pub fruit: Fruit,
    pub score: u32,
}

impl GameplayScene {
    /// The playable area sits strictly inside the grid, away from the
    /// left and top border.
    pub open spec fn area_ok(self) -> bool {
        &&& 1 <= self.gameplay_area_origin.x
        &&& 1 <= self.gameplay_area_origin.y
        &&& self.gameplay_area_origin.x < self.gameplay_area_extension.x
        &&& self.gameplay_area_extension.x <= self.cell_matrix.width
        &&& self.gameplay_area_origin.y < self.gameplay_area_extension.y
        &&& self.gameplay_area_extension.y <= self.cell_matrix.height
    }

    /// Every fruit-kind cell of the grid sits off the left and top
    /// border, so a snake that just ate can always grow one cell
    /// further.
    pub open spec fn fruit_cells_inside(self) -> bool {
        forall|p: Vector|
            self.cell_matrix.spec_in_bounds(p) && (#[trigger] self.cell_matrix.spec_get(
                p,
            )).cell_type == CellType::Fruit ==> 1 <= p.x && 1 <= p.y
    }

    /// The grid shows a full redraw of the scene: every cell blank
    /// except where the wall frame stands, with the texts painted
    /// over both.
    pub open spec fn spec_fully_drawn(self) -> bool {
        forall|p: Vector|
            self.cell_matrix.spec_in_bounds(p) ==> #[trigger] self.cell_matrix.spec_get(p)
                == crate::cell_group::overlay_cell(
                crate::ui::text::texts_maps(self.texts@),
                self.texts@.len() as int,
                p,
                (if self.wall.cell_group.spec_map().contains_key(p) {
                    self.wall.cell_group.spec_map()[p]
                } else {
                    crate::cell::spec_empty_cell()
                }),
            )
    }

    pub open spec fn wf(self) -> bool {
        &&& self.cell_matrix.wf()
        &&& self.cell_matrix.diff_wf()
        &&& self.area_ok()
        &&& self.fruit_cells_inside()
        &&& self.wall.wf()
        &&& self.snake.wf()
        &&& self.fruit.wf()
        &&& (self.snake.body@.len() == 0 ==> self.snake.speed == 0)
        &&& (self.fruit.position matches Some(p) ==> in_area(
            self.gameplay_area_origin,
            self.gameplay_area_extension,
            p,
        ))
        &&& (forall|i: int| 0 <= i < self.texts@.len() ==> (#[trigger] self.texts@[i]).wf())
    }

    /// The text overlays as the tick's decision sees them: the first
    /// frame-rate text redrawn with the measured rate, the others as
    /// stored.
    pub open spec fn spec_tick_maps(texts: Seq<Text>, fps_centi: u64) -> Seq<Map<Vector, Cell>> {
        let i = crate::ui::text::first_named(texts, "fps"@);
        if i < texts.len() {
            crate::ui::text::texts_maps(texts).update(
                i,
                crate::ui::text::spec_set_string_map(texts[i], centi_str(fps_centi as nat)),
            )
        } else {
            crate::ui::text::texts_maps(texts)
        }
    }

    /// The cell the step classification reads at `p`: the fruit
    /// overlay over the snake overlay over the refreshed texts over
    /// the incoming grid.
    pub open spec fn spec_decision_cell(self, fps_centi: u64, p: Vector) -> Cell
        recommends
            self.cell_matrix.spec_in_bounds(p),
    {
        let after_texts = crate::cell_group::overlay_cell(
            Self::spec_tick_maps(self.texts@, fps_centi),
            self.texts@.len() as int,
            p,
            self.cell_matrix.spec_get(p),
        );
        let painted = crate::snake::painted_map(
            self.snake.cell_group.spec_map(),
            self.snake.body@,
            self.snake.body@.len() as int,
        );
        let after_snake = if painted.contains_key(p) {
            painted[p]
        } else {
            after_texts
        };
        if self.fruit.cell_group.spec_map().contains_key(p) {
            self.fruit.cell_group.spec_map()[p]
        } else {
            after_snake
        }
    }

    /// Whether this tick's snake step, if one is due, stays
    /// representable on the grid: what the caller must know before a
    /// non-paused, non-restarting update.
    pub open spec fn tick_steppable(self, pressed_key: Option<Key>, frame_us: u64) -> bool {
        self.snake.spec_step_ready(frame_us) ==> self.snake.body@.len() > 0 && can_step(
            self.snake.body@[0],
            next_direction(self.snake.direction, pressed_key),
        )
    }

    /// A fresh gameplay scene: an empty grid with the playable area
    /// one cell in from the left, top and right borders and two cells
    /// up from the bottom, and placeholder snake and fruit until a
    /// game starts.
    pub fn new(name: String, width: u16, height: u16) -> (s: GameplayScene)
        requires
            width as int * height as int <= u16::MAX as int,
            width >= 3,
            height >= 4,
        ensures
            s.wf(),
            s.name@ == name@,
            s.cell_matrix.width == width,
            s.cell_matrix.height == height,
            s.gameplay_area_origin == (Vector { x: 1u16, y: 1u16 }),
            s.gameplay_area_extension == (Vector { x: (width - 1) as u16, y: (height - 2) as u16 }),
            s.snake.body@.len() == 0,
            s.fruit.position is None,
            s.score == 0,
            s.texts@.len() == 0,
    {
        let cell_matrix = CellMatrix::new(width, height);
        proof {
            assert forall|p: Vector|
                cell_matrix.spec_in_bounds(p) implies (#[trigger] cell_matrix.spec_get(
                p,
            )).cell_type != CellType::Fruit by {
                cell_matrix.lemma_index_in_range(p);
            }
        }
        GameplayScene {
            name,
            cell_matrix,
            texts: Vec::new(),
            gameplay_area_origin: Vector::new(1, 1),
            gameplay_area_extension: Vector::new(width - 1, height - 2),
            wall: Wall::new(width, height - 1),
            snake: Snake::none(),
            fruit: Fruit::none(),
            score: 0,
        }
    }

    pub fn name(&self) -> (n: String)
        ensures
            n@ == self.name@,
    {
        self.name.clone()
    }

    pub fn score(&self) -> (s: u32)
        ensures
            s == self.score,
    {
        self.score
    }

    /// Store a text widget under its name, replacing one of the same
    /// name.
    pub fn add_text(&mut self, text: Text)
        requires
            old(self).wf(),
            text.wf(),
        ensures
            final(self).wf(),
            *final(self) == (GameplayScene { texts: final(self).texts, ..*old(self) }),
            final(self).texts@.len() >= 1,
            (exists|i: int|
                0 <= i < old(self).texts@.len() && (#[trigger] old(self).texts@[i]).ui_element.name@
                    == text.ui_element.name@ && final(self).texts@ == old(self).texts@.update(
                    i,
                    text,
                )) || (final(self).texts@ == old(self).texts@.push(text)),
            exists|i: int|
                0 <= i < final(self).texts@.len() && #[trigger] final(self).texts@[i] == text,
    {
        let n = self.texts.len();
        let mut k: usize = 0;
        while k < n
            invariant
                old(self).wf(),
                text.wf(),
                *self == *old(self),
                n == self.texts@.len(),
                k <= n,
            decreases n - k,
        {
            if self.texts[k].ui_element.name == text.ui_element.name {
                proof {
                    assert(old(self).texts@[k as int].ui_element.name@ == text.ui_element.name@);
                }
                self.texts[k] = text;
                proof {
                    assert(self.texts@[k as int] == text);
                }
                return ;
            }
            k = k + 1;
        }
        self.texts.push(text);
        proof {
            assert(self.texts@[n as int] == text);
        }
    }

    /// Update the string of the text stored under `text_name`, if one
    /// is.
    pub fn set_text(&mut self, text_name: &str, new_text: String)
        requires
            old(self).wf(),
        ensures
            final(self).wf(),
            *final(self) == (GameplayScene { texts: final(self).texts, ..*old(self) }),
            final(self).texts@.len() == old(self).texts@.len(),
            ({
                let i = crate::ui::text::first_named(old(self).texts@, text_name@);
                if i < old(self).texts@.len() {
                    &&& (forall|j: int|
                        0 <= j < old(self).texts@.len() && j != i ==> final(self).texts@[j] == old(
                            self,
                        ).texts@[j])
                    &&& final(self).texts@[i].ui_element.name@ == text_name@
                    &&& final(self).texts@[i].string@ == new_text@
                    &&& final(self).texts@[i].ui_element.cell_group.spec_map()
                        =~= crate::ui::text::spec_set_string_map(old(self).texts@[i], new_text@)
                } else {
                    final(self).texts == old(self).texts
                }
            }),
    {
        let target = text_name.to_owned();
        let n = self.texts.len();
        let mut k: usize = 0;
        while k < n
            invariant
                old(self).wf(),
                n == self.texts@.len(),
                n == old(self).texts@.len(),
                k <= n,
                *self == (GameplayScene { texts: self.texts, ..*old(self) }),
                self.texts@.len() == n,
                forall|i: int| 0 <= i < n ==> (#[trigger] self.texts@[i]).wf(),
                target@ == text_name@,
                self.texts == old(self).texts,
                forall|j: int|
                    0 <= j < k ==> (#[trigger] self.texts@[j]).ui_element.name@ != text_name@,
            decreases n - k,
        {
            if self.texts[k].ui_element.name == target {
                proof {
                    crate::ui::text::lemma_first_named(old(self).texts@, text_name@, k as int);
                }
                let slot = &mut self.texts[k];
                slot.set_string(new_text);
                proof {
                    assert(self.texts@.len() == n);
                    assert(self.texts@[k as int].ui_element.name@ == text_name@);
                    assert(self.texts@[k as int].string@ == new_text@);
                }
                return ;
            }
            k = k + 1;
        }
        proof {
            crate::ui::text::lemma_first_named(old(self).texts@, text_name@, n as int);
            assert(self.texts == old(self).texts);
        }
    }

    /// Redraw every stored text into the matrix, in storage order: a
    /// later text paints over an earlier one.
    pub fn render_texts(&mut self)
        requires
            old(self).wf(),
        ensures
            final(self).wf(),
            *final(self) == (GameplayScene {
                texts: final(self).texts,
                cell_matrix: final(self).cell_matrix,
                ..*old(self)
            }),
            final(self).texts@.len() == old(self).texts@.len(),
            final(self).cell_matrix.width == old(self).cell_matrix.width,
            final(self).cell_matrix.height == old(self).cell_matrix.height,
            forall|p: Vector|
                old(self).cell_matrix.spec_in_bounds(p) ==> #[trigger] final(self).cell_matrix.spec_get(p) == crate::cell_group::overlay_cell(
                    crate::ui::text::texts_maps(old(self).texts@),
                    old(self).texts@.len() as int,
                    p,
                    old(self).cell_matrix.spec_get(p),
                ),
            forall|i: int|
                0 <= i < old(self).texts@.len() ==> (
                #[trigger] final(self).texts@[i]).ui_element.cell_group.spec_map() == old(
                    self,
                ).texts@[i].ui_element.cell_group.spec_map(),
            forall|i: int|
                0 <= i < old(self).texts@.len() ==> (#[trigger] final(self).texts@[i]).ui_element.name@
                    == old(self).texts@[i].ui_element.name@ && final(self).texts@[i].string@ == old(
                    self,
                ).texts@[i].string@,
    {
        let n = self.texts.len();
        let mut k: usize = 0;
        while k < n
            invariant
                old(self).wf(),
                n == self.texts@.len(),
                n == old(self).texts@.len(),
                k <= n,
                forall|i: int|
                    0 <= i < n ==> (#[trigger] self.texts@[i]).ui_element.name@ == old(
                        self,
                    ).texts@[i].ui_element.name@ && self.texts@[i].string@ == old(
                        self,
                    ).texts@[i].string@,
                *self == (GameplayScene {
                    texts: self.texts,
                    cell_matrix: self.cell_matrix,
                    ..*old(self)
                }),
                self.wf(),
                self.texts@.len() == n,
                self.cell_matrix.width == old(self).cell_matrix.width,
                self.cell_matrix.height == old(self).cell_matrix.height,
                forall|i: int|
                    0 <= i < n ==> (#[trigger] self.texts@[i]).ui_element.cell_group.spec_map()
                        == old(self).texts@[i].ui_element.cell_group.spec_map(),
                forall|p: Vector|
                    old(self).cell_matrix.spec_in_bounds(p) ==> #[trigger] self.cell_matrix.spec_get(
                        p,
                    ) == crate::cell_group::overlay_cell(
                        crate::ui::text::texts_maps(old(self).texts@),
                        k as int,
                        p,
                        old(self).cell_matrix.spec_get(p),
                    ),
            decreases n - k,
        {
            let ghost pre = *self;
            let text = &mut self.texts[k];
            let ghost pre_text = *text;
            crate::ui::text::Text::render(text, &mut self.cell_matrix);
            proof {
                assert(self.texts@[k as int].wf());
                assert forall|i: int|
                    0 <= i < n implies (#[trigger] self.texts@[i]).ui_element.name@ == old(
                    self,
                ).texts@[i].ui_element.name@ && self.texts@[i].string@ == old(
                    self,
                ).texts@[i].string@ by {
                    if i != k as int {
                        assert(self.texts@[i] == pre.texts@[i]);
                    }
                }
                assert forall|p: Vector|
                    self.cell_matrix.spec_in_bounds(p) && (#[trigger] self.cell_matrix.spec_get(
                        p,
                    )).cell_type == CellType::Fruit implies 1 <= p.x && 1 <= p.y by {
                    if pre_text.ui_element.cell_group.spec_map().contains_key(p) {
                        crate::cell_group::lemma_as_map_values(
                            pre_text.ui_element.cell_group.entries@,
                            p,
                        );
                    }
                }
                let maps = crate::ui::text::texts_maps(old(self).texts@);
                assert(pre_text.ui_element.cell_group.spec_map() == maps[k as int]);
                assert forall|p: Vector|
                    old(self).cell_matrix.spec_in_bounds(p) implies #[trigger] self.cell_matrix.spec_get(
                    p,
                ) == crate::cell_group::overlay_cell(
                    maps,
                    k as int + 1,
                    p,
                    old(self).cell_matrix.spec_get(p),
                ) by {
                    assert(pre.cell_matrix.spec_get(p) == crate::cell_group::overlay_cell(
                        maps,
                        k as int,
                        p,
                        old(self).cell_matrix.spec_get(p),
                    ));
                }
                assert forall|i: int|
                    0 <= i < n implies (#[trigger] self.texts@[i]).ui_element.cell_group.spec_map()
                    == old(self).texts@[i].ui_element.cell_group.spec_map() by {
                    if i != k as int {
                        assert(self.texts@[i] == pre.texts@[i]);
                    }
                }
            }
            k = k + 1;
        }
    }

    /// The older score display hook: redraw the texts.
    pub fn render_score_text(&mut self)
        requires
            old(self).wf(),
        ensures
            final(self).wf(),
            *final(self) == (GameplayScene {
                texts: final(self).texts,
                cell_matrix: final(self).cell_matrix,
                ..*old(self)
            }),
            final(self).cell_matrix.width == old(self).cell_matrix.width,
            final(self).cell_matrix.height == old(self).cell_matrix.height,
    {
        self.render_texts();
    }

    /// Redraw the whole scene from scratch: every cell blanked, the
    /// wall frame painted over the blanks, and the texts painted over
    /// both, in storage order.
    pub fn render(&mut self)
        requires
            old(self).wf(),
        ensures
            final(self).wf(),
            *final(self) == (GameplayScene {
                texts: final(self).texts,
                cell_matrix: final(self).cell_matrix,
                wall: final(self).wall,
                ..*old(self)
            }),
            final(self).cell_matrix.width == old(self).cell_matrix.width,
            final(self).cell_matrix.height == old(self).cell_matrix.height,
            final(self).texts@.len() == old(self).texts@.len(),
            forall|i: int|
                0 <= i < old(self).texts@.len() ==> (
                #[trigger] final(self).texts@[i]).ui_element.cell_group.spec_map() == old(
                    self,
                ).texts@[i].ui_element.cell_group.spec_map(),
            final(self).wall.cell_group.spec_map() =~= old(self).wall.cell_group.spec_map(),
            forall|i: int|
                0 <= i < old(self).texts@.len() ==> (#[trigger] final(self).texts@[i]).ui_element.name@
                    == old(self).texts@[i].ui_element.name@ && final(self).texts@[i].string@ == old(
                    self,
                ).texts@[i].string@,
            final(self).spec_fully_drawn(),
    {
        self.cell_matrix.clear();
        proof {
            assert forall|p: Vector|
                self.cell_matrix.spec_in_bounds(p) implies #[trigger] self.cell_matrix.spec_get(p)
                == crate::cell::spec_empty_cell() by {
                self.cell_matrix.lemma_index_in_range(p);
            }
        }
        let ghost pre_wall = self.wall;
        let ghost cleared = self.cell_matrix;
        self.wall.render(&mut self.cell_matrix);
        proof {
            assert forall|p: Vector|
                self.cell_matrix.spec_in_bounds(p) && (#[trigger] self.cell_matrix.spec_get(
                    p,
                )).cell_type == CellType::Fruit implies 1 <= p.x && 1 <= p.y by {
                if pre_wall.cell_group.spec_map().contains_key(p) {
                    crate::cell_group::lemma_as_map_values(pre_wall.cell_group.entries@, p);
                }
            }
            assert forall|p: Vector|
                old(self).cell_matrix.spec_in_bounds(p) implies #[trigger] self.cell_matrix.spec_get(
                p,
            ) == (if old(self).wall.cell_group.spec_map().contains_key(p) {
                old(self).wall.cell_group.spec_map()[p]
            } else {
                crate::cell::spec_empty_cell()
            }) by {
                assert(cleared.spec_get(p) == crate::cell::spec_empty_cell());
            }
        }
        let ghost mid = *self;
        self.render_texts();
        proof {
            assert forall|p: Vector|
                self.cell_matrix.spec_in_bounds(p) implies #[trigger] self.cell_matrix.spec_get(p)
                == crate::cell_group::overlay_cell(
                crate::ui::text::texts_maps(self.texts@),
                self.texts@.len() as int,
                p,
                (if self.wall.cell_group.spec_map().contains_key(p) {
                    self.wall.cell_group.spec_map()[p]
                } else {
                    crate::cell::spec_empty_cell()
                }),
            ) by {
                let fallback = if old(self).wall.cell_group.spec_map().contains_key(p) {
                    old(self).wall.cell_group.spec_map()[p]
                } else {
                    crate::cell::spec_empty_cell()
                };
                assert(mid.cell_matrix.spec_get(p) == fallback);
                assert(self.cell_matrix.spec_get(p) == crate::cell_group::overlay_cell(
                    crate::ui::text::texts_maps(mid.texts@),
                    mid.texts@.len() as int,
                    p,
                    fallback,
                ));
                assert forall|i: int|
                    0 <= i < self.texts@.len() implies #[trigger] crate::ui::text::texts_maps(
                    self.texts@,
                )[i] == crate::ui::text::texts_maps(mid.texts@)[i] by {}
                crate::cell_group::lemma_overlay_cell_congruent(
                    crate::ui::text::texts_maps(mid.texts@),
                    crate::ui::text::texts_maps(self.texts@),
                    self.texts@.len() as int,
                    p,
                    fallback,
                );
                assert(self.wall.cell_group.spec_map() == old(self).wall.cell_group.spec_map());
            }
        }
    }

    /// Hand out the queued grid writes as terminal text, oldest
    /// first.
    pub fn flush_strings(&mut self) -> (out: Vec<String>)
        requires
            old(self).wf(),
        ensures
            final(self).wf(),
            *final(self) == (GameplayScene { cell_matrix: final(self).cell_matrix, ..*old(self) }),
            final(self).cell_matrix.diff@.len() == 0,
            out@.len() == old(self).cell_matrix.diff@.len(),
            forall|k: int|
                0 <= k < out@.len() ==> #[trigger] out@[k]@ == crate::ansi::cell_repr(
                    old(self).cell_matrix.diff@[k].0,
                    old(self).cell_matrix.diff@[k].1,
                ),
    {
        let out = self.cell_matrix.flush_strings();
        proof {
            assert forall|p: Vector|
                self.cell_matrix.spec_in_bounds(p) && (#[trigger] self.cell_matrix.spec_get(
                    p,
                )).cell_type == CellType::Fruit implies 1 <= p.x && 1 <= p.y by {
                assert(self.cell_matrix.spec_get(p) == old(self).cell_matrix.spec_get(p));
            }
        }
        out
    }

    /// Begin a fresh game: a two-segment snake at the grid center
    /// facing up, a fruit on a free cell of the area, score zero.
    pub fn start_gameplay(&mut self)
        requires
            old(self).wf(),
        ensures
            final(self).wf(),
            final(self).name@ == old(self).name@,
            final(self).cell_matrix.width == old(self).cell_matrix.width,
            final(self).cell_matrix.height == old(self).cell_matrix.height,
            final(self).snake.body@.len() == INITIAL_SNAKE_LENGTH as int,
            final(self).snake.direction == Direction::Up,
            final(self).snake.speed == SNAKE_SPEED,
            final(self).snake.movement_accumulator == 0,
            final(self).snake.body@[0] == (Vector {
                x: (old(self).cell_matrix.width / 2) as u16,
                y: (old(self).cell_matrix.height / 2) as u16,
            }),
            final(self).score == 0,
            final(self).fruit.position is Some <==> exists|p: Vector|
                in_area(old(self).gameplay_area_origin, old(self).gameplay_area_extension, p) && (
                #[trigger] old(self).cell_matrix.spec_get(p)).cell_type == CellType::Empty,
            final(self).fruit.position matches Some(p) ==> in_area(
                old(self).gameplay_area_origin,
                old(self).gameplay_area_extension,
                p,
            ) && old(self).cell_matrix.spec_get(p).cell_type == CellType::Empty,
            final(self).gameplay_area_origin == old(self).gameplay_area_origin,
            final(self).gameplay_area_extension == old(self).gameplay_area_extension,
    {
        let center = Vector::new(self.cell_matrix.width() / 2, self.cell_matrix.height() / 2);
        self.snake = Snake::new(&center, SNAKE_SPEED);

        let fruit = Fruit::new(
            &self.cell_matrix,
            &self.gameplay_area_origin,
            &self.gameplay_area_extension,
        );
        self.fruit = fruit;

        self.score = 0;
        self.update_score_text(0);
    }

    /// Show the measured frame rate.
    fn update_fps_text(&mut self, fps_centi: u64)
        requires
            old(self).wf(),
        ensures
            final(self).wf(),
            *final(self) == (GameplayScene {
                texts: final(self).texts,
                cell_matrix: final(self).cell_matrix,
                ..*old(self)
            }),
            final(self).cell_matrix.width == old(self).cell_matrix.width,
            final(self).cell_matrix.height == old(self).cell_matrix.height,
            final(self).texts@.len() == old(self).texts@.len(),
            Self::spec_texts_kept(old(self).texts@, final(self).texts@, "fps"@),
            forall|p: Vector|
                old(self).cell_matrix.spec_in_bounds(p) ==> #[trigger] final(self).cell_matrix.spec_get(
                    p,
                ) == crate::cell_group::overlay_cell(
                    Self::spec_tick_maps(old(self).texts@, fps_centi),
                    old(self).texts@.len() as int,
                    p,
                    old(self).cell_matrix.spec_get(p),
                ),
    {
        let shown = centi_string(fps_centi);
        let ghost shown_view = shown@;
        self.set_text("fps", shown);
        let ghost mid = *self;
        proof {
            assert forall|i: int|
                0 <= i < mid.texts@.len() implies #[trigger] crate::ui::text::texts_maps(
                mid.texts@,
            )[i] == Self::spec_tick_maps(old(self).texts@, fps_centi)[i] by {
                let fi = crate::ui::text::first_named(old(self).texts@, "fps"@);
                crate::ui::text::lemma_first_named_nonneg(old(self).texts@, "fps"@);
                assert(mid.texts@.len() == old(self).texts@.len());
                assert(crate::ui::text::texts_maps(mid.texts@)[i]
                    == mid.texts@[i].ui_element.cell_group.spec_map());
                if fi < old(self).texts@.len() {
                    let m = crate::ui::text::spec_set_string_map(
                        old(self).texts@[fi],
                        centi_str(fps_centi as nat),
                    );
                    assert(Self::spec_tick_maps(old(self).texts@, fps_centi)
                        == crate::ui::text::texts_maps(old(self).texts@).update(fi, m));
                    if i == fi {
                        assert(shown_view == centi_str(fps_centi as nat));
                        assert(mid.texts@[i].ui_element.cell_group.spec_map()
                            =~= crate::ui::text::spec_set_string_map(
                            old(self).texts@[i],
                            shown_view,
                        ));
                        assert(0 <= fi < old(self).texts@.len());
                        assert(crate::ui::text::texts_maps(old(self).texts@).update(fi, m)[i]
                            == m);
                        assert(Self::spec_tick_maps(old(self).texts@, fps_centi)[i] == m);
                    } else {
                        assert(mid.texts@[i] == old(self).texts@[i]);
                        assert(Self::spec_tick_maps(old(self).texts@, fps_centi)[i]
                            == crate::ui::text::texts_maps(old(self).texts@)[i]);
                    }
                } else {
                    assert(mid.texts@[i] == old(self).texts@[i]);
                    assert(Self::spec_tick_maps(old(self).texts@, fps_centi)
                        == crate::ui::text::texts_maps(old(self).texts@));
                }
            }
        }
        self.render_texts();
        proof {
            assert forall|p: Vector|
                old(self).cell_matrix.spec_in_bounds(p) implies #[trigger] self.cell_matrix.spec_get(
                p,
            ) == crate::cell_group::overlay_cell(
                Self::spec_tick_maps(old(self).texts@, fps_centi),
                old(self).texts@.len() as int,
                p,
                old(self).cell_matrix.spec_get(p),
            ) by {
                assert(self.cell_matrix.spec_get(p) == crate::cell_group::overlay_cell(
                    crate::ui::text::texts_maps(mid.texts@),
                    mid.texts@.len() as int,
                    p,
                    mid.cell_matrix.spec_get(p),
                ));
                crate::cell_group::lemma_overlay_cell_congruent(
                    crate::ui::text::texts_maps(mid.texts@),
                    Self::spec_tick_maps(old(self).texts@, fps_centi),
                    mid.texts@.len() as int,
                    p,
                    mid.cell_matrix.spec_get(p),
                );
            }
        }
        proof {
            crate::ui::text::lemma_first_named_hit(old(self).texts@, "fps"@);
            crate::ui::text::lemma_first_named_nonneg(old(self).texts@, "fps"@);
            let fi = crate::ui::text::first_named(old(self).texts@, "fps"@);
            assert forall|j: int|
                0 <= j < old(self).texts@.len() implies ((#[trigger] self.texts@[j]).ui_element.name@
                == old(self).texts@[j].ui_element.name@ && (old(self).texts@[j].ui_element.name@
                != "fps"@ ==> self.texts@[j].string@ == old(self).texts@[j].string@)) by {
                if !(fi < old(self).texts@.len() && j == fi) {
                    assert(mid.texts@[j] == old(self).texts@[j]);
                }
                assert(self.texts@[j].ui_element.name@ == mid.texts@[j].ui_element.name@);
                assert(self.texts@[j].string@ == mid.texts@[j].string@);
            }
        }
    }

    /// Show the score, zero-padded to ten digits.
    fn update_score_text(&mut self, new_score: u32)
        requires
            old(self).wf(),
        ensures
            final(self).wf(),
            *final(self) == (GameplayScene {
                texts: final(self).texts,
                cell_matrix: final(self).cell_matrix,
                ..*old(self)
            }),
            final(self).cell_matrix.width == old(self).cell_matrix.width,
            final(self).cell_matrix.height == old(self).cell_matrix.height,
            Self::spec_texts_kept(old(self).texts@, final(self).texts@, "score"@),
    {
        let shown = zero_padded_decimal(new_score as u64, 10);
        self.set_text("score", shown);
        let ghost mid = *self;
        self.render_texts();
        proof {
            crate::ui::text::lemma_first_named_hit(old(self).texts@, "score"@);
            crate::ui::text::lemma_first_named_nonneg(old(self).texts@, "score"@);
            let fi = crate::ui::text::first_named(old(self).texts@, "score"@);
            assert forall|j: int|
                0 <= j < old(self).texts@.len() implies ((#[trigger] self.texts@[j]).ui_element.name@
                == old(self).texts@[j].ui_element.name@ && (old(self).texts@[j].ui_element.name@
                != "score"@ ==> self.texts@[j].string@ == old(self).texts@[j].string@)) by {
                if !(fi < old(self).texts@.len() && j == fi) {
                    assert(mid.texts@[j] == old(self).texts@[j]);
                }
                assert(self.texts@[j].ui_element.name@ == mid.texts@[j].ui_element.name@);
                assert(self.texts@[j].string@ == mid.texts@[j].string@);
            }
        }
    }

    /// Whether the next tick's requirements hold, so a driving loop
    /// can test them at run time before calling `update`.
    pub fn update_ready(
        &self,
        pressed_key: Option<Key>,
        frame_us: u64,
        gameplay_context: GameplayContext,
    ) -> (b: bool)
        ensures
            b == (gameplay_context.score < u32::MAX && (!gameplay_context.start_new_game
                ==> self.tick_steppable(pressed_key, frame_us))),
    {
        if gameplay_context.score() >= u32::MAX {
            return false;
        }
        if gameplay_context.start_new_game() {
            return true;
        }
        let acc: u64 = if frame_us <= u64::MAX - self.snake.movement_accumulator {
            self.snake.movement_accumulator + frame_us
        } else {
            u64::MAX
        };
        proof {
            assert((acc as u128) as int * (self.snake.speed as u128) as int <= u128::MAX as int)
                by (nonlinear_arith)
                requires
                    acc <= u64::MAX,
                    self.snake.speed <= u16::MAX,
            ;
        }
        if (acc as u128) * (self.snake.speed as u128) < 1000000u128 {
            return true;
        }
        if self.snake.body.len() == 0 {
            return false;
        }
        let head = self.snake.body[0];
        match crate::snake::turned(self.snake.direction, pressed_key) {
            Direction::Up => head.y > 0,
            Direction::Down => head.y < 0xffff,
            Direction::Left => head.x > 0,
            Direction::Right => head.x < 0xffff,
        }
    }

    /// Classify where the snake's head landed: a solid or snake cell
    /// ends the game; a fruit grows the snake, raises the score by
    /// one and places a new fruit; a blank cell, an off-grid head or
    /// no step at all changes nothing.
    pub fn handle_snake_update(
        &mut self,
        head: Option<Vector>,
        gameplay_context: GameplayContext,
    ) -> (r: UpdateResult)
        requires
            old(self).wf(),
            gameplay_context.score < u32::MAX,
            head matches Some(h) ==> ((old(self).cell_matrix.spec_in_bounds(h) && old(
                self,
            ).cell_matrix.spec_get(h).cell_type == CellType::Fruit) ==> old(self).snake.body@.len()
                > 0 && old(self).snake.body@[0] == h),
        ensures
            final(self).wf(),
            final(self).name@ == old(self).name@,
            final(self).cell_matrix.width == old(self).cell_matrix.width,
            final(self).cell_matrix.height == old(self).cell_matrix.height,
            ({
                let ate = head matches Some(h) && old(self).cell_matrix.spec_in_bounds(h) && old(
                    self,
                ).cell_matrix.spec_get(h).cell_type == CellType::Fruit;
                let died = head matches Some(h) && old(self).cell_matrix.spec_in_bounds(h) && (old(
                    self,
                ).cell_matrix.spec_get(h).cell_type == CellType::Solid || old(
                    self,
                ).cell_matrix.spec_get(h).cell_type == CellType::Snake);
                if died {
                    &&& r == (UpdateResult { event: Event::End, gameplay_context })
                    &&& *final(self) == *old(self)
                } else if ate {
                    &&& r == (UpdateResult {
                        event: Event::Nothing,
                        gameplay_context: GameplayContext {
                            score: (gameplay_context.score + 1) as u32,
                            start_new_game: gameplay_context.start_new_game,
                        },
                    })
                    &&& final(self).snake.body@.len() == old(self).snake.body@.len() + 1
                    &&& final(self).snake.direction == old(self).snake.direction
                    &&& final(self).snake.movement_accumulator == old(
                        self,
                    ).snake.movement_accumulator
                    &&& final(self).snake.body@[0] == crate::snake::step_position(
                        old(self).snake.body@[0],
                        old(self).snake.direction,
                    )
                    &&& final(self).score == gameplay_context.score + 1
                    &&& Self::spec_texts_kept(old(self).texts@, final(self).texts@, "score"@)
                    &&& (final(self).fruit.position matches Some(p) ==> in_area(
                        old(self).gameplay_area_origin,
                        old(self).gameplay_area_extension,
                        p,
                    ) && final(self).cell_matrix.spec_get(p).cell_type == CellType::Empty)
                } else {
                    &&& r == (UpdateResult { event: Event::Nothing, gameplay_context })
                    &&& *final(self) == *old(self)
                }
            }),
    {
        if let Some(h) = head {
            let looked_up = self.cell_matrix.get_cell(&h);
            if let Some(cell) = looked_up {
                let kind = cell.cell_type();
                match kind {
                    CellType::Solid | CellType::Snake => {
                        return UpdateResult::new(Event::End, gameplay_context);
                    },
                    CellType::Fruit => {
                        self.snake.grow();
                        let new_context = GameplayContext::new_incremented(gameplay_context);
                        self.score = new_context.score();
                        let shown_score = self.score;
                        self.update_score_text(shown_score);

                        let fruit = Fruit::new(
                            &self.cell_matrix,
                            &self.gameplay_area_origin,
                            &self.gameplay_area_extension,
                        );
                        self.fruit = fruit;

                        return UpdateResult::none(new_context);
                    },
                    CellType::Empty => {},
                }
            }
        }
        UpdateResult::none(gameplay_context)
    }

    /// The texts keep their count and names, and every string except
    /// the named displays is unchanged.
    pub open spec fn spec_texts_kept(pre: Seq<Text>, post: Seq<Text>, refreshed: Seq<char>) -> bool {
        &&& post.len() == pre.len()
        &&& (forall|j: int|
            0 <= j < pre.len() ==> (#[trigger] post[j]).ui_element.name@
                == pre[j].ui_element.name@)
        &&& (forall|j: int|
            0 <= j < pre.len() && (#[trigger] pre[j]).ui_element.name@ != refreshed
                && pre[j].ui_element.name@ != "fps"@ ==> post[j].string@ == pre[j].string@)
    }

    /// Everything one tick promises: a pending new game builds a
    /// fresh centered snake and a fruit on a blank cell and consumes
    /// the flag; escape pauses and touches nothing; otherwise the key
    /// turns the snake and a due step moves the head one cell, with
    /// the landing cell of the redrawn grid deciding death, growth
    /// with a score raise and a fresh fruit, or nothing.
    pub open spec fn spec_tick_outcome(
        pre: GameplayScene,
        pressed_key: Option<Key>,
        fps_centi: u64,
        frame_us: u64,
        gameplay_context: GameplayContext,
        post: GameplayScene,
        r: UpdateResult,
    ) -> bool {
        &&& (gameplay_context.start_new_game ==> {
                &&& r == (UpdateResult {
                    event: Event::Nothing,
                    gameplay_context: GameplayContext {
                        score: gameplay_context.score,
                        start_new_game: false,
                    },
                })
                &&& post.snake.body@.len() == INITIAL_SNAKE_LENGTH as int
                &&& post.snake.direction == Direction::Up
                &&& post.snake.speed == SNAKE_SPEED
                &&& post.snake.movement_accumulator == 0
                &&& post.snake.body@[0] == (Vector {
                    x: (pre.cell_matrix.width / 2) as u16,
                    y: (pre.cell_matrix.height / 2) as u16,
                })
                &&& post.score == 0
                &&& (post.fruit.position is Some <==> exists|p: Vector|
                    in_area(pre.gameplay_area_origin, pre.gameplay_area_extension, p) && (
                    #[trigger] pre.cell_matrix.spec_get(p)).cell_type == CellType::Empty)
                &&& (post.fruit.position matches Some(p) ==> in_area(
                    pre.gameplay_area_origin,
                    pre.gameplay_area_extension,
                    p,
                ) && pre.cell_matrix.spec_get(p).cell_type == CellType::Empty)
        })
        &&& (!gameplay_context.start_new_game ==> {
                &&& (pressed_key == Some(Key::Esc) ==> {
                    &&& r == (UpdateResult { event: Event::Pause, gameplay_context })
                    &&& Self::spec_texts_kept(pre.texts@, post.texts@, "fps"@)
                    &&& post.snake.body == pre.snake.body
                    &&& post.snake.direction == pre.snake.direction
                    &&& post.snake.speed == pre.snake.speed
                    &&& post.snake.movement_accumulator == pre.snake.movement_accumulator
                    &&& post.score == pre.score
                })
                &&& (pressed_key != Some(Key::Esc) ==> {
                    let d = next_direction(pre.snake.direction, pressed_key);
                    let stepped = pre.snake.spec_step_ready(frame_us);
                    &&& post.snake.direction == d
                    &&& r.gameplay_context.start_new_game == gameplay_context.start_new_game
                    &&& (r.gameplay_context.score == gameplay_context.score
                        ==> Self::spec_texts_kept(pre.texts@, post.texts@, "fps"@))
                    &&& (r.gameplay_context.score != gameplay_context.score
                        ==> Self::spec_texts_kept(pre.texts@, post.texts@, "score"@))
                    &&& (!stepped ==> {
                        &&& r == (UpdateResult { event: Event::Nothing, gameplay_context })
                        &&& post.snake.body == pre.snake.body
                        &&& post.snake.movement_accumulator == pre.snake.spec_accumulated(frame_us)
                        &&& post.score == pre.score
                        &&& post.fruit.position == pre.fruit.position
                    })
                    &&& (stepped ==> {
                        let h = step_position(pre.snake.body@[0], d);
                        let hit = pre.cell_matrix.spec_in_bounds(h);
                        let kind = pre.spec_decision_cell(fps_centi, h).cell_type;
                        &&& post.snake.movement_accumulator == 0
                        &&& (hit && (kind == CellType::Solid || kind == CellType::Snake) ==> {
                            &&& r == (UpdateResult { event: Event::End, gameplay_context })
                            &&& post.snake.body@ =~= seq![h] + pre.snake.body@.drop_last()
                            &&& post.score == pre.score
                        })
                        &&& (hit && kind == CellType::Fruit ==> {
                            &&& r == (UpdateResult {
                                event: Event::Nothing,
                                gameplay_context: GameplayContext {
                                    score: (gameplay_context.score + 1) as u32,
                                    start_new_game: gameplay_context.start_new_game,
                                },
                            })
                            &&& post.snake.body@.len() == pre.snake.body@.len() + 1
                            &&& post.snake.body@[0] == step_position(h, d)
                            &&& post.score == gameplay_context.score + 1
                            &&& (post.fruit.position matches Some(q) ==> in_area(
                                pre.gameplay_area_origin,
                                pre.gameplay_area_extension,
                                q,
                            ) && post.cell_matrix.spec_get(q).cell_type == CellType::Empty)
                        })
                        &&& ((!hit || kind == CellType::Empty) ==> {
                            &&& r == (UpdateResult { event: Event::Nothing, gameplay_context })
                            &&& post.snake.body@ =~= seq![h] + pre.snake.body@.drop_last()
                            &&& post.score == pre.score
                        })
                    })
                })
        })
    }

    /// One tick. A pending new game builds a fresh snake and fruit
    /// and consumes the flag without reading input. Otherwise the
    /// frame-rate text is refreshed, the snake and fruit are drawn,
    /// an escape press pauses, and any due snake step is taken and
    /// classified as in `handle_snake_update`.
    pub fn update(
        &mut self,
        pressed_key: Option<Key>,
        fps_centi: u64,
        frame_us: u64,
        gameplay_context: GameplayContext,
    ) -> (r: UpdateResult)
        requires
            old(self).wf(),
            gameplay_context.score < u32::MAX,
            !gameplay_context.start_new_game ==> old(self).tick_steppable(pressed_key, frame_us),
        ensures
            final(self).wf(),
            final(self).name@ == old(self).name@,
            final(self).cell_matrix.width == old(self).cell_matrix.width,
            final(self).cell_matrix.height == old(self).cell_matrix.height,
            Self::spec_tick_outcome(
                *old(self),
                pressed_key,
                fps_centi,
                frame_us,
                gameplay_context,
                *final(self),
                r,
            ),
    {
        if gameplay_context.start_new_game() {
            self.start_gameplay();
            return UpdateResult::none(GameplayContext::new_game_started(gameplay_context));
        }
        self.update_fps_text(fps_centi);
        let ghost after_fps = *self;
        self.snake.render(&mut self.cell_matrix);
        let ghost after_snake_render = *self;
        proof {
            assert forall|p: Vector|
                self.cell_matrix.spec_in_bounds(p) && (#[trigger] self.cell_matrix.spec_get(
                    p,
                )).cell_type == CellType::Fruit implies 1 <= p.x && 1 <= p.y by {
                let m = crate::snake::painted_map(
                    old(self).snake.cell_group.spec_map(),
                    old(self).snake.body@,
                    old(self).snake.body@.len() as int,
                );
                if m.contains_key(p) {
                    crate::snake::lemma_painted_map(
                        old(self).snake.cell_group.spec_map(),
                        old(self).snake.body@,
                        old(self).snake.body@.len() as int,
                        p,
                    );
                    if !(exists|j: int|
                        0 <= j < old(self).snake.body@.len() && old(self).snake.body@[j] == p) {
                        crate::cell_group::lemma_as_map_values(
                            old(self).snake.cell_group.entries@,
                            p,
                        );
                    }
                }
            }
        }
        let ghost pre_fruit = self.fruit;
        self.fruit.render(&mut self.cell_matrix);
        proof {
            assert forall|p: Vector|
                self.cell_matrix.spec_in_bounds(p) && (#[trigger] self.cell_matrix.spec_get(
                    p,
                )).cell_type == CellType::Fruit implies 1 <= p.x && 1 <= p.y by {
                if pre_fruit.cell_group.spec_map().contains_key(p) {
                    crate::cell_group::lemma_as_map_values(pre_fruit.cell_group.entries@, p);
                }
            }
        }
        proof {
            assert forall|p: Vector|
                old(self).cell_matrix.spec_in_bounds(p) implies #[trigger] self.cell_matrix.spec_get(
                p,
            ) == old(self).spec_decision_cell(fps_centi, p) by {
                assert(after_fps.cell_matrix.spec_get(p) == crate::cell_group::overlay_cell(
                    Self::spec_tick_maps(old(self).texts@, fps_centi),
                    old(self).texts@.len() as int,
                    p,
                    old(self).cell_matrix.spec_get(p),
                ));
                assert(after_fps.snake == old(self).snake);
                assert(after_snake_render.cell_matrix.spec_get(p) == {
                    let painted = crate::snake::painted_map(
                        old(self).snake.cell_group.spec_map(),
                        old(self).snake.body@,
                        old(self).snake.body@.len() as int,
                    );
                    if painted.contains_key(p) {
                        painted[p]
                    } else {
                        after_fps.cell_matrix.spec_get(p)
                    }
                });
                assert(pre_fruit == old(self).fruit);
            }
        }
        if matches!(pressed_key, Some(Key::Esc)) {
            return UpdateResult::new(Event::Pause, gameplay_context);
        }
        self.snake.update(pressed_key);
        let head = self.snake.move_forward(frame_us);
        proof {
            if head is Some {
                let h = head->0;
                assert(self.snake.body@[0] == h);
            }
        }
        self.handle_snake_update(head, gameplay_context)
    }
}

/// The gameplay scene of the real game, with its score and
/// frame-rate texts laid out along the bottom border.
pub fn build_gameplay_scene(width: u16, height: u16) -> (s: GameplayScene)
    requires
        width as int * height as int <= u16::MAX as int,
        width >= 3,
        height >= 4,
    ensures
        s.wf(),
        s.name@ == "gameplay"@,
        s.cell_matrix.width == width,
        s.cell_matrix.height == height,
        s.snake.body@.len() == 0,
        s.fruit.position is None,
        s.score == 0,
        s.spec_fully_drawn(),
        exists|i: int|
            0 <= i < s.texts@.len() && (#[trigger] s.texts@[i]).ui_element.name@ == "score"@
                && s.texts@[i].string@ == "0000000000"@,
        exists|i: int|
            0 <= i < s.texts@.len() && (#[trigger] s.texts@[i]).ui_element.name@ == "fps"@
                && s.texts@[i].string@ == "000.00"@,
        exists|i: int|
            0 <= i < s.texts@.len() && (#[trigger] s.texts@[i]).ui_element.name@ == "score_label"@,
        exists|i: int|
            0 <= i < s.texts@.len() && (#[trigger] s.texts@[i]).ui_element.name@ == "fps_label"@,
{
    let mut gameplay_scene = GameplayScene::new("gameplay".to_owned(), width, height);

    let score_label = Text::new(
        "score_label".to_owned(),
        crate::vector::Offset::zero(),
        crate::ui::ui_element::Orientation::BottomLeft,
        crate::ui::ui_element::Orientation::BottomLeft,
        "Score: ".to_owned(),
        width,
        height,
        crate::color::Color::Black.to_rgb(),
        crate::color::Color::White.to_rgb(),
    );
    let score = Text::new(
        "score".to_owned(),
        crate::vector::Offset::new(7, 0),
        crate::ui::ui_element::Orientation::BottomLeft,
        crate::ui::ui_element::Orientation::BottomLeft,
        "0000000000".to_owned(),
        width,
        height,
        crate::color::Color::Black.to_rgb(),
        crate::color::Color::White.to_rgb(),
    );
    let fps_label = Text::new(
        "fps_label".to_owned(),
        crate::vector::Offset::new(18, 0),
        crate::ui::ui_element::Orientation::BottomLeft,
        crate::ui::ui_element::Orientation::BottomLeft,
        "FPS: ".to_owned(),
        width,
        height,
        crate::color::Color::Black.to_rgb(),
        crate::color::Color::White.to_rgb(),
    );
    let fps = Text::new(
        "fps".to_owned(),
        crate::vector::Offset::new(23, 0),
        crate::ui::ui_element::Orientation::BottomLeft,
        crate::ui::ui_element::Orientation::BottomLeft,
        "000.00".to_owned(),
        width,
        height,
        crate::color::Color::Black.to_rgb(),
        crate::color::Color::White.to_rgb(),
    );

    proof {
        reveal_strlit("score_label");
        reveal_strlit("score");
        reveal_strlit("fps_label");
        reveal_strlit("fps");
        reveal_strlit("0000000000");
        reveal_strlit("000.00");
        assert("score_label"@.len() == 11);
        assert("score"@.len() == 5);
        assert("score_label"@ != "score"@);
        assert("score_label"@ != "fps_label"@);
        assert("score_label"@ != "fps"@);
        assert("score"@ != "fps_label"@);
        assert("score"@ != "fps"@);
        assert("fps_label"@.len() == 9);
        assert("fps"@.len() == 3);
        assert("fps_label"@ != "fps"@);
    }
    gameplay_scene.add_text(score_label);
    proof {
        assert(gameplay_scene.texts@.len() == 1);
        assert(gameplay_scene.texts@[0].ui_element.name@ == "score_label"@);
    }
    gameplay_scene.add_text(score);
    proof {
        assert(gameplay_scene.texts@.len() == 2);
        assert(gameplay_scene.texts@[0].ui_element.name@ == "score_label"@);
        assert(gameplay_scene.texts@[1].ui_element.name@ == "score"@);
    }
    gameplay_scene.add_text(fps_label);
    proof {
        assert(gameplay_scene.texts@.len() == 3);
        assert(gameplay_scene.texts@[2].ui_element.name@ == "fps_label"@);
    }
    gameplay_scene.add_text(fps);
    proof {
        assert(gameplay_scene.texts@.len() == 4);
        assert(gameplay_scene.texts@[0].ui_element.name@ == "score_label"@);
        assert(gameplay_scene.texts@[1].ui_element.name@ == "score"@);
        assert(gameplay_scene.texts@[1].string@ == "0000000000"@);
        assert(gameplay_scene.texts@[2].ui_element.name@ == "fps_label"@);
        assert(gameplay_scene.texts@[3].ui_element.name@ == "fps"@);
        assert(gameplay_scene.texts@[3].string@ == "000.00"@);
    }

    gameplay_scene.render();
    proof {
        assert(gameplay_scene.texts@[1].ui_element.name@ == "score"@);
        assert(gameplay_scene.texts@[1].string@ == "0000000000"@);
        assert(gameplay_scene.texts@[3].ui_element.name@ == "fps"@);
        assert(gameplay_scene.texts@[3].string@ == "000.00"@);
        assert(gameplay_scene.texts@[0].ui_element.name@ == "score_label"@);
        assert(gameplay_scene.texts@[2].ui_element.name@ == "fps_label"@);
    }

    gameplay_scene
}

} // verus!
