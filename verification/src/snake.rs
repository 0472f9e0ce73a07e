//! The snake: an ordered body of segment positions (head first), a
//! facing direction, and a time accumulator that turns elapsed
//! microseconds into grid steps.

use vstd::prelude::*;

use crate::cell::{spec_empty_cell, Cell, CellType};
use crate::cell_group::CellGroup;
use crate::cell_matrix::CellMatrix;
use crate::color::Color;
use crate::input::Key;
use crate::vector::Vector;

verus! {

/// How many body segments a fresh snake has.
pub const INITIAL_SNAKE_LENGTH: u16 = 2;

/// The accumulator unit: one second, in microseconds.
pub const MICROS_PER_SECOND: u64 = 1000000;

#[derive(Clone, Copy, Debug, PartialEq, Eq, Structural)]
pub enum Direction {
    Up,
    Down,
    Left,
    Right,
}

/// Whether one step in `d` from `p` stays representable in grid
/// coordinates.
pub open spec fn can_step(p: Vector, d: Direction) -> bool {
    match d {
        Direction::Up => p.y > 0,
        Direction::Down => p.y < 0xffff,
        Direction::Left => p.x > 0,
        Direction::Right => p.x < 0xffff,
    }
}

/// The position one step in `d` from `p`.
pub open spec fn step_position(p: Vector, d: Direction) -> Vector
    recommends
        can_step(p, d),
{
    match d {
        Direction::Up => Vector { x: p.x, y: (p.y - 1) as u16 },
        Direction::Down => Vector { x: p.x, y: (p.y + 1) as u16 },
        Direction::Left => Vector { x: (p.x - 1) as u16, y: p.y },
        Direction::Right => Vector { x: (p.x + 1) as u16, y: p.y },
    }
}

/// What a key press does to the facing direction: an arrow key turns
/// the snake unless it points straight back, which is ignored; any
/// other key changes nothing.
pub open spec fn next_direction(current: Direction, key: Option<Key>) -> Direction {
    match key {
        Some(Key::Up) => if current != Direction::Down {
            Direction::Up
        } else {
            current
        },
        Some(Key::Down) => if current != Direction::Up {
            Direction::Down
        } else {
            current
        },
        Some(Key::Left) => if current != Direction::Right {
            Direction::Left
        } else {
            current
        },
        Some(Key::Right) => if current != Direction::Left {
            Direction::Right
        } else {
            current
        },
        _ => current,
    }
}

/// The glyph pattern along the body: blocks of four shades, the
/// order reversing every four segments.
pub open spec fn spec_body_glyph(i: int) -> char {
    let phase = i % 4;
    if (i / 4) % 2 == 0 {
        if phase == 0 {
            '█'
        } else if phase == 1 {
            '▓'
        } else if phase == 2 {
            '▒'
        } else {
            '░'
        }
    } else {
        if phase == 0 {
            '░'
        } else if phase == 1 {
            '▒'
        } else if phase == 2 {
            '▓'
        } else {
            '█'
        }
    }
}

/// The cell one body segment paints.
pub open spec fn spec_body_cell(i: int) -> Cell {
    Cell {
        glyph: spec_body_glyph(i),
        bg_color: Color::Black.spec_rgb(),
        fg_color: Color::Green.spec_rgb(),
        cell_type: CellType::Snake,
    }
}

/// The overlay map after painting the first `n` body segments onto
/// `group`, in body order.
pub open spec fn painted_map(group: Map<Vector, Cell>, body: Seq<Vector>, n: int) -> Map<
    Vector,
    Cell,
>
    decreases n,
{
    if n <= 0 {
        group
    } else {
        painted_map(group, body, n - 1).insert(body[n - 1], spec_body_cell(n - 1))
    }
}

/// Painting marks every painted segment position with a snake-kind
/// cell and leaves all other positions as the group had them.
pub proof fn lemma_painted_map(group: Map<Vector, Cell>, body: Seq<Vector>, n: int, p: Vector)
    requires
        0 <= n <= body.len(),
    ensures
        (exists|j: int| 0 <= j < n && body[j] == p) ==> painted_map(group, body, n).contains_key(p)
            && painted_map(group, body, n)[p].cell_type == CellType::Snake,
        !(exists|j: int| 0 <= j < n && body[j] == p) ==> (painted_map(
            group,
            body,
            n,
        ).contains_key(p) <==> group.contains_key(p)) && (group.contains_key(p) ==> painted_map(
            group,
            body,
            n,
        )[p] == group[p]),
    decreases n,
{
    if n > 0 {
        lemma_painted_map(group, body, n - 1, p);
        if body[n - 1] != p {
            if exists|j: int| 0 <= j < n && body[j] == p {
                let j = choose|j: int| 0 <= j < n && body[j] == p;
                assert(0 <= j < n - 1 && body[j] == p);
            }
        }
    }
}

pub struct Snake {
    pub body: Vec<Vector>,
    pub direction: Direction,
    /// Grid cells per second.
    pub speed: u16,
    /// Microseconds accumulated toward the next step.
    pub movement_accumulator: u64,
    pub cell_group: CellGroup,
}

impl Snake {
    pub open spec fn wf(self) -> bool {
        &&& self.cell_group.wf()
        &&& forall|i: int|
            0 <= i < self.cell_group.entries@.len() ==> ((
            #[trigger] self.cell_group.entries@[i]).1.cell_type == CellType::Snake
                || self.cell_group.entries@[i].1.cell_type == CellType::Empty)
    }

    /// The accumulator after adding a frame, saturating at the top.
    pub open spec fn spec_accumulated(self, frame_us: u64) -> u64 {
        if self.movement_accumulator + frame_us <= u64::MAX {
            (self.movement_accumulator + frame_us) as u64
        } else {
            u64::MAX
        }
    }

    /// Whether this frame's accumulated time crosses the one-step
    /// threshold: accumulated seconds times speed reaches one cell.
    pub open spec fn spec_step_ready(self, frame_us: u64) -> bool {
        self.spec_accumulated(frame_us) as int * self.speed as int >= MICROS_PER_SECOND as int
    }

    /// A fresh snake: segments stacked downward from `position`,
    /// facing up.
    pub fn new(position: &Vector, speed: u16) -> (s: Snake)
        requires
            position.y as int + INITIAL_SNAKE_LENGTH as int <= u16::MAX as int + 1,
        ensures
            s.wf(),
            s.body@.len() == INITIAL_SNAKE_LENGTH as int,
            forall|i: int|
                0 <= i < s.body@.len() ==> #[trigger] s.body@[i] == (Vector {
                    x: position.x,
                    y: (position.y + i) as u16,
                }),
            s.direction == Direction::Up,
            s.speed == speed,
            s.movement_accumulator == 0,
            s.cell_group.entries@.len() == 0,
            s.cell_group.spec_map() =~= Map::<Vector, Cell>::empty(),
    {
        let mut body: Vec<Vector> = Vec::new();
        let mut i: u16 = 0;
        while i < INITIAL_SNAKE_LENGTH
            invariant
                position.y as int + INITIAL_SNAKE_LENGTH as int <= u16::MAX as int + 1,
                i <= INITIAL_SNAKE_LENGTH,
                body@.len() == i as int,
                forall|j: int|
                    0 <= j < i as int ==> #[trigger] body@[j] == (Vector {
                        x: position.x,
                        y: (position.y + j) as u16,
                    }),
            decreases INITIAL_SNAKE_LENGTH - i,
        {
            body.push(Vector::new(position.x, position.y + i));
            i = i + 1;
        }
        Snake {
            body,
            direction: Direction::Up,
            speed,
            movement_accumulator: 0,
            cell_group: CellGroup::new(),
        }
    }

    /// The placeholder snake a scene holds before gameplay starts:
    /// no body and no speed, so it never steps.
    pub fn none() -> (s: Snake)
        ensures
            s.wf(),
            s.body@.len() == 0,
            s.direction == Direction::Up,
            s.speed == 0,
            s.movement_accumulator == 0,
            s.cell_group.entries@.len() == 0,
    {
        Snake {
            body: Vec::new(),
            direction: Direction::Up,
            speed: 0,
            movement_accumulator: 0,
            cell_group: CellGroup::new(),
        }
    }

    /// Accumulate a frame of time; when the step threshold is
    /// crossed, advance the head one cell in the facing direction,
    /// drop the tail, mark the vacated tail cell blank in the
    /// overlay, reset the accumulator, and return the new head.
    pub fn move_forward(&mut self, frame_us: u64) -> (new_head: Option<Vector>)
        requires
            old(self).wf(),
            old(self).spec_step_ready(frame_us) ==> old(self).body@.len() > 0 && can_step(
                old(self).body@[0],
                old(self).direction,
            ),
        ensures
            final(self).wf(),
            final(self).direction == old(self).direction,
            final(self).speed == old(self).speed,
            old(self).spec_step_ready(frame_us) ==> {
                let head = step_position(old(self).body@[0], old(self).direction);
                &&& new_head == Some(head)
                &&& final(self).movement_accumulator == 0
                &&& final(self).body@ =~= seq![head] + old(self).body@.drop_last()
                &&& final(self).body@.len() == old(self).body@.len()
                &&& final(self).cell_group.spec_map() =~= old(self).cell_group.spec_map().insert(
                    old(self).body@.last(),
                    spec_empty_cell(),
                )
            },
            !old(self).spec_step_ready(frame_us) ==> {
                &&& new_head is None
                &&& final(self).movement_accumulator == old(self).spec_accumulated(frame_us)
                &&& final(self).body == old(self).body
                &&& final(self).cell_group == old(self).cell_group
            },
    {
        let acc: u64 = if frame_us <= u64::MAX - self.movement_accumulator {
            self.movement_accumulator + frame_us
        } else {
            u64::MAX
        };
        self.movement_accumulator = acc;
        proof {
            assert((acc as u128) as int * (self.speed as u128) as int <= u128::MAX as int)
                by (nonlinear_arith)
                requires
                    acc <= u64::MAX,
                    self.speed <= u16::MAX,
            ;
        }
        if (acc as u128) * (self.speed as u128) >= 1000000u128 {
            self.movement_accumulator = 0;
            let head = self.body[0];
            let new_head = match self.direction {
                Direction::Up => Vector::new(head.x, head.y - 1),
                Direction::Down => Vector::new(head.x, head.y + 1),
                Direction::Left => Vector::new(head.x - 1, head.y),
                Direction::Right => Vector::new(head.x + 1, head.y),
            };
            self.body.insert(0, new_head);
            let tail = self.body.pop().unwrap();
            proof {
                assert(tail == old(self).body@.last());
                assert(self.body@ =~= seq![new_head] + old(self).body@.drop_last());
            }
            let ghost prev_entries = self.cell_group.entries@;
            self.cell_group.set_cell(tail, Cell::new_empty());
            proof {
                assert forall|i: int|
                    0 <= i < self.cell_group.entries@.len() implies ((
                #[trigger] self.cell_group.entries@[i]).1.cell_type == CellType::Snake
                    || self.cell_group.entries@[i].1.cell_type == CellType::Empty) by {
                    if self.cell_group.entries@[i] != (tail, spec_empty_cell()) {
                        assert(self.cell_group.entries@[i] == prev_entries[i]);
                    }
                }
            }
            Some(new_head)
        } else {
            None
        }
    }

    /// Prepend a new head one step ahead without dropping the tail:
    /// the body grows by exactly one segment.
    pub fn grow(&mut self)
        requires
            old(self).wf(),
            old(self).body@.len() > 0,
            can_step(old(self).body@[0], old(self).direction),
        ensures
            final(self).wf(),
            final(self).body@ =~= seq![
                step_position(old(self).body@[0], old(self).direction),
            ] + old(self).body@,
            final(self).body@.len() == old(self).body@.len() + 1,
            final(self).direction == old(self).direction,
            final(self).speed == old(self).speed,
            final(self).movement_accumulator == old(self).movement_accumulator,
            final(self).cell_group == old(self).cell_group,
    {
        let head = self.body[0];
        let new_head = match self.direction {
            Direction::Up => Vector::new(head.x, head.y - 1),
            Direction::Down => Vector::new(head.x, head.y + 1),
            Direction::Left => Vector::new(head.x - 1, head.y),
            Direction::Right => Vector::new(head.x + 1, head.y),
        };
        self.body.insert(0, new_head);
    }

    /// Apply a key press to the facing direction; a press straight
    /// back is ignored.
    pub fn update(&mut self, pressed_key: Option<Key>)
        ensures
            *final(self) == (Snake {
                direction: next_direction(old(self).direction, pressed_key),
                ..*old(self)
            }),
    {
        match pressed_key {
            Some(Key::Up) => {
                if !matches!(self.direction, Direction::Down) {
                    self.change_direction(Direction::Up);
                }
            },
            Some(Key::Down) => {
                if !matches!(self.direction, Direction::Up) {
                    self.change_direction(Direction::Down);
                }
            },
            Some(Key::Left) => {
                if !matches!(self.direction, Direction::Right) {
                    self.change_direction(Direction::Left);
                }
            },
            Some(Key::Right) => {
                if !matches!(self.direction, Direction::Left) {
                    self.change_direction(Direction::Right);
                }
            },
            _ => (),
        }
    }

    /// Set the facing direction outright.
    pub fn change_direction(&mut self, direction: Direction)
        ensures
            *final(self) == (Snake { direction, ..*old(self) }),
    {
        self.direction = direction;
    }

    pub fn direction(&self) -> (d: Direction)
        ensures
            d == self.direction,
    {
        self.direction
    }

    /// Paint every body segment into the overlay (head first, shaded
    /// by position), then merge the overlay into the matrix.
    pub fn render(&mut self, cell_matrix: &mut CellMatrix)
        requires
            old(self).wf(),
            old(cell_matrix).wf(),
        ensures
            final(self).wf(),
            final(cell_matrix).wf(),
            final(cell_matrix).width == old(cell_matrix).width,
            final(cell_matrix).height == old(cell_matrix).height,
            final(self).body == old(self).body,
            final(self).direction == old(self).direction,
            final(self).speed == old(self).speed,
            final(self).movement_accumulator == old(self).movement_accumulator,
            forall|p: Vector|
                old(cell_matrix).spec_in_bounds(p) ==> #[trigger] final(cell_matrix).spec_get(p)
                    == {
                    let m = painted_map(
                        old(self).cell_group.spec_map(),
                        old(self).body@,
                        old(self).body@.len() as int,
                    );
                    if m.contains_key(p) {
                        m[p]
                    } else {
                        old(cell_matrix).spec_get(p)
                    }
                },
            final(cell_matrix).diff@.len() >= old(cell_matrix).diff@.len(),
            final(cell_matrix).diff@.subrange(0, old(cell_matrix).diff@.len() as int) =~= old(
                cell_matrix,
            ).diff@,
            old(cell_matrix).diff_wf() ==> final(cell_matrix).diff_wf(),
    {
        let n = self.body.len();
        let mut i: usize = 0;
        while i < n
            invariant
                old(self).wf(),
                self.cell_group.wf(),
                n == self.body@.len(),
                i <= n,
                self.body == old(self).body,
                self.direction == old(self).direction,
                self.speed == old(self).speed,
                self.movement_accumulator == old(self).movement_accumulator,
                self.cell_group.spec_map() =~= painted_map(
                    old(self).cell_group.spec_map(),
                    old(self).body@,
                    i as int,
                ),
                forall|j: int|
                    0 <= j < self.cell_group.entries@.len() ==> ((
                    #[trigger] self.cell_group.entries@[j]).1.cell_type == CellType::Snake
                        || self.cell_group.entries@[j].1.cell_type == CellType::Empty),
            decreases n - i,
        {
            let glyph = body_glyph(i);
            let segment = self.body[i];
            let cell = Cell::new(
                glyph,
                Color::Black.to_rgb(),
                Color::Green.to_rgb(),
                CellType::Snake,
            );
            let ghost prev_entries = self.cell_group.entries@;
            self.cell_group.set_cell(segment, cell);
            proof {
                assert forall|j: int|
                    0 <= j < self.cell_group.entries@.len() implies ((
                #[trigger] self.cell_group.entries@[j]).1.cell_type == CellType::Snake
                    || self.cell_group.entries@[j].1.cell_type == CellType::Empty) by {
                    if self.cell_group.entries@[j] != (segment, cell) {
                        assert(self.cell_group.entries@[j] == prev_entries[j]);
                    }
                }
            }
            i = i + 1;
        }
        let ghost painted_entries = self.cell_group.entries@;
        self.cell_group.render(cell_matrix);
        proof {
            crate::cell_group::lemma_strip_empty_unique(painted_entries);
            assert forall|j: int|
                0 <= j < self.cell_group.entries@.len() implies ((
            #[trigger] self.cell_group.entries@[j]).1.cell_type == CellType::Snake
                || self.cell_group.entries@[j].1.cell_type == CellType::Empty) by {
                let sj = choose|sj: int|
                    0 <= sj < painted_entries.len() && #[trigger] crate::cell_group::strip_empty(
                        painted_entries,
                    )[j] == painted_entries[sj];
                assert(self.cell_group.entries@[j] == painted_entries[sj]);
            }
        }
        proof {
            assert(final(cell_matrix).diff@.subrange(0, old(cell_matrix).diff@.len() as int)
                =~= old(cell_matrix).diff@);
        }
    }
}

/// The direction a key press would leave the snake facing.
pub fn turned(current: Direction, pressed_key: Option<Key>) -> (d: Direction)
    ensures
        d == next_direction(current, pressed_key),
{
    match pressed_key {
        Some(Key::Up) => if !matches!(current, Direction::Down) {
            Direction::Up
        } else {
            current
        },
        Some(Key::Down) => if !matches!(current, Direction::Up) {
            Direction::Down
        } else {
            current
        },
        Some(Key::Left) => if !matches!(current, Direction::Right) {
            Direction::Left
        } else {
            current
        },
        Some(Key::Right) => if !matches!(current, Direction::Left) {
            Direction::Right
        } else {
            current
        },
        _ => current,
    }
}

/// The glyph for body segment `i`.
pub fn body_glyph(i: usize) -> (c: char)
    ensures
        c == spec_body_glyph(i as int),
{
    let phase = i % 4;
    let reversed = (i / 4) % 2 == 1;
    if !reversed {
        if phase == 0 {
            '█'
        } else if phase == 1 {
            '▓'
        } else if phase == 2 {
            '▒'
        } else {
            '░'
        }
    } else {
        if phase == 0 {
            '░'
        } else if phase == 1 {
            '▒'
        } else if phase == 2 {
            '▓'
        } else {
            '█'
        }
    }
}

/// A key straight against the facing direction leaves the direction
/// unchanged; the three other arrow keys change it.
pub proof fn lemma_reversal_rejected(current: Direction, key: Key)
    ensures
        (match key {
            Key::Up => current == Direction::Down,
            Key::Down => current == Direction::Up,
            Key::Left => current == Direction::Right,
            Key::Right => current == Direction::Left,
            _ => false,
        }) ==> next_direction(current, Some(key)) == current,
        (match key {
            Key::Up => current != Direction::Down && current != Direction::Up,
            Key::Down => current != Direction::Up && current != Direction::Down,
            Key::Left => current != Direction::Right && current != Direction::Left,
            Key::Right => current != Direction::Left && current != Direction::Right,
            _ => false,
        }) ==> next_direction(current, Some(key)) != current,
{
}

/// One ready step keeps the body length and puts the new head exactly
/// one cell ahead of the old head; a growth step adds exactly one
/// segment with that same head.
pub proof fn lemma_step_geometry(body: Seq<Vector>, d: Direction)
    requires
        body.len() > 0,
        can_step(body[0], d),
    ensures
        (seq![step_position(body[0], d)] + body.drop_last()).len() == body.len(),
        (seq![step_position(body[0], d)] + body).len() == body.len() + 1,
        (seq![step_position(body[0], d)] + body)[0] == (seq![step_position(body[0], d)]
            + body.drop_last())[0],
        match d {
            Direction::Up => step_position(body[0], d).y == body[0].y - 1 && step_position(
                body[0],
                d,
            ).x == body[0].x,
            Direction::Down => step_position(body[0], d).y == body[0].y + 1 && step_position(
                body[0],
                d,
            ).x == body[0].x,
            Direction::Left => step_position(body[0], d).x == body[0].x - 1 && step_position(
                body[0],
                d,
            ).y == body[0].y,
            Direction::Right => step_position(body[0], d).x == body[0].x + 1 && step_position(
                body[0],
                d,
            ).y == body[0].y,
        },
{
}

} // verus!
