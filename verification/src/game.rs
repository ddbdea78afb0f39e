//! The grid state machine: board geometry, snake movement, food placement,
//! collision detection, and the derived render board.
//!
//! The snake is a distinguished head position plus a tail of at least one
//! segment. Index 0 of the tail is the segment directly behind the head and
//! the last index is the tail tip, the first cell vacated on a move. Each
//! tick commits the pending direction, moves the head one cell with toroidal
//! wrap-around, consumes food when the head lands on it (growing the tail and
//! bumping the score), shifts the tail segments along, flags game-over when
//! the head meets a shifted segment, and recomputes the render board.

use vstd::prelude::*;
use vstd::set_lib::{set_int_range, lemma_int_range, lemma_len_subset};
use vstd::arithmetic::div_mod::lemma_fundamental_div_mod;
use crate::random::random_below;

verus! {

/// Number of cells along the horizontal axis.
pub const BOARD_WIDTH: usize = 40;

/// Number of cells along the vertical axis.
pub const BOARD_HEIGHT: usize = 40;

/// Total number of cells on the board.
pub const BOARD_CELLS: usize = 1600;

/// Render hint for one board cell, derived from the snake and food positions.
#[derive(Copy, Clone, PartialEq, Eq, Structural, Debug)]
pub enum Cell {
    Head,
    Body,
    Empty,
    Food,
}

/// A movement direction for the snake's head.
#[derive(Copy, Clone, PartialEq, Eq, Structural, Debug)]
pub enum Direction {
    Up,
    Down,
    Left,
    Right,
}

/// A zero-indexed board coordinate: `x` counts columns, `y` counts rows.
#[derive(Copy, Clone, PartialEq, Eq, Structural, Debug)]
pub struct Position {
    pub x: usize,
    pub y: usize,
}

/// A position lies on the board.
pub open spec fn pos_in_bounds(p: Position) -> bool {
    p.x < BOARD_WIDTH && p.y < BOARD_HEIGHT
}

/// Row-major index of a position into the render board.
pub open spec fn cell_index(p: Position) -> int {
    p.y * BOARD_WIDTH + p.x
}

/// The direction that reverses `d`.
pub open spec fn opposite(d: Direction) -> Direction {
    match d {
        Direction::Up => Direction::Down,
        Direction::Down => Direction::Up,
        Direction::Left => Direction::Right,
        Direction::Right => Direction::Left,
    }
}

/// One step of `p` in direction `d`, wrapping toroidally at each edge.
pub open spec fn step(p: Position, d: Direction) -> Position {
    match d {
        Direction::Up => Position {
            x: p.x,
            y: if p.y == 0 { (BOARD_HEIGHT - 1) as usize } else { (p.y - 1) as usize },
        },
        Direction::Down => Position {
            x: p.x,
            y: if p.y + 1 == BOARD_HEIGHT { 0 } else { (p.y + 1) as usize },
        },
        Direction::Left => Position {
            x: if p.x == 0 { (BOARD_WIDTH - 1) as usize } else { (p.x - 1) as usize },
            y: p.y,
        },
        Direction::Right => Position {
            x: if p.x + 1 == BOARD_WIDTH { 0 } else { (p.x + 1) as usize },
            y: p.y,
        },
    }
}

/// The cell at `p` is covered by the snake: it is the head or a tail segment.
pub open spec fn occupied(head: Position, tail: Seq<Position>, p: Position) -> bool {
    p == head || tail.contains(p)
}

/// The render hint for cell `p`, as a pure function of the snake and the food.
/// The head outranks food (they never coincide between ticks), food outranks
/// the body, and any cell the snake and food leave uncovered is empty.
pub open spec fn derived_cell(head: Position, tail: Seq<Position>, food: Position, p: Position) -> Cell {
    if p == head {
        Cell::Head
    } else if p == food {
        Cell::Food
    } else if tail.contains(p) {
        Cell::Body
    } else {
        Cell::Empty
    }
}

/// The tail after a possible growth step: consuming food duplicates the tail
/// tip, and the duplicate is absorbed by the shift on the same tick.
pub open spec fn grown_tail(tail: Seq<Position>, eats: bool) -> Seq<Position> {
    if eats {
        tail.push(tail.last())
    } else {
        tail
    }
}

/// The tail after the per-tick shift: the vacated head cell becomes the
/// segment behind the head, every other segment takes its predecessor's
/// place, and the old tip is vacated.
pub open spec fn shifted_tail(tail: Seq<Position>, old_head: Position) -> Seq<Position> {
    seq![old_head] + tail.drop_last()
}

/// The full simulation state: snake geometry, pending and committed
/// directions, food, score, the terminal flag, and the derived render board.
pub struct GameState {
    /// Render board in row-major order; derived from `head`, `tail`, `food`.
    pub board: Vec<Cell>,
    /// The snake's head position.
    pub head: Position,
    /// Tail segments; index 0 sits behind the head, the last index is the tip.
    pub tail: Vec<Position>,
    /// Pending direction, applied on the next tick.
    pub direction: Direction,
    /// Direction committed on the most recent tick; blocks 180-degree input.
    pub last_direction: Direction,
    /// Terminal flag, set by a self-collision and cleared only by a restart.
    pub game_over: bool,
    /// Number of food items consumed since the game started.
    pub score: u32,
    /// Position of the current food item.
    pub food: Position,
}

impl GameState {
    /// The snake's geometry lies on the board and the tail is never empty.
    pub open spec fn snake_in_bounds(self) -> bool {
        &&& pos_in_bounds(self.head)
        &&& self.tail@.len() >= 1
        &&& forall|i: int| 0 <= i < self.tail@.len() ==> pos_in_bounds(#[trigger] self.tail@[i])
    }

    /// Well-formedness: the snake and the food lie on the board and the
    /// render board covers every cell.
    pub open spec fn wf(self) -> bool {
        &&& self.snake_in_bounds()
        &&& pos_in_bounds(self.food)
        &&& self.board@.len() == BOARD_CELLS
    }

    /// The cell at `p` is covered by this state's snake.
    pub open spec fn occupies(self, p: Position) -> bool {
        occupied(self.head, self.tail@, p)
    }

    /// Every entry of the render board agrees with the cell derived from the
    /// snake and food positions.
    pub open spec fn board_in_sync(self) -> bool {
        &&& self.board@.len() == BOARD_CELLS
        &&& forall|p: Position|
            pos_in_bounds(p) ==> self.board@[cell_index(p)] == derived_cell(
                self.head,
                self.tail@,
                self.food,
                p,
            )
    }
}

/// True exactly when some tail segment equals `p`.
fn tail_contains(tail: &Vec<Position>, p: Position) -> (r: bool)
    ensures
        r == tail@.contains(p),
{
    let mut k: usize = 0;
    while k < tail.len()
        invariant
            k <= tail@.len(),
            forall|j: int| 0 <= j < k ==> tail@[j] != p,
        decreases tail@.len() - k,
    {
        if tail[k] == p {
            return true;
        }
        k += 1;
    }
    false
}

/// A snake with fewer segments than the board has cells always leaves a free
/// cell: were every cell covered, mapping the `tail.len() + 1` snake
/// positions to their row-major indices would have to cover all `BOARD_CELLS`
/// distinct indices, which is impossible by cardinality.
proof fn lemma_snake_leaves_free_cell(head: Position, tail: Seq<Position>)
    requires
        tail.len() + 1 < BOARD_CELLS,
    ensures
        exists|q: Position| pos_in_bounds(q) && !occupied(head, tail, q),
{
    broadcast use vstd::seq_lib::seq_to_set_is_finite;
    broadcast use vstd::set::group_set_axioms;

    if forall|q: Position| pos_in_bounds(q) ==> #[trigger] occupied(head, tail, q) {
        let occupants = tail.push(head);
        let indices = occupants.map_values(|p: Position| cell_index(p));
        assert forall|i: int| 0 <= i < BOARD_CELLS implies indices.to_set().contains(i) by {
            let q = Position {
                x: (i % (BOARD_WIDTH as int)) as usize,
                y: (i / (BOARD_WIDTH as int)) as usize,
            };
            lemma_fundamental_div_mod(i, BOARD_WIDTH as int);
            assert(pos_in_bounds(q));
            assert(cell_index(q) == i);
            assert(occupied(head, tail, q));
            if q == head {
                assert(indices[tail.len() as int] == i);
            } else {
                let k = choose|k: int| 0 <= k < tail.len() && tail[k] == q;
                assert(indices[k] == i);
            }
            assert(indices.contains(i));
        }
        assert(set_int_range(0, BOARD_CELLS as int).subset_of(indices.to_set()));
        lemma_int_range(0, BOARD_CELLS as int);
        indices.lemma_cardinality_of_set();
        lemma_len_subset(set_int_range(0, BOARD_CELLS as int), indices.to_set());
    }
}

/// Scans the board row by row and returns the first cell the snake does not
/// cover; a snake shorter than the board always leaves one.
fn first_free_cell(head: Position, tail: &Vec<Position>) -> (p: Position)
    requires
        tail@.len() + 1 < BOARD_CELLS,
    ensures
        pos_in_bounds(p),
        !occupied(head, tail@, p),
{
    let mut y: usize = 0;
    while y < BOARD_HEIGHT
        invariant
            y <= BOARD_HEIGHT,
            tail@.len() + 1 < BOARD_CELLS,
            forall|q: Position|
                pos_in_bounds(q) && q.y < y ==> #[trigger] occupied(head, tail@, q),
        decreases BOARD_HEIGHT - y,
    {
        let mut x: usize = 0;
        while x < BOARD_WIDTH
            invariant
                y < BOARD_HEIGHT,
                x <= BOARD_WIDTH,
                forall|q: Position|
                    pos_in_bounds(q) && q.y < y ==> #[trigger] occupied(head, tail@, q),
                forall|q: Position|
                    pos_in_bounds(q) && q.y == y && q.x < x ==> #[trigger] occupied(
                        head,
                        tail@,
                        q,
                    ),
            decreases BOARD_WIDTH - x,
        {
            let p = Position { x, y };
            if !(p == head) && !tail_contains(tail, p) {
                return p;
            }
            x += 1;
        }
        y += 1;
    }
    proof {
        lemma_snake_leaves_free_cell(head, tail@);
        let q = choose|q: Position| pos_in_bounds(q) && !occupied(head, tail@, q);
        assert(occupied(head, tail@, q));
    }
    vstd::pervasive::unreached()
}

/// Fills a fresh render board from the snake and food positions, one derived
/// cell per board position in row-major order.
fn render_board(head: Position, tail: &Vec<Position>, food: Position) -> (b: Vec<Cell>)
    ensures
        b@.len() == BOARD_CELLS,
        forall|p: Position|
            pos_in_bounds(p) ==> b@[cell_index(p)] == derived_cell(head, tail@, food, p),
{
    let mut b: Vec<Cell> = Vec::new();
    let mut y: usize = 0;
    while y < BOARD_HEIGHT
        invariant
            y <= BOARD_HEIGHT,
            b@.len() == y * BOARD_WIDTH,
            forall|p: Position|
                pos_in_bounds(p) && p.y < y ==> b@[cell_index(p)] == derived_cell(
                    head,
                    tail@,
                    food,
                    p,
                ),
        decreases BOARD_HEIGHT - y,
    {
        let mut x: usize = 0;
        while x < BOARD_WIDTH
            invariant
                y < BOARD_HEIGHT,
                x <= BOARD_WIDTH,
                b@.len() == y * BOARD_WIDTH + x,
                forall|p: Position|
                    pos_in_bounds(p) && p.y < y ==> b@[cell_index(p)] == derived_cell(
                        head,
                        tail@,
                        food,
                        p,
                    ),
                forall|p: Position|
                    pos_in_bounds(p) && p.y == y && p.x < x ==> b@[cell_index(p)] == derived_cell(
                        head,
                        tail@,
                        food,
                        p,
                    ),
            decreases BOARD_WIDTH - x,
        {
            let p = Position { x, y };
            let c = if p == head {
                Cell::Head
            } else if p == food {
                Cell::Food
            } else if tail_contains(tail, p) {
                Cell::Body
            } else {
                Cell::Empty
            };
            b.push(c);
            x += 1;
        }
        y += 1;
    }
    b
}

/// Moves `p` one cell in direction `d` with toroidal wrap-around; each axis
/// wraps independently, so the result never leaves the board.
pub fn step_position(p: Position, d: Direction) -> (r: Position)
    requires
        pos_in_bounds(p),
    ensures
        r == step(p, d),
        pos_in_bounds(r),
{
    match d {
        Direction::Up => Position {
            x: p.x,
            y: if p.y == 0 { BOARD_HEIGHT - 1 } else { p.y - 1 },
        },
        Direction::Down => Position {
            x: p.x,
            y: if p.y + 1 == BOARD_HEIGHT { 0 } else { p.y + 1 },
        },
        Direction::Left => Position {
            x: if p.x == 0 { BOARD_WIDTH - 1 } else { p.x - 1 },
            y: p.y,
        },
        Direction::Right => Position {
            x: if p.x + 1 == BOARD_WIDTH { 0 } else { p.x + 1 },
            y: p.y,
        },
    }
}

impl GameState {
    /// Picks a board cell the snake does not cover, by rejection sampling
    /// over uniform random cells with a deterministic scan as the fallback
    /// once the retry budget is spent. Reads the state without changing it;
    /// the caller stores the result in `food`.
    pub fn spawn_food(&self) -> (p: Position)
        requires
            self.snake_in_bounds(),
            self.tail@.len() + 1 < BOARD_CELLS,
        ensures
            pos_in_bounds(p),
            !self.occupies(p),
    {
        let mut tries: usize = 0;
        while tries < BOARD_CELLS
            invariant
                tries <= BOARD_CELLS,
            decreases BOARD_CELLS - tries,
        {
            let x = random_below(BOARD_WIDTH);
            let y = random_below(BOARD_HEIGHT);
            let p = Position { x, y };
            if !(p == self.head) && !tail_contains(&self.tail, p) {
                return p;
            }
            tries += 1;
        }
        first_free_cell(self.head, &self.tail)
    }

    /// Stores `d` as the pending direction for the next tick, unless `d`
    /// would reverse straight into the direction committed on the last tick,
    /// in which case the input is discarded. No other field changes.
    pub fn set_direction(&mut self, d: Direction)
        ensures
            final(self).direction == (if d == opposite(old(self).last_direction) {
                old(self).direction
            } else {
                d
            }),
            final(self).board@ == old(self).board@,
            final(self).head == old(self).head,
            final(self).tail@ == old(self).tail@,
            final(self).last_direction == old(self).last_direction,
            final(self).game_over == old(self).game_over,
            final(self).score == old(self).score,
            final(self).food == old(self).food,
    {
        let rejected = match (d, self.last_direction) {
            (Direction::Up, Direction::Down) => true,
            (Direction::Down, Direction::Up) => true,
            (Direction::Left, Direction::Right) => true,
            (Direction::Right, Direction::Left) => true,
            _ => false,
        };
        if !rejected {
            self.direction = d;
        }
    }

    /// Reads one render-board cell in row-major order.
    pub fn board_cell(&self, p: Position) -> (c: Cell)
        requires
            self.board@.len() == BOARD_CELLS,
            pos_in_bounds(p),
        ensures
            c == self.board@[cell_index(p)],
    {
        self.board[p.y * BOARD_WIDTH + p.x]
    }

    /// One simulation tick. Commits the pending direction, moves the head
    /// one cell with toroidal wrap-around, consumes food under the new head
    /// (respawning it on a cell free at that moment, growing the tail by a
    /// duplicated tip and incrementing the score), shifts the tail so the
    /// vacated head cell becomes the segment behind the head, flags
    /// game-over exactly when the new head lands on a shifted segment, and
    /// recomputes the render board.
    pub fn advance(&mut self)
        requires
            old(self).wf(),
            !old(self).game_over,
            old(self).score < u32::MAX,
            old(self).tail@.len() + 1 < BOARD_CELLS,
        ensures
            final(self).wf(),
            final(self).board_in_sync(),
            final(self).head == step(old(self).head, old(self).direction),
            pos_in_bounds(final(self).head),
            final(self).last_direction == old(self).direction,
            final(self).direction == old(self).direction,
            final(self).score == old(self).score + (if eats_food(*old(self)) {
                1int
            } else {
                0int
            }),
            final(self).tail@ == shifted_tail(
                grown_tail(old(self).tail@, eats_food(*old(self))),
                old(self).head,
            ),
            final(self).tail@.len() == old(self).tail@.len() + (if eats_food(*old(self)) {
                1int
            } else {
                0int
            }),
            final(self).game_over <==> grown_tail(
                old(self).tail@,
                eats_food(*old(self)),
            ).drop_last().contains(final(self).head),
            eats_food(*old(self)) ==> pos_in_bounds(final(self).food) && final(self).food
                != final(self).head && !old(self).tail@.contains(final(self).food),
            !eats_food(*old(self)) ==> final(self).food == old(self).food,
    {
        self.last_direction = self.direction;
        let old_head = self.head;
        let nh = step_position(self.head, self.direction);
        self.head = nh;
        if nh == self.food {
            let f = self.spawn_food();
            self.food = f;
            self.score = self.score + 1;
            let tip = self.tail[self.tail.len() - 1];
            self.tail.push(tip);
        }
        let ghost grown = self.tail@;
        let len = self.tail.len();
        let mut shifted: Vec<Position> = Vec::new();
        shifted.push(old_head);
        let mut collided = false;
        let mut j: usize = 0;
        while j < len - 1
            invariant
                1 <= len == self.tail@.len(),
                self.tail@ == grown,
                j <= len - 1,
                shifted@.len() == j + 1,
                shifted@[0] == old_head,
                forall|k: int| 0 <= k < j ==> shifted@[k + 1] == grown[k],
                collided <==> exists|k: int| 0 <= k < j && grown[k] == self.head,
            decreases len - 1 - j,
        {
            let seg = self.tail[j];
            if seg == self.head {
                collided = true;
            }
            shifted.push(seg);
            j += 1;
        }
        proof {
            assert(shifted@ =~= shifted_tail(grown, old_head));
        }
        self.tail = shifted;
        if collided {
            self.game_over = true;
        }
        let b = render_board(self.head, &self.tail, self.food);
        self.board = b;
    }
}

/// The head's next step lands on the food, so this tick consumes it.
pub open spec fn eats_food(s: GameState) -> bool {
    step(s.head, s.direction) == s.food
}

/// Creates a fresh game: snake of head plus three coincident tail segments
/// at the board's center, pending direction right, score zero, not over,
/// and one food item placed on a cell the snake does not cover.
pub fn create_game() -> (g: GameState)
    ensures
        g.wf(),
        g.board_in_sync(),
        g.score == 0,
        !g.game_over,
        g.head == (Position { x: BOARD_WIDTH / 2, y: BOARD_HEIGHT / 2 }),
        g.tail@.len() == 3,
        forall|i: int| 0 <= i < 3 ==> g.tail@[i] == g.head,
        g.direction == Direction::Right,
        g.last_direction == Direction::Left,
        pos_in_bounds(g.food),
        !g.occupies(g.food),
{
    let head = Position { x: BOARD_WIDTH / 2, y: BOARD_HEIGHT / 2 };
    let mut tail: Vec<Position> = Vec::new();
    tail.push(head);
    tail.push(head);
    tail.push(head);
    let mut g = GameState {
        board: Vec::new(),
        head,
        tail,
        direction: Direction::Right,
        last_direction: Direction::Left,
        game_over: false,
        score: 0,
        food: Position { x: 0, y: 0 },
    };
    let f = g.spawn_food();
    g.food = f;
    let b = render_board(g.head, &g.tail, g.food);
    g.board = b;
    g
}

} // verus!
