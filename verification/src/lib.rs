//! Simulation engine for a grid-based snake game: a segmented actor moves on
//! a wrapping 2D grid, grows by consuming food, and the episode ends on a
//! collision with itself or an obstacle, or when the board fills up.

pub mod model;
mod rng;

use vstd::prelude::*;

use model::Apple;
use model::BodyProperties;
use model::Direction;
use model::Field;
use model::Snake;
use model::snake::body_in_bounds;
use model::snake::grown_body;
use model::snake::moved_body;
use model::snake::same_axis;

verus! {

/// Default grid width, in cells.
pub const PLAYGROUND_WIDTH: u32 = 21;

/// Default grid height, in cells.
pub const PLAYGROUND_HEIGHT: u32 = 21;

/// Default border setting of a standard episode.
pub const HAS_BORDER: bool = true;

/// How many random draws a placement makes before it falls back to a
/// deterministic choice, so that every placement terminates.
pub const MAX_SAMPLE_ATTEMPTS: u32 = 128;

/// Side length of one rendered cell, in pixels.
pub const SQUARE_SIZE: u32 = 16;

/// Default inset of a drawn cell from its square's edge, in pixels.
pub const PIXEL_PADDING: u32 = 3;

/// A pixel of a cell-sized square lies inside the padded drawing area;
/// `small` widens the inset by two pixels.
pub open spec fn within_padded_area(x: u32, y: u32, small: bool) -> bool {
    let padding: u32 = if small {
        (PIXEL_PADDING + 2) as u32
    } else {
        PIXEL_PADDING
    };
    padding <= x <= SQUARE_SIZE - padding && padding <= y <= SQUARE_SIZE - padding
}

/// Decides whether a pixel belongs to the padded drawing area of a cell.
pub fn is_within_padded_area(x: u32, y: u32, small: bool) -> (r: bool)
    ensures
        r == within_padded_area(x, y, small),
{
    let mut padding: u32 = PIXEL_PADDING;
    if small {
        padding = PIXEL_PADDING + 2;
    }
    let padded_start: u32 = padding;
    let padded_end: u32 = SQUARE_SIZE - padding;
    (x >= padded_start && x <= padded_end) && (y >= padded_start && y <= padded_end)
}

/// Combines a byte slice with a repeating key, one XOR per byte.
pub fn xor_obfuscate(data: &[u8], key: &[u8]) -> (r: Vec<u8>)
    requires
        key@.len() > 0,
    ensures
        r@.len() == data@.len(),
        forall|i: int| 0 <= i < data@.len() ==> r@[i] == (data@[i] ^ key@[i % key@.len() as int]),
{
    let mut out: Vec<u8> = Vec::new();
    let mut idx: usize = 0;
    while idx < data.len()
        invariant
            idx <= data@.len(),
            key@.len() > 0,
            out@.len() == idx,
            forall|i: int| 0 <= i < idx ==> out@[i] == (data@[i] ^ key@[i % key@.len() as int]),
        decreases data@.len() - idx,
    {
        out.push(data[idx] ^ key[idx % key.len()]);
        idx = idx + 1;
    }
    out
}

/// The message channel of the game: deliberately empty.
pub fn get_message() -> (r: Vec<u8>)
    ensures
        r@.len() == 0,
{
    Vec::new()
}

/// Why a finished episode ended: a collision loses, a full board wins.
#[derive(Clone, Copy, PartialEq, Eq, Structural, Debug)]
pub enum EndReason {
    Collision,
    BoardFull,
}

/// The run/pause/terminal state machine of one episode. `GameOver` is
/// terminal: no transition leaves it short of building a new episode.
#[derive(Clone, Copy, PartialEq, Eq, Structural, Debug)]
pub enum GameState {
    Running,
    Paused,
    GameOver(EndReason),
}

/// One episode: the immutable field, the actor, the collectible, and the
/// state machine that drives them.
pub struct SnakeGame {
    pub state: GameState,
    pub field: Field,
    pub snake: Snake,
    pub apple: Apple,
}

/// Some actor segment sits on `p`.
pub open spec fn occupies(body: Seq<BodyProperties>, p: (u32, u32)) -> bool {
    exists|i: int| 0 <= i < body.len() && body[i].position == p
}

/// Either the actor or an obstacle cell sits on `p`.
pub open spec fn cell_occupied(
    p: (u32, u32),
    body: Seq<BodyProperties>,
    obstacles: Seq<(u32, u32)>,
) -> bool {
    occupies(body, p) || obstacles.contains(p)
}

/// The head shares its cell with another segment or with an obstacle.
pub open spec fn self_or_obstacle_collision(
    body: Seq<BodyProperties>,
    obstacles: Seq<(u32, u32)>,
) -> bool {
    (exists|i: int| 1 <= i < body.len() && (#[trigger] body[i]).position == body[0].position)
        || obstacles.contains(body[0].position)
}

/// The board counts as full: segments plus obstacle entries cover exactly
/// as many cells as the grid has.
pub open spec fn board_is_full(
    body: Seq<BodyProperties>,
    obstacles: Seq<(u32, u32)>,
    width: u32,
    height: u32,
) -> bool {
    body.len() + obstacles.len() == width * height
}

/// No cell of the grid is free.
pub open spec fn grid_fully_occupied(
    body: Seq<BodyProperties>,
    obstacles: Seq<(u32, u32)>,
    width: u32,
    height: u32,
) -> bool {
    forall|x: u32, y: u32| x < width && y < height ==> cell_occupied((x, y), body, obstacles)
}

/// Tests whether `place` is covered by an actor segment or an obstacle.
pub fn check_if_occupied_by_obstacle_or_snake(place: (u32, u32), snake: &Snake, field: &Field) -> (r:
    bool)
    ensures
        r == cell_occupied(place, snake.body@, field.obstacles_seq()),
{
    let mut i: usize = 0;
    while i < snake.body.len()
        invariant
            i <= snake.body@.len(),
            forall|j: int| 0 <= j < i ==> snake.body@[j].position != place,
        decreases snake.body@.len() - i,
    {
        let q: (u32, u32) = snake.body[i].position;
        if q.0 == place.0 && q.1 == place.1 {
            return true;
        }
        i = i + 1;
    }
    match &field.obstacles {
        Some(obstacle_cells) => {
            let mut k: usize = 0;
            while k < obstacle_cells.len()
                invariant
                    k <= obstacle_cells@.len(),
                    obstacle_cells@ == field.obstacles_seq(),
                    forall|j: int| 0 <= j < snake.body@.len() ==> snake.body@[j].position != place,
                    forall|j: int| 0 <= j < k ==> obstacle_cells@[j] != place,
                decreases obstacle_cells@.len() - k,
            {
                let c: (u32, u32) = obstacle_cells[k];
                if c.0 == place.0 && c.1 == place.1 {
                    return true;
                }
                k = k + 1;
            }
            false
        },
        None => false,
    }
}

/// Tests whether the head has reached the collectible's cell.
pub fn check_if_occupied_by_apple(snake_head: (u32, u32), apple_position: (u32, u32)) -> (r: bool)
    ensures
        r == (snake_head == apple_position),
{
    snake_head.0 == apple_position.0 && snake_head.1 == apple_position.1
}

/// Reports whether the head collides with another segment or an obstacle.
/// A deliberate quirk: on a detected collision the actor grows by one
/// segment just before the episode ends. The extra segment never affects
/// play, the episode being over, but callers reading the body afterwards
/// see it, so the contract states it.
pub fn check_collision(snake: &mut Snake, field: &Field) -> (r: bool)
    requires
        old(snake).body@.len() >= 1,
        field.size.0 >= 1,
        field.size.1 >= 1,
        body_in_bounds(old(snake).body@, field.size.0, field.size.1),
    ensures
        r == self_or_obstacle_collision(old(snake).body@, field.obstacles_seq()),
        r ==> final(snake).body@ == grown_body(old(snake).body@, field.size.0, field.size.1),
        !r ==> final(snake).body@ == old(snake).body@,
        body_in_bounds(final(snake).body@, field.size.0, field.size.1),
    {
    let snake_head = snake.body[0].position;
    let mut i: usize = 1;
    while i < snake.body.len()
        invariant
            1 <= i <= snake.body@.len(),
            snake.body@ == old(snake).body@,
            snake_head == old(snake).body@[0].position,
            field.size.0 >= 1,
            field.size.1 >= 1,
            body_in_bounds(old(snake).body@, field.size.0, field.size.1),
            forall|j: int| 1 <= j < i ==> snake.body@[j].position != snake_head,
        decreases snake.body@.len() - i,
    {
        let q: (u32, u32) = snake.body[i].position;
        if snake_head.0 == q.0 && snake_head.1 == q.1 {
            snake.grow_snake(field.size.0, field.size.1);
            return true;
        }
        i = i + 1;
    }
    match &field.obstacles {
        Some(obstacle_cells) => {
            let mut k: usize = 0;
            while k < obstacle_cells.len()
                invariant
                    k <= obstacle_cells@.len(),
                    snake.body@ == old(snake).body@,
                    snake.body@.len() >= 1,
                    snake_head == old(snake).body@[0].position,
                    obstacle_cells@ == field.obstacles_seq(),
                    field.size.0 >= 1,
                    field.size.1 >= 1,
                    body_in_bounds(old(snake).body@, field.size.0, field.size.1),
                    forall|j: int| 0 <= j < k ==> obstacle_cells@[j] != snake_head,
                decreases obstacle_cells@.len() - k,
            {
                let c: (u32, u32) = obstacle_cells[k];
                if snake_head.0 == c.0 && snake_head.1 == c.1 {
                    snake.grow_snake(field.size.0, field.size.1);
                    return true;
                }
                k = k + 1;
            }
            false
        },
        None => false,
    }
}

/// Decides whether the board is full, counting segments and obstacle
/// entries against the explicit grid area.
pub fn no_free_space_available(snake: &Snake, field: &Field) -> (r: bool)
    ensures
        r == board_is_full(snake.body@, field.obstacles_seq(), field.size.0, field.size.1),
{
    proof {
        assert((field.size.0 as int) * (field.size.1 as int) <= 0xffff_ffff * 0xffff_ffff)
            by (nonlinear_arith)
            requires
                field.size.0 <= 0xffff_ffffu32,
                field.size.1 <= 0xffff_ffffu32,
        ;
    }
    let total: u64 = (field.size.0 as u64) * (field.size.1 as u64);
    let segments: u64 = snake.body.len() as u64;
    let obstacle_entries: u64 = match &field.obstacles {
        Some(obstacle_cells) => obstacle_cells.len() as u64,
        None => 0,
    };
    (segments as u128) + (obstacle_entries as u128) == (total as u128)
}

/// Looks for a cell free of segments and obstacles: a bounded number of
/// random draws from the interior first, then a deterministic sweep of the
/// whole grid. `None` is returned only when no cell of the grid is free.
pub fn find_free_cell(snake: &Snake, field: &Field) -> (r: Option<(u32, u32)>)
    requires
        field.size.0 >= 3,
        field.size.1 >= 3,
    ensures
        r is Some ==> !cell_occupied(r->Some_0, snake.body@, field.obstacles_seq())
            && r->Some_0.0 < field.size.0 && r->Some_0.1 < field.size.1,
        r is None ==> grid_fully_occupied(
            snake.body@,
            field.obstacles_seq(),
            field.size.0,
            field.size.1,
        ),
{
    let width: u32 = field.size.0;
    let height: u32 = field.size.1;
    let mut generator = rng::fresh_rng();
    let mut attempts: u32 = 0;
    while attempts < MAX_SAMPLE_ATTEMPTS
        invariant
            width == field.size.0,
            height == field.size.1,
            width >= 3,
            height >= 3,
        decreases MAX_SAMPLE_ATTEMPTS - attempts,
    {
        let x: u32 = rng::sample_in_range(&mut generator, 1, width - 1);
        let y: u32 = rng::sample_in_range(&mut generator, 1, height - 1);
        if !check_if_occupied_by_obstacle_or_snake((x, y), snake, field) {
            return Some((x, y));
        }
        attempts = attempts + 1;
    }
    let mut y: u32 = 0;
    while y < height
        invariant
            width == field.size.0,
            height == field.size.1,
            y <= height,
            forall|a: u32, b: u32|
                a < width && b < y ==> cell_occupied((a, b), snake.body@, field.obstacles_seq()),
        decreases height - y,
    {
        let mut x: u32 = 0;
        while x < width
            invariant
                width == field.size.0,
                height == field.size.1,
                x <= width,
                y < height,
                forall|a: u32, b: u32|
                    a < width && b < y ==> cell_occupied(
                        (a, b),
                        snake.body@,
                        field.obstacles_seq(),
                    ),
                forall|a: u32|
                    a < x ==> cell_occupied((a, y), snake.body@, field.obstacles_seq()),
            decreases width - x,
        {
            if !check_if_occupied_by_obstacle_or_snake((x, y), snake, field) {
                return Some((x, y));
            }
            x = x + 1;
        }
        y = y + 1;
    }
    None
}

impl SnakeGame {
    /// The shape every reachable episode keeps: a grid of at least 3x3
    /// cells, an actor of at least two segments, every segment on the grid.
    pub open spec fn wf(&self) -> bool {
        &&& self.field.size.0 >= 3
        &&& self.field.size.1 >= 3
        &&& self.snake.body@.len() >= 2
        &&& body_in_bounds(self.snake.body@, self.field.size.0, self.field.size.1)
    }

    /// The actor after this tick's advance, before any growth.
    pub open spec fn advanced_body(self) -> Seq<BodyProperties> {
        moved_body(self.snake.body@, self.field.size.0, self.field.size.1)
    }

    /// The advance of this tick lands the head on the collectible.
    pub open spec fn consumed(self) -> bool {
        self.advanced_body()[0].position == self.apple.position
    }

    /// The actor after this tick's advance and, if the collectible was
    /// consumed, the growth that follows.
    pub open spec fn fed_body(self) -> Seq<BodyProperties> {
        if self.consumed() {
            grown_body(self.advanced_body(), self.field.size.0, self.field.size.1)
        } else {
            self.advanced_body()
        }
    }

    /// Everything one running tick guarantees, relating the state before
    /// (`pre`) to the state after (`post`). Only the freshly placed
    /// collectible is left open, random as it is: it is never on an
    /// occupied cell unless the whole grid is occupied.
    pub open spec fn tick_outcome(pre: SnakeGame, post: SnakeGame) -> bool {
        let width: u32 = pre.field.size.0;
        let height: u32 = pre.field.size.1;
        let obstacles = pre.field.obstacles_seq();
        let fed = pre.fed_body();
        &&& post.field == pre.field
        &&& (!pre.consumed() ==> post.apple == pre.apple)
        &&& (pre.consumed() ==> post.apple.position.0 < width && post.apple.position.1 < height)
        &&& (pre.consumed() ==> !cell_occupied(post.apple.position, fed, obstacles) || (
        post.apple == pre.apple && grid_fully_occupied(fed, obstacles, width, height)))
        &&& (self_or_obstacle_collision(fed, obstacles) ==> post.state == GameState::GameOver(
            EndReason::Collision,
        ) && post.snake.body@ == grown_body(fed, width, height))
        &&& (!self_or_obstacle_collision(fed, obstacles) ==> post.snake.body@ == fed && (
        board_is_full(fed, obstacles, width, height) ==> post.state == GameState::GameOver(
            EndReason::BoardFull,
        )) && (!board_is_full(fed, obstacles, width, height) ==> post.state
            == GameState::Running))
    }

    /// Builds an episode from explicit configuration: field first, then the
    /// actor anchored at a third of the width on the centre row, then the
    /// collectible at two thirds of the width.
    pub fn from(width: u32, height: u32, has_border: bool, obstacles: (bool, u32)) -> (r: Self)
        requires
            3 <= width <= 0x7fffffff,
            3 <= height,
            obstacles.0 && obstacles.1 > 0 ==> width >= 4 && height >= 4,
        ensures
            r.wf(),
            r.state == GameState::Paused,
            r.field.size == (width, height),
            r.field.has_border == has_border,
            r.field.has_obstacles == obstacles.0,
            r.field.num_obstacles == obstacles.1,
            (r.field.obstacles is Some) <==> (obstacles.0 || has_border),
            obstacles.0 ==> model::field::obstacle_vec_ok(
                r.field.obstacles_seq(),
                (width, height),
                obstacles.1,
                has_border,
            ),
            !obstacles.0 && has_border ==> model::field::obstacle_vec_ok(
                r.field.obstacles_seq(),
                (width, height),
                0,
                true,
            ),
            r.snake.body@.len() == 2,
            r.snake.body@[0] == (BodyProperties {
                position: (width / 3, height / 2),
                direction: Direction::LEFT,
            }),
            r.snake.body@[1] == (BodyProperties {
                position: ((width / 3 - 1) as u32, height / 2),
                direction: Direction::LEFT,
            }),
            r.apple.position.0 == (width * 2) / 3,
            r.apple.position.1 == height / 2,
    {
        Self {
            state: GameState::Paused,
            field: Field::from((width, height), has_border, obstacles.0, obstacles.1),
            snake: Snake::add_to_field_at_start(width / 3, height / 2),
            apple: Apple::add_to_field_at_start((width * 2) / 3, height / 2),
        }
    }

    /// Builds the default episode: the standard playground with no border
    /// ring and no obstacle cells.
    pub fn new() -> (r: Self)
        ensures
            r.wf(),
            r.state == GameState::Paused,
            r.field.size == (PLAYGROUND_WIDTH, PLAYGROUND_HEIGHT),
            r.field.obstacles is None,
            r.snake.body@.len() == 2,
            r.snake.body@[0] == (BodyProperties {
                position: (PLAYGROUND_WIDTH / 3, PLAYGROUND_HEIGHT / 2),
                direction: Direction::LEFT,
            }),
            r.snake.body@[1] == (BodyProperties {
                position: ((PLAYGROUND_WIDTH / 3 - 1) as u32, PLAYGROUND_HEIGHT / 2),
                direction: Direction::LEFT,
            }),
            r.apple.position == (((PLAYGROUND_WIDTH * 2) / 3) as u32, PLAYGROUND_HEIGHT / 2),
    {
        Self {
            state: GameState::Paused,
            field: Field::from((PLAYGROUND_WIDTH, PLAYGROUND_HEIGHT), false, false, 0),
            snake: Snake::add_to_field_at_start(PLAYGROUND_WIDTH / 3, PLAYGROUND_HEIGHT / 2),
            apple: Apple::add_to_field_at_start(
                (PLAYGROUND_WIDTH * 2) / 3,
                PLAYGROUND_HEIGHT / 2,
            ),
        }
    }

    /// Puts the episode into `Running`, unless it has already ended.
    pub fn resume(&mut self)
        ensures
            old(self).state is GameOver ==> *final(self) == *old(self),
            !(old(self).state is GameOver) ==> final(self).state == GameState::Running,
            final(self).field == old(self).field,
            final(self).snake.body@ == old(self).snake.body@,
            final(self).apple == old(self).apple,
    {
        match self.state {
            GameState::GameOver(_) => {},
            _ => {
                self.state = GameState::Running;
            },
        }
    }

    /// Swaps `Running` and `Paused`; a finished episode stays finished.
    pub fn toggle_pause(&mut self)
        ensures
            old(self).state == GameState::Running ==> final(self).state == GameState::Paused,
            old(self).state == GameState::Paused ==> final(self).state == GameState::Running,
            old(self).state is GameOver ==> final(self).state == old(self).state,
            final(self).field == old(self).field,
            final(self).snake.body@ == old(self).snake.body@,
            final(self).apple == old(self).apple,
    {
        match self.state {
            GameState::Running => {
                self.state = GameState::Paused;
            },
            GameState::Paused => {
                self.state = GameState::Running;
            },
            GameState::GameOver(_) => {},
        }
    }

    /// Forwards a direction request to the actor; same-axis requests are
    /// refused there.
    pub fn change_head_direction(&mut self, direction: Direction)
        requires
            old(self).snake.body@.len() >= 1,
        ensures
            final(self).state == old(self).state,
            final(self).field == old(self).field,
            final(self).apple == old(self).apple,
            final(self).snake.body@.len() == old(self).snake.body@.len(),
            same_axis(old(self).snake.body@[0].direction, direction) ==> final(self).snake.body@
                == old(self).snake.body@,
            !same_axis(old(self).snake.body@[0].direction, direction) ==> {
                &&& final(self).snake.body@[0].position == old(self).snake.body@[0].position
                &&& final(self).snake.body@[0].direction == direction
                &&& forall|i: int|
                    1 <= i < old(self).snake.body@.len() ==> final(self).snake.body@[i] == old(
                        self,
                    ).snake.body@[i]
            },
    {
        self.snake.set_direction(direction);
    }

    /// The reported score: segments beyond the initial tail segment.
    pub fn score(&self) -> (r: usize)
        requires
            self.snake.body@.len() >= 1,
        ensures
            r == self.snake.body@.len() - 1,
    {
        self.snake.body.len() - 1
    }

    /// One simulation tick. A tick outside `Running` changes nothing. A
    /// running tick advances the actor; on consumption it grows the actor
    /// and relocates the collectible to a free cell (leaving it in place
    /// only when no cell of the grid is free); a collision or a full board
    /// then ends the episode.
    pub fn update(&mut self)
        requires
            old(self).wf(),
        ensures
            final(self).wf(),
            old(self).state != GameState::Running ==> *final(self) == *old(self),
            old(self).state == GameState::Running ==> Self::tick_outcome(*old(self), *final(self)),
    {
        match self.state {
            GameState::Running => {},
            _ => {
                return;
            },
        }
        let width: u32 = self.field.size.0;
        let height: u32 = self.field.size.1;
        self.snake.move_snake(width, height);
        let head: (u32, u32) = self.snake.body[0].position;
        if check_if_occupied_by_apple(head, self.apple.position) {
            self.snake.grow_snake(width, height);
            match find_free_cell(&self.snake, &self.field) {
                Some(cell) => {
                    self.apple.place(cell.0, cell.1);
                },
                None => {},
            }
        }
        if check_collision(&mut self.snake, &self.field) {
            self.state = GameState::GameOver(EndReason::Collision);
            return;
        }
        if no_free_space_available(&self.snake, &self.field) {
            self.state = GameState::GameOver(EndReason::BoardFull);
        }
    }
}

impl Default for SnakeGame {
    fn default() -> (r: Self)
        ensures
            r.wf(),
            r.state == GameState::Paused,
            r.field.size == (PLAYGROUND_WIDTH, PLAYGROUND_HEIGHT),
    {
        Self::new()
    }
}

} // verus!
