use vstd::prelude::*;
use crate::grid::{Direction, GridPosition, in_grid, GRID_SIZE_X, GRID_SIZE_Y};
use crate::organism::{Collision, Food, Player, Segment, stepped};

verus! {

/// Simulation steps per second.
pub const FRAMES_PER_SECOND: u64 = 8;

/// Milliseconds between two simulation steps.
pub const MS_PER_FRAME: u64 = 1000 / FRAMES_PER_SECOND;

/// Column where a snake starts: a quarter of the grid's width, rounded down.
pub const START_X: i16 = 6;

/// Row where a snake starts: half the grid's height, rounded down.
pub const START_Y: i16 = 12;

/// The cell where a snake's head starts.
pub open spec fn start_position() -> GridPosition {
    GridPosition { x: START_X, y: START_Y }
}

/// `p` is a snake as a session starts it: head on the start cell, one
/// segment to its left, heading right, no collision.
pub open spec fn is_initial(p: Player) -> bool {
    &&& p.head.position == start_position()
    &&& p.body@ == seq![Segment { position: GridPosition { x: (START_X - 1) as i16, y: START_Y } }]
    &&& p.direction == Direction::Right
    &&& p.last_update_direction == Direction::Right
    &&& p.collision is None
}

/// Whether a tick at `now` comes a full frame or more after `last`.
pub open spec fn eligible(last: u64, now: u64) -> bool {
    now - last >= MS_PER_FRAME
}

/// A game: one snake, one food, whether the game is over, and the time in
/// milliseconds of the last simulation step.
pub struct GameState {
    pub player: Player,
    pub food: Food,
    pub game_over: bool,
    pub last_update: u64,
}

/// What a renderer needs of a game.
#[derive(Debug, PartialEq, Eq)]
pub struct Snapshot {
    pub head: GridPosition,
    /// The body from the newest segment to the tail.
    pub body: Vec<GridPosition>,
    pub food: GridPosition,
    pub is_game_over: bool,
}

/// `post` and `pre` are the same game.
pub open spec fn same_game(pre: GameState, post: GameState) -> bool {
    &&& post.player.head == pre.player.head
    &&& post.player.body@ == pre.player.body@
    &&& post.player.direction == pre.player.direction
    &&& post.player.last_update_direction == pre.player.last_update_direction
    &&& post.player.collision == pre.player.collision
    &&& post.food == pre.food
    &&& post.game_over == pre.game_over
    &&& post.last_update == pre.last_update
}

/// `post` is `pre` after a tick at `now`, with `fresh` as the cell that a
/// new piece of food would take.
pub open spec fn ticked(pre: GameState, post: GameState, now: u64, fresh: GridPosition) -> bool {
    if !eligible(pre.last_update, now) {
        same_game(pre, post)
    } else if pre.game_over {
        &&& is_initial(post.player)
        &&& post.food.position == fresh
        &&& !post.game_over
        &&& post.last_update == now
    } else {
        &&& stepped(pre.player, post.player, pre.food.position)
        &&& post.food.position == (if post.player.collision == Some(Collision::Food) {
            fresh
        } else {
            pre.food.position
        })
        &&& post.game_over == (post.player.collision == Some(Collision::Itself))
        &&& post.last_update == now
    }
}

impl GameState {
    /// The well-formedness of a game: it is over exactly when the snake ran
    /// into itself.
    pub open spec fn wf(&self) -> bool {
        self.game_over == (self.player.collision == Some(Collision::Itself))
    }

    /// A new game at time `now` with the food on `food_position`.
    pub fn with_food(food_position: GridPosition, now: u64) -> (r: GameState)
        ensures
            is_initial(r.player),
            r.food.position == food_position,
            !r.game_over,
            r.last_update == now,
            r.wf(),
    {
        GameState {
            player: Player::new(GridPosition::new(START_X, START_Y)),
            food: Food::new(food_position),
            game_over: false,
            last_update: now,
        }
    }

    /// A new game at time `now` with the food on a random cell.
    pub fn new(now: u64) -> (r: GameState)
        ensures
            is_initial(r.player),
            in_grid(r.food.position),
            !r.game_over,
            r.last_update == now,
            r.wf(),
    {
        let food_position = GridPosition::random(GRID_SIZE_X, GRID_SIZE_Y);
        GameState::with_food(food_position, now)
    }

    /// Starts the game afresh: a new snake, the food on `food_position`.
    fn restart(&mut self, food_position: GridPosition, now: u64)
        ensures
            is_initial(final(self).player),
            final(self).food.position == food_position,
            !final(self).game_over,
            final(self).last_update == now,
    {
        self.player = Player::new(GridPosition::new(START_X, START_Y));
        self.food = Food::new(food_position);
        self.game_over = false;
        self.last_update = now;
    }

    /// Moves the snake one step and ends the game if it ran into itself;
    /// returns whether it ate the food.
    fn advance(&mut self, now: u64) -> (ate: bool)
        ensures
            stepped(old(self).player, final(self).player, old(self).food.position),
            ate == (final(self).player.collision == Some(Collision::Food)),
            final(self).food == old(self).food,
            final(self).game_over == (final(self).player.collision == Some(Collision::Itself)),
            final(self).last_update == now,
    {
        self.player.update(&self.food);
        let ate = match self.player.collision {
            Some(Collision::Food) => true,
            _ => false,
        };
        self.game_over = match self.player.collision {
            Some(Collision::Itself) => true,
            _ => false,
        };
        self.last_update = now;
        ate
    }

    /// Whether a tick at `now` is due.
    pub fn is_due(&self, now: u64) -> (r: bool)
        ensures
            r == eligible(self.last_update, now),
    {
        now >= self.last_update && now - self.last_update >= MS_PER_FRAME
    }

    /// A tick at time `now`, with `fresh_food` as the cell that new food
    /// takes if the game restarts or the snake eats. Ticks less than a frame
    /// after the last step do nothing; a tick of a game that is over starts
    /// it afresh; otherwise the snake moves one step.
    pub fn tick_with(&mut self, now: u64, fresh_food: GridPosition)
        ensures
            ticked(*old(self), *final(self), now, fresh_food),
            old(self).wf() ==> final(self).wf(),
    {
        if !self.is_due(now) {
            return;
        }
        if self.game_over {
            self.restart(fresh_food, now);
            return;
        }
        if self.advance(now) {
            self.food.position = fresh_food;
        }
    }

    /// A tick at time `now`; new food, where needed, goes to a random cell.
    pub fn tick(&mut self, now: u64)
        ensures
            exists|fresh: GridPosition|
                in_grid(fresh) && #[trigger] ticked(*old(self), *final(self), now, fresh),
            old(self).wf() ==> final(self).wf(),
    {
        if !self.is_due(now) {
            assert(in_grid(GridPosition { x: 0, y: 0 }) && ticked(*old(self), *self, now, GridPosition { x: 0, y: 0 }));
            return;
        }
        if self.game_over {
            let fresh = GridPosition::random(GRID_SIZE_X, GRID_SIZE_Y);
            self.restart(fresh, now);
            assert(in_grid(fresh) && ticked(*old(self), *self, now, fresh));
            return;
        }
        if self.advance(now) {
            let fresh = GridPosition::random(GRID_SIZE_X, GRID_SIZE_Y);
            self.food.position = fresh;
            assert(in_grid(fresh) && ticked(*old(self), *self, now, fresh));
        } else {
            assert(in_grid(GridPosition { x: 0, y: 0 }) && ticked(*old(self), *self, now, GridPosition { x: 0, y: 0 }));
        }
    }

    /// Asks the snake to head towards `direction`; a reversal of the last
    /// step is ignored.
    pub fn set_direction_intent(&mut self, direction: Direction)
        ensures
            final(self).player.direction == crate::organism::direction_after(
                old(self).player.last_update_direction,
                old(self).player.direction,
                direction,
            ),
            final(self).player.head == old(self).player.head,
            final(self).player.body@ == old(self).player.body@,
            final(self).player.collision == old(self).player.collision,
            final(self).player.last_update_direction == old(self).player.last_update_direction,
            final(self).food == old(self).food,
            final(self).game_over == old(self).game_over,
            final(self).last_update == old(self).last_update,
    {
        self.player.set_direction(direction);
    }

    /// The cells of the head, the body and the food, and whether the game
    /// is over.
    pub fn snapshot(&self) -> (r: Snapshot)
        ensures
            r.head == self.player.head.position,
            r.body@ == self.player.body@.map_values(|s: Segment| s.position),
            r.food == self.food.position,
            r.is_game_over == self.game_over,
    {
        let n: usize = self.player.body.len();
        let mut body: Vec<GridPosition> = Vec::new();
        let mut i: usize = 0;
        while i < n
            invariant
                n == self.player.body@.len(),
                0 <= i <= n,
                body@ == self.player.body@.subrange(0, i as int).map_values(|s: Segment| s.position),
            decreases n - i,
        {
            body.push(self.player.body[i].position);
            proof {
                assert(self.player.body@.subrange(0, i + 1 as int) == self.player.body@.subrange(0, i as int).push(self.player.body@[i as int]));
            }
            i = i + 1;
        }
        proof {
            assert(self.player.body@.subrange(0, n as int) == self.player.body@);
        }
        Snapshot {
            head: self.player.head.position,
            body,
            food: self.food.position,
            is_game_over: self.game_over,
        }
    }
}

/// Law of tick gating: of two ticks at `t1` and then `t2`, less than a frame
/// apart, at most one changes the game.
pub proof fn lemma_tick_gating(
    s0: GameState,
    s1: GameState,
    s2: GameState,
    t1: u64,
    t2: u64,
    f1: GridPosition,
    f2: GridPosition,
)
    requires
        ticked(s0, s1, t1, f1),
        ticked(s1, s2, t2, f2),
        t2 < t1 + MS_PER_FRAME,
    ensures
        same_game(s0, s1) || same_game(s1, s2),
{
}

/// Law of restart: once a step of a running game makes the snake run into
/// itself, the game is over, and the next tick that is due starts it afresh:
/// a snake of one segment behind its head on the start cell, heading right,
/// and a game that is not over.
pub proof fn lemma_restart(
    s0: GameState,
    s1: GameState,
    s2: GameState,
    t1: u64,
    t2: u64,
    f1: GridPosition,
    f2: GridPosition,
)
    requires
        s0.wf(),
        !s0.game_over,
        ticked(s0, s1, t1, f1),
        s1.player.collision == Some(Collision::Itself),
        ticked(s1, s2, t2, f2),
        eligible(s1.last_update, t2),
    ensures
        s1.game_over,
        is_initial(s2.player),
        s2.player.body@.len() == 1,
        s2.food.position == f2,
        !s2.game_over,
        s2.wf(),
{
}

} // verus!
