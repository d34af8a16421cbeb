use vstd::prelude::*;
use crate::grid::{Direction, GridPosition, inverse_of, moved, in_grid};
use std::collections::VecDeque;

verus! {

broadcast use vstd::std_specs::vecdeque::group_vec_dequeue_axioms;

/// One cell occupied by the snake.
#[derive(Clone, Copy, Debug, PartialEq, Eq, Structural)]
pub struct Segment {
    pub position: GridPosition,
}

impl Segment {
    pub fn new(position: GridPosition) -> (r: Segment)
        ensures
            r.position == position,
    {
        Segment { position }
    }
}

/// The single piece of food on the grid.
#[derive(Clone, Copy, Debug, PartialEq, Eq, Structural)]
pub struct Food {
    pub position: GridPosition,
}

impl Food {
    pub fn new(position: GridPosition) -> (r: Food)
        ensures
            r.position == position,
    {
        Food { position }
    }
}

/// What the last movement step ran into.
#[derive(Clone, Copy, Debug, PartialEq, Eq, Structural)]
pub enum Collision {
    Food,
    Itself,
}

/// The snake: a head, and a body ordered from the newest segment (the
/// previous head) to the tail.
pub struct Player {
    pub head: Segment,
    pub body: VecDeque<Segment>,
    /// The direction of the next step.
    pub direction: Direction,
    /// What the last step ran into, if anything.
    pub collision: Option<Collision>,
    /// The direction that the last step actually took.
    pub last_update_direction: Direction,
}

/// Whether some segment of `body` lies on `p`.
pub open spec fn occupies(body: Seq<Segment>, p: GridPosition) -> bool {
    exists|i: int| 0 <= i < body.len() && #[trigger] body[i].position == p
}

/// The outcome of a step onto `target` with `body` as the body after the old
/// head was pushed onto it: running into itself takes precedence over food.
pub open spec fn outcome_of(body: Seq<Segment>, target: GridPosition, food: GridPosition) -> Option<
    Collision,
> {
    if occupies(body, target) {
        Some(Collision::Itself)
    } else if target == food {
        Some(Collision::Food)
    } else {
        None
    }
}

/// The body after one step: the old head in front, and the tail dropped
/// unless food was eaten.
pub open spec fn body_after(pushed: Seq<Segment>, outcome: Option<Collision>) -> Seq<Segment> {
    if outcome == Some(Collision::Food) {
        pushed
    } else {
        pushed.drop_last()
    }
}

/// The direction that `last` and `facing` leave after `candidate` is asked
/// for: unchanged if `candidate` reverses the last step taken.
pub open spec fn direction_after(last: Direction, facing: Direction, candidate: Direction) -> Direction {
    if candidate == inverse_of(last) {
        facing
    } else {
        candidate
    }
}

/// `post` is `pre` after one step with food on `food`.
pub open spec fn stepped(pre: Player, post: Player, food: GridPosition) -> bool {
    let target = moved(pre.head.position, pre.direction);
    let pushed = seq![pre.head] + pre.body@;
    let outcome = outcome_of(pushed, target, food);
    &&& post.head.position == target
    &&& post.collision == outcome
    &&& post.body@ == body_after(pushed, outcome)
    &&& post.direction == pre.direction
    &&& post.last_update_direction == pre.direction
}

impl Player {
    /// A snake with its head on `position`, one segment to its left, heading
    /// right.
    pub fn new(position: GridPosition) -> (r: Player)
        requires
            position.x > i16::MIN,
        ensures
            r.head.position == position,
            r.body@ == seq![Segment { position: GridPosition { x: (position.x - 1) as i16, y: position.y } }],
            r.direction == Direction::Right,
            r.last_update_direction == Direction::Right,
            r.collision.is_none(),
    {
        let mut body: VecDeque<Segment> = VecDeque::new();
        body.push_back(Segment::new(GridPosition::new(position.x - 1, position.y)));
        Player {
            head: Segment::new(position),
            body,
            direction: Direction::Right,
            collision: None,
            last_update_direction: Direction::Right,
        }
    }

    /// Whether the head lies on the food.
    pub fn eats(&self, food: &Food) -> (r: bool)
        ensures
            r == (self.head.position == food.position),
    {
        self.head.position == food.position
    }

    /// Whether the head lies on a segment of the body.
    pub fn collides_with_itself(&self) -> (r: bool)
        ensures
            r == occupies(self.body@, self.head.position),
    {
        let n: usize = self.body.len();
        let mut i: usize = 0;
        while i < n
            invariant
                n == self.body@.len(),
                0 <= i <= n,
                forall|j: int| 0 <= j < i ==> self.body@[j].position != self.head.position,
            decreases n - i,
        {
            if self.body[i].position == self.head.position {
                return true;
            }
            i = i + 1;
        }
        false
    }

    /// Whether `candidate` would reverse the step last taken.
    pub fn is_facing_opposite(&self, candidate: Direction) -> (r: bool)
        ensures
            r == (candidate == inverse_of(self.last_update_direction)),
    {
        candidate == self.last_update_direction.inverse()
    }

    /// Heads the snake towards `candidate`, unless that would reverse the
    /// step last taken.
    pub fn set_direction(&mut self, candidate: Direction)
        ensures
            final(self).direction == direction_after(
                old(self).last_update_direction,
                old(self).direction,
                candidate,
            ),
            candidate == inverse_of(old(self).last_update_direction) ==> final(self).direction
                == old(self).direction,
            candidate != inverse_of(old(self).last_update_direction) ==> final(self).direction
                == candidate,
            final(self).head == old(self).head,
            final(self).body@ == old(self).body@,
            final(self).collision == old(self).collision,
            final(self).last_update_direction == old(self).last_update_direction,
    {
        if !self.is_facing_opposite(candidate) {
            self.direction = candidate;
        }
    }

    /// Moves the snake one cell along its direction and records what the
    /// head ran into. The body grows by one exactly when food was eaten; a
    /// step onto the body is a collision with itself even where food lies.
    pub fn update(&mut self, food: &Food)
        ensures
            stepped(*old(self), *final(self), food.position),
            in_grid(old(self).head.position) ==> in_grid(final(self).head.position),
            final(self).collision == Some(Collision::Food) ==> final(self).body@.len()
                == old(self).body@.len() + 1,
            final(self).collision is None ==> final(self).body@.len() == old(self).body@.len(),
            occupies(
                seq![old(self).head] + old(self).body@,
                moved(old(self).head.position, old(self).direction),
            ) ==> final(self).collision == Some(Collision::Itself),
    {
        let new_head_position = GridPosition::new_from_move(self.head.position, self.direction);
        let new_head = Segment::new(new_head_position);

        self.body.push_front(self.head);
        self.head = new_head;

        if self.collides_with_itself() {
            self.collision = Some(Collision::Itself);
        } else if self.eats(food) {
            self.collision = Some(Collision::Food);
        } else {
            self.collision = None;
        }

        match self.collision {
            Some(Collision::Food) => {},
            _ => {
                self.body.pop_back();
            },
        }

        self.last_update_direction = self.direction;
    }
}

} // verus!
