use snake_game::{
    modulus_signed, Collision, Direction, Food, GameState, GridPosition, Player, Segment,
    GRID_SIZE_X, GRID_SIZE_Y, MS_PER_FRAME, START_X, START_Y,
};
use std::collections::VecDeque;

fn player_at(head: (i16, i16), body: &[(i16, i16)], direction: Direction) -> Player {
    let mut segments = VecDeque::new();
    for &(x, y) in body {
        segments.push_back(Segment::new(GridPosition::new(x, y)));
    }
    Player {
        head: Segment::new(GridPosition::new(head.0, head.1)),
        body: segments,
        direction,
        collision: None,
        last_update_direction: direction,
    }
}

fn body_of(player: &Player) -> Vec<(i16, i16)> {
    player.body.iter().map(|s| (s.position.x, s.position.y)).collect()
}

fn game_with(player: Player, food: (i16, i16), last_update: u64) -> GameState {
    GameState {
        player,
        food: Food::new(GridPosition::new(food.0, food.1)),
        game_over: false,
        last_update,
    }
}

#[test]
fn wrap_stays_in_range_and_is_periodic() {
    for w in [1, 2, 7, 25, 1000] {
        for v in [-3000, -26, -25, -1, 0, 1, 24, 25, 26, 3000] {
            let r = modulus_signed(v, w);
            assert!(0 <= r && r < w);
            assert_eq!(modulus_signed(v + w, w), r);
        }
    }
}

#[test]
fn wrap_exact_values() {
    assert_eq!(modulus_signed(-1, 25), 24);
    assert_eq!(modulus_signed(25, 25), 0);
    assert_eq!(modulus_signed(7, 25), 7);
    assert_eq!(modulus_signed(-26, 25), 24);
    assert_eq!(modulus_signed(-50, 25), 0);
    assert_eq!(modulus_signed(i32::MIN, 7), 5);
    assert_eq!(modulus_signed(i32::MAX, 7), 1);
}

#[test]
fn inverse_pairs() {
    assert_eq!(Direction::Up.inverse(), Direction::Down);
    assert_eq!(Direction::Down.inverse(), Direction::Up);
    assert_eq!(Direction::Left.inverse(), Direction::Right);
    assert_eq!(Direction::Right.inverse(), Direction::Left);
}

#[test]
fn moves_wrap_at_every_edge() {
    let corner = GridPosition::new(0, 0);
    assert_eq!(GridPosition::new_from_move(corner, Direction::Up), GridPosition::new(0, 24));
    assert_eq!(GridPosition::new_from_move(corner, Direction::Left), GridPosition::new(24, 0));
    let far = GridPosition::new(24, 24);
    assert_eq!(GridPosition::new_from_move(far, Direction::Down), GridPosition::new(24, 0));
    assert_eq!(GridPosition::new_from_move(far, Direction::Right), GridPosition::new(0, 24));
    let mid = GridPosition::new(6, 12);
    assert_eq!(GridPosition::new_from_move(mid, Direction::Right), GridPosition::new(7, 12));
    assert_eq!(GridPosition::new_from_move(mid, Direction::Up), GridPosition::new(6, 11));
}

#[test]
fn position_from_pair() {
    let p: GridPosition = (3i16, 4i16).into();
    assert_eq!(p, GridPosition::new(3, 4));
}

#[test]
fn new_player_has_one_segment_to_the_left() {
    let p = Player::new(GridPosition::new(6, 12));
    assert_eq!(p.head.position, GridPosition::new(6, 12));
    assert_eq!(body_of(&p), vec![(5, 12)]);
    assert_eq!(p.direction, Direction::Right);
    assert_eq!(p.last_update_direction, Direction::Right);
    assert!(p.collision.is_none());
}

#[test]
fn plain_step_keeps_length() {
    let mut p = player_at((6, 12), &[(5, 12)], Direction::Right);
    p.update(&Food::new(GridPosition::new(20, 20)));
    assert_eq!(p.head.position, GridPosition::new(7, 12));
    assert_eq!(body_of(&p), vec![(6, 12)]);
    assert!(p.collision.is_none());
}

#[test]
fn reversal_is_ignored_after_step() {
    let mut p = player_at((6, 12), &[(5, 12)], Direction::Right);
    p.update(&Food::new(GridPosition::new(20, 20)));
    p.set_direction(Direction::Left);
    assert_eq!(p.direction, Direction::Right);
    assert!(p.is_facing_opposite(Direction::Left));
}

#[test]
fn reversal_is_checked_against_last_step() {
    let mut p = player_at((6, 12), &[(5, 12)], Direction::Right);
    p.set_direction(Direction::Up);
    assert_eq!(p.direction, Direction::Up);
    p.set_direction(Direction::Left);
    assert_eq!(p.direction, Direction::Up);
    p.set_direction(Direction::Down);
    assert_eq!(p.direction, Direction::Down);
}

#[test]
fn eating_grows_by_one() {
    let mut p = player_at((6, 12), &[(5, 12)], Direction::Right);
    p.update(&Food::new(GridPosition::new(7, 12)));
    assert!(matches!(p.collision, Some(Collision::Food)));
    assert_eq!(p.head.position, GridPosition::new(7, 12));
    assert_eq!(body_of(&p), vec![(6, 12), (5, 12)]);
}

#[test]
fn step_onto_body_hits_itself_even_over_food() {
    let mut p = player_at((5, 5), &[(5, 4), (6, 4), (6, 5), (6, 6)], Direction::Right);
    p.update(&Food::new(GridPosition::new(6, 5)));
    assert!(matches!(p.collision, Some(Collision::Itself)));
    assert_eq!(p.head.position, GridPosition::new(6, 5));
    assert_eq!(body_of(&p), vec![(5, 5), (5, 4), (6, 4), (6, 5)]);
}

#[test]
fn step_back_onto_previous_head_hits_itself() {
    let mut p = player_at((6, 12), &[(5, 12)], Direction::Right);
    p.direction = Direction::Left;
    p.update(&Food::new(GridPosition::new(5, 12)));
    assert!(matches!(p.collision, Some(Collision::Itself)));
    assert_eq!(p.last_update_direction, Direction::Left);
}

#[test]
fn eats_and_collides_queries() {
    let p = player_at((3, 3), &[(3, 3)], Direction::Up);
    assert!(p.collides_with_itself());
    assert!(p.eats(&Food::new(GridPosition::new(3, 3))));
    assert!(!p.eats(&Food::new(GridPosition::new(3, 4))));
    let q = player_at((3, 3), &[(3, 4)], Direction::Up);
    assert!(!q.collides_with_itself());
}

#[test]
fn new_game_starts_at_canonical_layout() {
    let g = GameState::with_food(GridPosition::new(1, 2), 500);
    assert_eq!(g.player.head.position, GridPosition::new(START_X, START_Y));
    assert_eq!(body_of(&g.player), vec![(START_X - 1, START_Y)]);
    assert_eq!(g.food.position, GridPosition::new(1, 2));
    assert!(!g.game_over);
    assert_eq!(g.last_update, 500);
    assert_eq!((START_X, START_Y), (GRID_SIZE_X / 4, GRID_SIZE_Y / 2));
}

#[test]
fn random_food_is_on_the_grid() {
    for _ in 0..200 {
        let g = GameState::new(0);
        let f = g.food.position;
        assert!(0 <= f.x && f.x < GRID_SIZE_X && 0 <= f.y && f.y < GRID_SIZE_Y);
    }
}

#[test]
fn tick_scenario_plain_move() {
    let mut g = game_with(player_at((6, 12), &[(5, 12)], Direction::Right), (20, 20), 0);
    g.tick_with(MS_PER_FRAME, GridPosition::new(1, 1));
    assert_eq!(g.player.head.position, GridPosition::new(7, 12));
    assert_eq!(body_of(&g.player), vec![(6, 12)]);
    assert!(g.player.collision.is_none());
    assert_eq!(g.food.position, GridPosition::new(20, 20));
    g.set_direction_intent(Direction::Left);
    assert_eq!(g.player.direction, Direction::Right);
}

#[test]
fn tick_scenario_eats_and_relocates() {
    let mut g = game_with(player_at((6, 12), &[(5, 12)], Direction::Right), (7, 12), 0);
    g.tick_with(MS_PER_FRAME, GridPosition::new(1, 1));
    assert!(matches!(g.player.collision, Some(Collision::Food)));
    assert_eq!(body_of(&g.player), vec![(6, 12), (5, 12)]);
    assert_eq!(g.food.position, GridPosition::new(1, 1));
    assert!(!g.game_over);
}

#[test]
fn random_tick_relocates_food_onto_grid() {
    let mut g = game_with(player_at((6, 12), &[(5, 12)], Direction::Right), (7, 12), 0);
    g.tick(MS_PER_FRAME);
    assert_eq!(body_of(&g.player), vec![(6, 12), (5, 12)]);
    let f = g.food.position;
    assert!(0 <= f.x && f.x < GRID_SIZE_X && 0 <= f.y && f.y < GRID_SIZE_Y);
}

#[test]
fn ticks_within_a_frame_are_coalesced() {
    let mut g = game_with(player_at((6, 12), &[(5, 12)], Direction::Right), (20, 20), 1000);
    g.tick_with(1000 + MS_PER_FRAME, GridPosition::new(1, 1));
    assert_eq!(g.player.head.position, GridPosition::new(7, 12));
    g.tick_with(1000 + 2 * MS_PER_FRAME - 1, GridPosition::new(1, 1));
    assert_eq!(g.player.head.position, GridPosition::new(7, 12));
    assert_eq!(g.last_update, 1000 + MS_PER_FRAME);
    g.tick_with(1000 + 2 * MS_PER_FRAME, GridPosition::new(1, 1));
    assert_eq!(g.player.head.position, GridPosition::new(8, 12));
}

#[test]
fn tick_before_last_update_does_nothing() {
    let mut g = game_with(player_at((6, 12), &[(5, 12)], Direction::Right), (20, 20), 1000);
    g.tick_with(10, GridPosition::new(1, 1));
    assert_eq!(g.player.head.position, GridPosition::new(6, 12));
    assert_eq!(g.last_update, 1000);
}

#[test]
fn hitting_itself_ends_then_restarts() {
    let p = player_at((5, 5), &[(5, 4), (6, 4), (6, 5), (6, 6)], Direction::Right);
    let mut g = game_with(p, (0, 0), 0);
    g.tick_with(MS_PER_FRAME, GridPosition::new(1, 1));
    assert!(g.game_over);
    assert!(g.snapshot().is_game_over);
    g.tick_with(MS_PER_FRAME + 1, GridPosition::new(2, 2));
    assert!(g.game_over);
    g.tick_with(2 * MS_PER_FRAME, GridPosition::new(2, 2));
    assert!(!g.game_over);
    assert_eq!(g.player.head.position, GridPosition::new(START_X, START_Y));
    assert_eq!(body_of(&g.player), vec![(START_X - 1, START_Y)]);
    assert_eq!(g.player.direction, Direction::Right);
    assert_eq!(g.food.position, GridPosition::new(2, 2));
}

#[test]
fn food_may_land_under_the_snake() {
    let mut g = game_with(player_at((6, 12), &[(5, 12)], Direction::Right), (7, 12), 0);
    g.tick_with(MS_PER_FRAME, GridPosition::new(6, 12));
    assert_eq!(g.food.position, GridPosition::new(6, 12));
    assert!(!g.game_over);
}

#[test]
fn snapshot_lists_cells() {
    let g = game_with(player_at((6, 12), &[(5, 12), (4, 12)], Direction::Right), (9, 9), 0);
    let s = g.snapshot();
    assert_eq!(s.head, GridPosition::new(6, 12));
    assert_eq!(s.body, vec![GridPosition::new(5, 12), GridPosition::new(4, 12)]);
    assert_eq!(s.food, GridPosition::new(9, 9));
    assert!(!s.is_game_over);
}

#[test]
fn frame_interval_is_eighth_of_a_second() {
    assert_eq!(MS_PER_FRAME, 125);
}
