use snake_core::grid::{Direction, Grid};
use snake_core::snake::{FoodEffect, Snake, TickInput, STEP_BUDGET};

fn input(elapsed_ms: u32) -> TickInput {
    TickInput {
        up_pressed: false,
        down_pressed: false,
        left_pressed: false,
        right_pressed: false,
        grow_pressed: false,
        shrink_pressed: false,
        elapsed_ms,
    }
}

fn fresh_snake() -> (Grid, Snake) {
    let grid = Grid::new(1600, 1000);
    let start = grid.get_point(800, 500);
    let snake = Snake::new(&grid, start);
    (grid, snake)
}

#[test]
fn step_budget_is_one_tile_width_in_pixel_milliseconds() {
    assert_eq!(STEP_BUDGET, 32 * 1000);
}

#[test]
fn initial_chain_is_four_segments_behind_the_start() {
    let (_, snake) = fresh_snake();
    assert_eq!(snake.segment_count(), 4);
    let tiles: Vec<(isize, isize)> = (0..4)
        .map(|i| {
            let s = snake.segment_at(i);
            (s.point.x, s.point.y)
        })
        .collect();
    assert_eq!(tiles, vec![(25, 15), (24, 15), (23, 15), (22, 15)]);
    for i in 0..4 {
        assert_eq!(snake.segment_at(i).direction, Direction::Right);
    }
    assert_eq!(snake.direction, Direction::Right);
    assert_eq!(snake.velocity, 32);
    assert_eq!(snake.distance_accumulated, 0);
    assert!(snake.food_source.is_none());
}

#[test]
fn one_full_second_at_velocity_32_steps_once_with_no_residue() {
    let (grid, mut snake) = fresh_snake();
    snake.update(&grid, input(1000));
    assert_eq!(snake.distance_accumulated, 0);
    assert_eq!(snake.segment_count(), 4);
    assert_eq!(snake.get_head().point.x, 26);
    assert_eq!(snake.get_head().point.y, 15);
    assert_eq!(snake.get_head().point.x_actual, 832);
}

#[test]
fn split_ticks_summing_to_one_tile_step_exactly_once() {
    let (grid, mut snake) = fresh_snake();
    snake.update(&grid, input(500));
    assert_eq!(snake.distance_accumulated, 500 * 32);
    assert_eq!(snake.get_head().point.x, 25);
    snake.update(&grid, input(500));
    assert_eq!(snake.distance_accumulated, 0);
    assert_eq!(snake.get_head().point.x, 26);
}

#[test]
fn overshoot_is_kept_exactly_not_zeroed() {
    let (grid, mut snake) = fresh_snake();
    snake.update(&grid, input(700));
    assert_eq!(snake.distance_accumulated, 700 * 32);
    assert_eq!(snake.get_head().point.x, 25);
    snake.update(&grid, input(400));
    // 1100 ms of travel at 32 px/s is 35200 pixel-ms: one step fires and
    // the exact overshoot of 3200 stays in the budget.
    assert_eq!(snake.distance_accumulated, 3200);
    assert_eq!(snake.get_head().point.x, 26);
}

#[test]
fn a_huge_tick_subtracts_one_tile_only() {
    let (grid, mut snake) = fresh_snake();
    snake.update(&grid, input(1500));
    assert_eq!(snake.distance_accumulated, 16000);
    assert_eq!(snake.get_head().point.x, 26);
}

#[test]
fn idle_tick_changes_nothing_but_the_budget() {
    let (grid, mut snake) = fresh_snake();
    snake.update(&grid, input(100));
    assert_eq!(snake.distance_accumulated, 3200);
    assert_eq!(snake.segment_count(), 4);
    assert_eq!(snake.get_head().point.x, 25);
}

#[test]
fn plain_step_keeps_chain_length() {
    let (grid, mut snake) = fresh_snake();
    for _ in 0..5 {
        snake.update(&grid, input(1000));
        assert_eq!(snake.segment_count(), 4);
    }
    assert_eq!(snake.get_head().point.x, 30);
    assert_eq!(snake.get_tail().point.x, 27);
}

#[test]
fn grow_step_adds_one_segment() {
    let (grid, mut snake) = fresh_snake();
    let mut grow = input(1000);
    grow.grow_pressed = true;
    snake.update(&grid, grow);
    assert_eq!(snake.segment_count(), 5);
    assert!(snake.food_source.is_none());
}

#[test]
fn shrink_step_from_four_drops_one_net() {
    let (grid, mut snake) = fresh_snake();
    let mut shrink = input(1000);
    shrink.shrink_pressed = true;
    snake.update(&grid, shrink);
    assert_eq!(snake.segment_count(), 3);
    assert!(snake.food_source.is_none());
}

#[test]
fn shrink_step_at_three_skips_the_second_drop() {
    let (grid, mut snake) = fresh_snake();
    let mut shrink = input(1000);
    shrink.shrink_pressed = true;
    // First shrink: the chain of 4 loses the motion drop and the shrink
    // drop, then regains the new head: 4 -> 2 -> 3.
    snake.update(&grid, shrink);
    assert_eq!(snake.segment_count(), 3);
    // Second shrink at length 3: the first drop leaves 2 segments, under
    // the floor of 3, so the second drop is skipped: 3 -> 2 -> 3.
    snake.update(&grid, shrink);
    assert_eq!(snake.segment_count(), 3);
}

#[test]
fn food_request_is_latched_between_steps() {
    let (grid, mut snake) = fresh_snake();
    let mut grow_idle = input(100);
    grow_idle.grow_pressed = true;
    snake.update(&grid, grow_idle);
    assert_eq!(snake.food_source, Some(FoodEffect::Grow));
    assert_eq!(snake.segment_count(), 4);
    snake.update(&grid, input(900));
    assert_eq!(snake.segment_count(), 5);
    assert!(snake.food_source.is_none());
}

#[test]
fn pending_effect_blocks_a_new_request() {
    let (grid, mut snake) = fresh_snake();
    let mut grow_idle = input(0);
    grow_idle.grow_pressed = true;
    snake.update(&grid, grow_idle);
    assert_eq!(snake.food_source, Some(FoodEffect::Grow));
    let mut shrink_idle = input(0);
    shrink_idle.shrink_pressed = true;
    snake.update(&grid, shrink_idle);
    assert_eq!(snake.food_source, Some(FoodEffect::Grow));
}

#[test]
fn grow_wins_when_both_are_pressed_at_once() {
    let (grid, mut snake) = fresh_snake();
    let mut both = input(0);
    both.grow_pressed = true;
    both.shrink_pressed = true;
    snake.update(&grid, both);
    assert_eq!(snake.food_source, Some(FoodEffect::Grow));
}

#[test]
fn reversal_of_head_facing_is_rejected() {
    let (grid, mut snake) = fresh_snake();
    let mut left = input(0);
    left.left_pressed = true;
    snake.update(&grid, left);
    assert_eq!(snake.direction, Direction::Right);
}

#[test]
fn reversal_stays_rejected_after_an_accepted_turn() {
    let (grid, mut snake) = fresh_snake();
    let mut up = input(0);
    up.up_pressed = true;
    snake.update(&grid, up);
    assert_eq!(snake.direction, Direction::Up);
    // The head still faces right until the next step, so a left request is
    // still a reversal of the head's facing and stays rejected.
    let mut left = input(0);
    left.left_pressed = true;
    snake.update(&grid, left);
    assert_eq!(snake.direction, Direction::Up);
}

#[test]
fn reversal_of_pending_direction_is_rejected_mid_stride() {
    let (grid, mut snake) = fresh_snake();
    let mut up = input(0);
    up.up_pressed = true;
    snake.update(&grid, up);
    assert_eq!(snake.direction, Direction::Up);
    let mut down = input(0);
    down.down_pressed = true;
    snake.update(&grid, down);
    assert_eq!(snake.direction, Direction::Up);
}

#[test]
fn turn_rewrites_the_old_head_facing_for_the_corner() {
    let (grid, mut snake) = fresh_snake();
    let mut up_step = input(1000);
    up_step.up_pressed = true;
    snake.update(&grid, up_step);
    assert_eq!(snake.direction, Direction::Up);
    assert_eq!(snake.get_head().direction, Direction::Up);
    assert_eq!(snake.get_head().point.y, 14);
    // What was the head is now the neck; its stored facing was rewritten to
    // the turn direction so the renderer can draw the corner there.
    assert_eq!(snake.get_neck().direction, Direction::Up);
    assert_eq!(snake.get_neck().point.x, 25);
    assert_eq!(snake.get_neck().point.y, 15);
}

#[test]
fn straight_step_keeps_the_neck_facing() {
    let (grid, mut snake) = fresh_snake();
    snake.update(&grid, input(1000));
    assert_eq!(snake.get_neck().direction, Direction::Right);
}

#[test]
fn head_neck_tail_are_the_chain_ends() {
    let (_, snake) = fresh_snake();
    assert_eq!(snake.get_head(), snake.segment_at(0));
    assert_eq!(snake.get_neck(), snake.segment_at(1));
    assert_eq!(snake.get_tail(), snake.segment_at(3));
}

#[test]
fn handle_eating_alone_resolves_the_pending_effect() {
    let (_, mut snake) = fresh_snake();
    snake.handle_eating();
    assert_eq!(snake.segment_count(), 3);
    snake.food_source = Some(FoodEffect::Grow);
    snake.handle_eating();
    assert_eq!(snake.segment_count(), 3);
    assert!(snake.food_source.is_none());
    snake.food_source = Some(FoodEffect::Shrink);
    snake.handle_eating();
    // One drop leaves 2, under the floor of 3, so the second drop is skipped.
    assert_eq!(snake.segment_count(), 2);
    assert!(snake.food_source.is_none());
}
