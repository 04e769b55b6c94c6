use snake::game::Snake;
use snake::grid::{step, Direction, Location, GRID_SIZE};
use snake::input::{resolve_direction, HeldKeys};
use snake::render::{axis_pixel, pixel_offset};
use snake::Order;

fn loc(x: i32, y: i32) -> Location {
    Location { x, y }
}

fn snake_with(segments: Vec<Location>, direction: Direction) -> Snake {
    Snake { segments, direction, tail_end: None, foods: Vec::new(), grow_events: 0 }
}

#[test]
fn opposite_twice_is_identity() {
    for d in [Direction::Up, Direction::Left, Direction::Down, Direction::Right] {
        assert_eq!(d.opposite().opposite(), d);
        assert_ne!(d.opposite(), d);
    }
    assert_eq!(Direction::Up.opposite(), Direction::Down);
    assert_eq!(Direction::Left.opposite(), Direction::Right);
}

#[test]
fn reversal_is_rejected() {
    let mut s = Snake::new();
    assert_eq!(s.direction, Direction::Up);
    s.change_direction(HeldKeys::only(Direction::Down));
    assert_eq!(s.direction, Direction::Up);
}

#[test]
fn single_opposite_key_never_turns_back() {
    for current in [Direction::Up, Direction::Left, Direction::Down, Direction::Right] {
        for pressed in [Direction::Up, Direction::Left, Direction::Down, Direction::Right] {
            let r = resolve_direction(HeldKeys::only(pressed), current);
            if pressed == current.opposite() {
                assert_eq!(r, current);
            } else {
                assert_eq!(r, pressed);
            }
        }
    }
}

#[test]
fn key_priority_and_no_keys() {
    let all = HeldKeys { up: true, left: true, down: true, right: true };
    assert_eq!(resolve_direction(all, Direction::Left), Direction::Up);
    // Up wins but is the reverse of Down, so the heading stays.
    assert_eq!(resolve_direction(all, Direction::Down), Direction::Down);
    let down_right = HeldKeys { up: false, left: false, down: true, right: true };
    assert_eq!(resolve_direction(down_right, Direction::Left), Direction::Down);
    assert_eq!(resolve_direction(HeldKeys::none(), Direction::Right), Direction::Right);
    let mut s = Snake::new();
    s.change_direction(HeldKeys::only(Direction::Left));
    assert_eq!(s.direction, Direction::Left);
}

#[test]
fn first_tick_moves_head_and_body() {
    let mut s = Snake::new();
    assert_eq!(s.segments, vec![loc(8, 8), loc(8, 7)]);
    s.tick();
    assert_eq!(s.segments, vec![loc(8, 9), loc(8, 8)]);
    assert_eq!(s.tail_end, Some(loc(8, 7)));
    assert_eq!(s.grow_events, 0);
}

#[test]
fn chain_follows_predecessors() {
    let mut s = snake_with(vec![loc(3, 3), loc(3, 2), loc(4, 2), loc(5, 2)], Direction::Left);
    s.move_head();
    assert_eq!(s.segments, vec![loc(2, 3), loc(3, 3), loc(3, 2), loc(4, 2)]);
    assert_eq!(s.tail_end, Some(loc(5, 2)));
}

#[test]
fn step_clamps_on_moving_axis() {
    assert_eq!(step(loc(8, 15), Direction::Up), loc(8, 15));
    assert_eq!(step(loc(8, 14), Direction::Up), loc(8, 15));
    assert_eq!(step(loc(14, 3), Direction::Right), loc(15, 3));
    assert_eq!(step(loc(15, 3), Direction::Right), loc(15, 3));
    assert_eq!(step(loc(0, 3), Direction::Left), loc(0, 3));
    assert_eq!(step(loc(5, 0), Direction::Down), loc(5, 0));
    assert_eq!(step(loc(5, 6), Direction::Down), loc(5, 5));
    assert_eq!(step(loc(-4, 20), Direction::Left), loc(0, 20));
}

#[test]
fn eating_food_grows_at_old_tail() {
    let mut s = Snake::new();
    s.add_food(loc(8, 9));
    s.move_head();
    assert_eq!(s.segments, vec![loc(8, 9), loc(8, 8)]);
    s.eat();
    assert!(s.foods.is_empty());
    assert_eq!(s.grow_events, 1);
    s.grow();
    assert_eq!(s.segments, vec![loc(8, 9), loc(8, 8), loc(8, 7)]);
    assert_eq!(s.grow_events, 0);
}

#[test]
fn tick_eats_and_grows() {
    let mut s = Snake::new();
    s.add_food(loc(8, 9));
    s.add_food(loc(1, 1));
    s.tick();
    assert_eq!(s.foods, vec![loc(1, 1)]);
    assert_eq!(s.segments, vec![loc(8, 9), loc(8, 8), loc(8, 7)]);
    s.tick();
    assert_eq!(s.segments, vec![loc(8, 10), loc(8, 9), loc(8, 8)]);
}

#[test]
fn two_foods_at_head_raise_two_signals_one_growth() {
    let mut s = snake_with(vec![loc(2, 2), loc(2, 1)], Direction::Up);
    s.add_food(loc(2, 2));
    s.add_food(loc(5, 5));
    s.add_food(loc(2, 2));
    s.eat();
    assert_eq!(s.foods, vec![loc(5, 5)]);
    assert_eq!(s.grow_events, 2);
    s.tail_end = Some(loc(2, 0));
    s.grow();
    assert_eq!(s.segments, vec![loc(2, 2), loc(2, 1), loc(2, 0)]);
    assert_eq!(s.grow_events, 0);
}

#[test]
fn growth_without_signal_or_tail_end() {
    let mut s = Snake::new();
    s.tail_end = Some(loc(1, 1));
    s.grow();
    assert_eq!(s.segments.len(), 2);
    let mut t = Snake::new();
    t.grow_events = 1;
    t.grow();
    assert_eq!(t.segments.len(), 2);
    assert_eq!(t.grow_events, 0);
}

#[test]
fn no_head_means_no_change() {
    let mut s = snake_with(Vec::new(), Direction::Up);
    s.add_food(loc(0, 0));
    s.change_direction(HeldKeys::only(Direction::Left));
    assert_eq!(s.direction, Direction::Up);
    s.move_head();
    s.eat();
    assert!(s.segments.is_empty());
    assert_eq!(s.tail_end, None);
    assert_eq!(s.foods, vec![loc(0, 0)]);
    assert_eq!(s.grow_events, 0);
}

#[test]
fn spawned_food_lies_on_the_field() {
    let mut s = Snake::new();
    for _ in 0..500 {
        s.spawn_food();
    }
    assert_eq!(s.foods.len(), 500);
    for f in &s.foods {
        assert!(0 <= f.x && f.x < GRID_SIZE);
        assert!(0 <= f.y && f.y < GRID_SIZE);
    }
    assert!(s.foods.iter().any(|f| f.x != s.foods[0].x || f.y != s.foods[0].y));
    assert_eq!(s.segments, vec![loc(8, 8), loc(8, 7)]);
}

#[test]
fn pixel_projection() {
    assert_eq!(axis_pixel(8), 0);
    assert_eq!(axis_pixel(9), 20);
    assert_eq!(axis_pixel(14), 120);
    assert_eq!(axis_pixel(15), 140);
    assert_eq!(axis_pixel(1000), 140);
    assert_eq!(axis_pixel(2), -120);
    assert_eq!(axis_pixel(1), -140);
    assert_eq!(axis_pixel(i32::MIN), -140);
    assert_eq!(pixel_offset(loc(7, 10)), (-20, 40));
}

#[test]
fn order_labels_are_distinct() {
    assert_ne!(Order::Input, Order::Movement);
    assert_ne!(Order::Eating, Order::Growth);
}
