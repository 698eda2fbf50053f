use snake_game::game::{Game, Key};
use snake_game::snake::{Brick, Direction, Snake};

#[test]
fn new_game_initial_state() {
    let g = Game::new(10, 10);
    assert_eq!(g.width, 10);
    assert_eq!(g.height, 10);
    assert_eq!(g.snake.body.len(), 3);
    assert_eq!(g.snake.body[0], Brick { x: 5, y: 2 });
    assert!(g.food);
    assert_eq!((g.food_x, g.food_y), (5, 7));
    assert!(!g.game_over);
    assert_eq!(g.score, 0);
    assert_eq!(g.wait, 0);
    assert!(g.is_well_formed());
}

#[test]
fn three_ticks_move_head_three_cells() {
    // Grid 10x10, head starts at (5, 2) heading Right; three timed steps
    // with no input and no food in the path end with the head at (8, 2).
    let mut g = Game::new(10, 10);
    g.update(101);
    g.update(101);
    g.update(101);
    assert_eq!(g.snake.body[0], Brick { x: 8, y: 2 });
    assert_eq!(g.snake.body.len(), 3);
    assert!(!g.game_over);
    assert_eq!(g.score, 0);
}

#[test]
fn step_into_border_is_rejected() {
    // From (8, 2) the next head cell would sit on the border column of a
    // 10-wide grid: the step is rejected, the game ends, nothing moves.
    let mut g = Game::new(10, 10);
    g.update(101);
    g.update(101);
    g.update(101);
    assert_eq!(g.snake.body[0], Brick { x: 8, y: 2 });
    g.update(101);
    assert!(g.game_over);
    assert_eq!(g.snake.body[0], Brick { x: 8, y: 2 });
    assert_eq!(g.snake.body.len(), 3);
    assert!(g.is_well_formed());
}

#[test]
fn smallest_grid_first_step_hits_border() {
    let mut g = Game::new(7, 9);
    assert!(g.is_well_formed());
    // The head starts at (5, 2) and the border column is x = 6.
    g.update(101);
    assert!(g.game_over);
    assert_eq!(g.snake.body[0], Brick { x: 5, y: 2 });
}

#[test]
fn eating_grows_scores_and_consumes_food() {
    // Food at (6, 2), head about to move to (6, 2): after the step the
    // body has 4 cells, the score is 1 and the food is gone.
    let mut g = Game::new(10, 10);
    g.food_x = 6;
    g.food_y = 2;
    g.update(101);
    assert_eq!(g.snake.body.len(), 4);
    assert_eq!(g.score, 1);
    assert!(!g.food);
    assert_eq!(g.snake.body[0], Brick { x: 6, y: 2 });
    // The appended cell is the one the move had just vacated.
    assert_eq!(g.snake.body[3], Brick { x: 3, y: 2 });
    assert!(g.is_well_formed());
}

#[test]
fn reversal_input_is_dropped() {
    let mut g = Game::new(10, 10);
    g.key(Key::A);
    assert_eq!(g.snake.head_direction(), Direction::Right);
    assert_eq!(g.snake.body[0], Brick { x: 5, y: 2 });
    g.key(Key::Left);
    assert_eq!(g.snake.head_direction(), Direction::Right);
    assert_eq!(g.snake.body[0], Brick { x: 5, y: 2 });
    // A later timed step still moves along the unchanged heading.
    g.update(101);
    assert_eq!(g.snake.head_direction(), Direction::Right);
    assert_eq!(g.snake.body[0], Brick { x: 6, y: 2 });
}

#[test]
fn accepted_key_forces_a_step() {
    let mut g = Game::new(10, 10);
    g.key(Key::Up);
    assert_eq!(g.snake.head_direction(), Direction::Up);
    assert_eq!(g.snake.body[0], Brick { x: 5, y: 1 });

    let mut g = Game::new(10, 10);
    g.key(Key::S);
    assert_eq!(g.snake.head_direction(), Direction::Down);
    assert_eq!(g.snake.body[0], Brick { x: 5, y: 3 });

    let mut g = Game::new(10, 10);
    g.key(Key::D);
    assert_eq!(g.snake.head_direction(), Direction::Right);
    assert_eq!(g.snake.body[0], Brick { x: 6, y: 2 });
}

#[test]
fn unrecognized_key_is_ignored() {
    let mut g = Game::new(10, 10);
    g.key(Key::Other);
    assert_eq!(g.snake.head_direction(), Direction::Right);
    assert_eq!(g.snake.body[0], Brick { x: 5, y: 2 });
    assert_eq!(g.wait, 0);
}

#[test]
fn input_ignored_in_game_over() {
    let mut g = Game::new(7, 9);
    g.update(101);
    assert!(g.game_over);
    g.key(Key::Up);
    assert!(g.game_over);
    assert_eq!(g.snake.head_direction(), Direction::Right);
    assert_eq!(g.snake.body[0], Brick { x: 5, y: 2 });
}

#[test]
fn wait_accumulates_until_tick_period() {
    let mut g = Game::new(10, 10);
    g.update(50);
    assert_eq!(g.wait, 50);
    assert_eq!(g.snake.body[0], Brick { x: 5, y: 2 });
    g.update(49);
    assert_eq!(g.wait, 99);
    assert_eq!(g.snake.body[0], Brick { x: 5, y: 2 });
    g.update(2);
    // 101 ms exceed the 100 ms tick period: a step fires, the timer resets.
    assert_eq!(g.wait, 0);
    assert_eq!(g.snake.body[0], Brick { x: 6, y: 2 });
}

#[test]
fn wait_saturates_instead_of_wrapping() {
    let mut g = Game::new(10, 10);
    g.update(u64::MAX);
    assert_eq!(g.snake.body[0], Brick { x: 6, y: 2 });
    assert_eq!(g.wait, 0);
}

#[test]
fn restart_rebuilds_canonical_round() {
    let mut g = Game::new(10, 10);
    g.food_x = 6;
    g.food_y = 2;
    g.update(101);
    assert_eq!(g.score, 1);
    g.restart();
    assert_eq!(g.snake.body.len(), 3);
    assert_eq!(g.score, 0);
    assert!(!g.game_over);
    assert_eq!(g.snake.body[0], Brick { x: 5, y: 2 });
    assert_eq!(g.wait, 0);
    assert!(!g.food);
    assert!(g.is_well_formed());
}

#[test]
fn game_over_restarts_after_grace_period() {
    let mut g = Game::new(10, 10);
    g.update(101);
    g.update(101);
    g.update(101);
    g.update(101);
    assert!(g.game_over);
    g.update(500);
    assert!(g.game_over);
    g.update(2000);
    assert!(!g.game_over);
    assert_eq!(g.snake.body.len(), 3);
    assert_eq!(g.snake.body[0], Brick { x: 5, y: 2 });
    assert_eq!(g.score, 0);
    // The round restarts without food; the next frame places a new one.
    assert!(!g.food);
    g.update(0);
    assert!(g.food);
    assert!(!g.snake.overlap_tail(g.food_x, g.food_y));
}

#[test]
fn food_never_lands_on_the_snake() {
    for _ in 0..50 {
        let mut g = Game::new(10, 10);
        g.food = false;
        g.add_food();
        assert!(g.food);
        assert!(1 <= g.food_x && g.food_x <= 8);
        assert!(1 <= g.food_y && g.food_y <= 8);
        assert!(!g.snake.overlap_tail(g.food_x, g.food_y));
    }
}

#[test]
fn food_placement_skips_a_full_interior() {
    // A snake whose body (minus the vacating tail) covers every interior
    // cell of a 7x4 grid: placement finds no free cell and changes nothing.
    let mut g = Game::new(10, 10);
    let cells = [
        (1, 1),
        (2, 1),
        (3, 1),
        (4, 1),
        (5, 1),
        (5, 2),
        (4, 2),
        (3, 2),
        (2, 2),
        (1, 2),
        (1, 3),
    ];
    let mut body = Vec::new();
    for &(x, y) in cells.iter() {
        body.push(Brick { x, y });
    }
    g.snake = Snake {
        direction: Direction::Right,
        body,
        tail: None,
    };
    g.width = 7;
    g.height = 4;
    g.food = false;
    g.score = 8;
    assert!(g.is_well_formed());
    g.add_food();
    assert!(!g.food);
    assert_eq!(g.snake.body.len(), 11);
}

#[test]
fn render_view_mirrors_the_state() {
    let mut g = Game::new(12, 14);
    g.update(1);
    let v = g.describe_for_rendering();
    assert_eq!(v.width, 12);
    assert_eq!(v.height, 14);
    assert_eq!(v.food, g.food);
    assert_eq!((v.food_x, v.food_y), (g.food_x, g.food_y));
    assert_eq!(v.game_over, g.game_over);
    assert_eq!(v.body.len(), g.snake.body.len());
    for i in 0..v.body.len() {
        assert_eq!(v.body[i], g.snake.body[i]);
    }
}

#[test]
fn well_formedness_check_rejects_bad_states() {
    let mut g = Game::new(10, 10);
    g.score = 5;
    assert!(!g.is_well_formed());

    let mut g = Game::new(10, 10);
    g.food_x = 9;
    assert!(!g.is_well_formed());

    let mut g = Game::new(10, 10);
    g.snake.body.clear();
    assert!(!g.is_well_formed());
}
