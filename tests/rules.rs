use snake_game::food::place_food;
use snake_game::game::{Game, GameStatus};
use snake_game::grid::{Direction, GridConfig, Position};
use snake_game::menu::{command_for_key, welcome_choice, Command, Key, OptionsAction, Settings, WelcomeAction};
use snake_game::snake::{Snake, INITIAL_LENGTH};

fn pos(x: u16, y: u16) -> Position {
    Position { x, y }
}

fn bounded(width: u16, height: u16) -> GridConfig {
    GridConfig { width, height, wrap: false }
}

fn wrapping(width: u16, height: u16) -> GridConfig {
    GridConfig { width, height, wrap: true }
}

fn line_snake(direction: Direction) -> Snake {
    Snake { body: vec![pos(10, 5), pos(10, 6), pos(10, 7), pos(10, 8), pos(10, 9)], direction }
}

#[test]
fn turn_left_from_up_in_bounded_grid() {
    let mut s = line_snake(Direction::Up);
    let r = s.advance(Some(Direction::Left), bounded(20, 10));
    assert_eq!(s.direction, Direction::Left);
    assert_eq!(r.head, pos(9, 5));
    assert_eq!(s.body, vec![pos(9, 5), pos(10, 5), pos(10, 6), pos(10, 7), pos(10, 8)]);
    assert!(!r.self_collision);
    assert!(!r.boundary_violation);
}

#[test]
fn every_non_opposite_request_is_taken() {
    let all = [Direction::Up, Direction::Down, Direction::Left, Direction::Right];
    for current in all {
        for requested in all {
            let mut s = Snake { body: vec![pos(5, 5)], direction: current };
            s.advance(Some(requested), bounded(20, 10));
            if requested == current.opposite() {
                assert_eq!(s.direction, current);
            } else {
                assert_eq!(s.direction, requested);
            }
        }
    }
}

#[test]
fn reversal_is_refused() {
    let mut s = line_snake(Direction::Up);
    let r = s.advance(Some(Direction::Down), bounded(20, 12));
    assert_eq!(s.direction, Direction::Up);
    assert_eq!(r.head, pos(10, 4));
    assert!(!r.self_collision);
}

#[test]
fn no_request_keeps_heading() {
    let mut s = line_snake(Direction::Up);
    let r = s.advance(None, bounded(20, 10));
    assert_eq!(s.direction, Direction::Up);
    assert_eq!(r.head, pos(10, 4));
}

#[test]
fn wrap_left_edge_to_right_edge() {
    let mut s = Snake { body: vec![pos(0, 5), pos(1, 5)], direction: Direction::Left };
    let r = s.advance(None, wrapping(20, 10));
    assert_eq!(r.head, pos(19, 5));
    assert_eq!(s.body, vec![pos(19, 5), pos(0, 5)]);
    assert!(!r.boundary_violation);
}

#[test]
fn wrap_on_every_edge() {
    let cfg = wrapping(20, 10);
    let cases = [
        (pos(19, 3), Direction::Right, pos(0, 3)),
        (pos(4, 0), Direction::Up, pos(4, 9)),
        (pos(4, 9), Direction::Down, pos(4, 0)),
        (pos(7, 7), Direction::Right, pos(8, 7)),
    ];
    for (start, d, expected) in cases {
        let mut s = Snake { body: vec![start], direction: d };
        let r = s.advance(None, cfg);
        assert_eq!(r.head, expected);
        assert!(!r.boundary_violation);
        assert!(cfg.contains(r.head));
    }
}

#[test]
fn bounded_edges_are_violations() {
    let cfg = bounded(20, 10);
    let cases = [
        (pos(1, 5), Direction::Left, pos(0, 5)),
        (pos(18, 5), Direction::Right, pos(19, 5)),
        (pos(5, 1), Direction::Up, pos(5, 0)),
        (pos(5, 8), Direction::Down, pos(5, 9)),
        (pos(0, 5), Direction::Left, pos(0, 5)),
    ];
    for (start, d, expected) in cases {
        let mut s = Snake { body: vec![start], direction: d };
        let r = s.advance(None, cfg);
        assert_eq!(r.head, expected);
        assert!(r.boundary_violation);
    }
    let mut inside = Snake { body: vec![pos(2, 5)], direction: Direction::Left };
    assert!(!inside.advance(None, cfg).boundary_violation);
}

#[test]
fn boundary_ends_the_game() {
    let mut rng = rand::thread_rng();
    let mut g = Game {
        snake: Snake { body: vec![pos(1, 5), pos(2, 5), pos(3, 5), pos(4, 5), pos(5, 5)], direction: Direction::Left },
        food: Some(pos(8, 8)),
        config: bounded(20, 10),
        status: GameStatus::Playing,
    };
    let t = g.tick(None, &mut rng).unwrap();
    assert!(t.over);
    assert!(t.moved.boundary_violation);
    assert_eq!(g.status, GameStatus::Over);
    assert!(g.tick(None, &mut rng).is_none());
    assert_eq!(g.snake.body[0], pos(0, 5));
}

#[test]
fn moving_into_own_body_collides() {
    let mut s = Snake { body: vec![pos(5, 5), pos(5, 6), pos(5, 7)], direction: Direction::Down };
    let r = s.advance(None, bounded(20, 10));
    assert_eq!(r.head, pos(5, 6));
    assert!(r.self_collision);
    assert!(s.is_self_collision());
}

#[test]
fn self_collision_ends_the_game() {
    let mut rng = rand::thread_rng();
    let mut g = Game {
        snake: Snake {
            body: vec![pos(5, 5), pos(5, 6), pos(5, 7), pos(6, 7), pos(7, 7)],
            direction: Direction::Down,
        },
        food: Some(pos(1, 1)),
        config: bounded(20, 10),
        status: GameStatus::Playing,
    };
    let t = g.tick(None, &mut rng).unwrap();
    assert!(t.moved.self_collision);
    assert!(t.over);
    assert_eq!(g.status, GameStatus::Over);
}

#[test]
fn following_the_tail_is_no_collision() {
    let mut s = Snake { body: vec![pos(5, 5), pos(6, 5), pos(6, 6), pos(5, 6)], direction: Direction::Down };
    let r = s.advance(None, bounded(20, 10));
    assert_eq!(r.head, pos(5, 6));
    assert!(!r.self_collision);
}

#[test]
fn single_segment_never_collides() {
    for d in [Direction::Up, Direction::Down, Direction::Left, Direction::Right] {
        let mut s = Snake { body: vec![pos(5, 5)], direction: d };
        assert!(!s.advance(None, wrapping(20, 10)).self_collision);
        assert!(!s.is_self_collision());
    }
}

#[test]
fn eating_grows_by_one_and_moves_food() {
    let mut rng = rand::thread_rng();
    let mut g = Game { snake: line_snake(Direction::Up), food: Some(pos(9, 5)), config: bounded(20, 12), status: GameStatus::Playing };
    let before = g.snake.body.len();
    let t = g.tick(Some(Direction::Left), &mut rng).unwrap();
    assert!(t.ate);
    assert!(!t.over);
    assert_eq!(g.snake.body.len(), before + 1);
    assert_eq!(g.snake.body[0], pos(9, 5));
    assert_eq!(g.snake.body[before], g.snake.body[before - 1]);
    let food = g.food.unwrap();
    assert_ne!(food, pos(9, 5));
    assert!(!g.snake.body.contains(&food));
    assert!(food.x >= 1 && food.x < 19 && food.y >= 1 && food.y < 11);
    assert_eq!(g.score(), 1);
}

#[test]
fn no_food_keeps_length() {
    let mut rng = rand::thread_rng();
    let mut g = Game { snake: line_snake(Direction::Up), food: Some(pos(1, 1)), config: bounded(20, 12), status: GameStatus::Playing };
    for _ in 0..3 {
        let t = g.tick(None, &mut rng).unwrap();
        assert!(!t.ate);
        assert_eq!(g.snake.body.len(), INITIAL_LENGTH);
        assert_eq!(g.food, Some(pos(1, 1)));
    }
    assert_eq!(g.snake.body[0], pos(10, 2));
    assert_eq!(g.score(), 0);
}

#[test]
fn grown_snake_extends_on_next_move() {
    let mut s = Snake { body: vec![pos(5, 5), pos(5, 6)], direction: Direction::Up };
    s.grow();
    assert_eq!(s.body, vec![pos(5, 5), pos(5, 6), pos(5, 6)]);
    s.advance(None, bounded(20, 10));
    assert_eq!(s.body, vec![pos(5, 4), pos(5, 5), pos(5, 6)]);
}

#[test]
fn food_avoids_the_body() {
    let mut rng = rand::thread_rng();
    let cfg = bounded(6, 5);
    let s = Snake { body: vec![pos(1, 1), pos(2, 1), pos(3, 1), pos(4, 1), pos(1, 2), pos(2, 2), pos(3, 2)], direction: Direction::Up };
    for _ in 0..200 {
        let f = place_food(&s, cfg, &mut rng).unwrap();
        assert!(!s.body.contains(&f));
        assert!(f.x >= 1 && f.x <= 4 && f.y >= 1 && f.y <= 3);
    }
}

#[test]
fn food_takes_the_last_free_cell() {
    let mut rng = rand::thread_rng();
    let cfg = bounded(5, 4);
    let s = Snake { body: vec![pos(1, 1), pos(2, 1), pos(3, 1), pos(3, 2), pos(2, 2)], direction: Direction::Left };
    for _ in 0..20 {
        assert_eq!(place_food(&s, cfg, &mut rng), Some(pos(1, 2)));
    }
}

#[test]
fn no_food_on_a_full_board() {
    let mut rng = rand::thread_rng();
    let s = Snake { body: vec![pos(1, 1), pos(2, 1), pos(2, 2), pos(1, 2)], direction: Direction::Up };
    assert_eq!(place_food(&s, bounded(4, 4), &mut rng), None);
    assert_eq!(place_food(&s, bounded(2, 9), &mut rng), None);
}

#[test]
fn food_is_drawn_at_random() {
    let mut rng = rand::thread_rng();
    let s = Snake { body: vec![pos(1, 1)], direction: Direction::Up };
    let first = place_food(&s, bounded(40, 40), &mut rng).unwrap();
    let mut differs = false;
    for _ in 0..100 {
        if place_food(&s, bounded(40, 40), &mut rng).unwrap() != first {
            differs = true;
        }
    }
    assert!(differs);
}

#[test]
fn new_game_starts_centered_heading_up() {
    let mut rng = rand::thread_rng();
    let g = Game::new(bounded(20, 16), &mut rng);
    assert_eq!(g.snake.body, vec![pos(10, 8), pos(10, 9), pos(10, 10), pos(10, 11), pos(10, 12)]);
    assert_eq!(g.snake.direction, Direction::Up);
    assert_eq!(g.status, GameStatus::Playing);
    assert_eq!(g.score(), 0);
    let f = g.food.unwrap();
    assert!(!g.snake.body.contains(&f));
}

#[test]
fn grid_contains_and_boundary() {
    let cfg = bounded(20, 10);
    assert!(cfg.contains(pos(19, 9)));
    assert!(!cfg.contains(pos(20, 9)));
    assert!(!cfg.contains(pos(3, 10)));
    assert!(cfg.on_boundary(pos(0, 4)));
    assert!(cfg.on_boundary(pos(4, 9)));
    assert!(!cfg.on_boundary(pos(18, 8)));
    assert_eq!(cfg.wrap(pos(0, 0), Direction::Up), pos(0, 9));
    assert_eq!(cfg.step(pos(0, 0), Direction::Up), pos(0, 0));
    assert_eq!(cfg.step(pos(65535, 0), Direction::Right), pos(65535, 0));
}

#[test]
fn keys_map_to_commands() {
    assert_eq!(command_for_key(Key::Up, false), Command::Turn(Direction::Up));
    assert_eq!(command_for_key(Key::Right, false), Command::Turn(Direction::Right));
    assert_eq!(command_for_key(Key::Char('q'), false), Command::Quit);
    assert_eq!(command_for_key(Key::Char('k'), false), Command::Ignore);
    assert_eq!(command_for_key(Key::Char('k'), true), Command::Turn(Direction::Up));
    assert_eq!(command_for_key(Key::Char('j'), true), Command::Turn(Direction::Down));
    assert_eq!(command_for_key(Key::Char('h'), true), Command::Turn(Direction::Left));
    assert_eq!(command_for_key(Key::Char('l'), true), Command::Turn(Direction::Right));
    assert_eq!(command_for_key(Key::Char('x'), true), Command::Ignore);
    assert_eq!(command_for_key(Key::Other, true), Command::Ignore);
}

#[test]
fn menu_choices() {
    assert_eq!(welcome_choice(Key::Char('0')), WelcomeAction::Start);
    assert_eq!(welcome_choice(Key::Char('1')), WelcomeAction::Options);
    assert_eq!(welcome_choice(Key::Char('2')), WelcomeAction::Quit);
    assert_eq!(welcome_choice(Key::Up), WelcomeAction::Stay);
    let mut s = Settings::default();
    assert_eq!(s, Settings { vim_mode: false, no_wall_mode: false });
    assert_eq!(s.options_choice(Key::Char('0')), OptionsAction::Stay);
    assert!(s.vim_mode && !s.no_wall_mode);
    assert_eq!(s.options_choice(Key::Char('1')), OptionsAction::Stay);
    assert!(s.vim_mode && s.no_wall_mode);
    assert_eq!(s.options_choice(Key::Char('0')), OptionsAction::Stay);
    assert!(!s.vim_mode);
    assert_eq!(s.options_choice(Key::Char('9')), OptionsAction::Stay);
    assert_eq!(s.options_choice(Key::Char('2')), OptionsAction::Back);
    assert_eq!(s, Settings { vim_mode: false, no_wall_mode: true });
    assert_eq!(s.grid_for_terminal(83, 41), GridConfig { width: 20, height: 20, wrap: true });
}
