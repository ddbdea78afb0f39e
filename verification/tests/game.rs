use snake::game::{create_game, Cell, Direction, GameState, Position, BOARD_CELLS, BOARD_HEIGHT, BOARD_WIDTH};

fn occupied_by_snake(g: &GameState, p: Position) -> bool {
    g.head == p || g.tail.iter().any(|s| *s == p)
}

#[test]
fn fresh_game_starts_clean() {
    let g = create_game();
    assert_eq!(g.score, 0);
    assert!(!g.game_over);
    assert_eq!(g.tail.len(), 3);
    assert_eq!(g.head, Position { x: 20, y: 20 });
    for s in &g.tail {
        assert_eq!(*s, Position { x: 20, y: 20 });
    }
    assert!(matches!(g.direction, Direction::Right));
    assert!(matches!(g.last_direction, Direction::Left));
    assert!(g.food.x < BOARD_WIDTH && g.food.y < BOARD_HEIGHT);
    assert!(!occupied_by_snake(&g, g.food));
    assert_eq!(g.board.len(), BOARD_CELLS);
}

#[test]
fn restart_after_game_over_resets_everything() {
    let mut g = create_game();
    g.head = Position { x: 5, y: 5 };
    g.tail = vec![
        Position { x: 6, y: 5 },
        Position { x: 6, y: 6 },
        Position { x: 5, y: 6 },
    ];
    g.direction = Direction::Right;
    g.last_direction = Direction::Down;
    g.food = Position { x: 0, y: 0 };
    g.score = 7;
    g.advance();
    assert!(g.game_over);

    let fresh = create_game();
    assert_eq!(fresh.score, 0);
    assert_eq!(fresh.tail.len(), 3);
    assert!(!fresh.game_over);
    assert!(!occupied_by_snake(&fresh, fresh.food));
}

#[test]
fn wrap_around_right_edge() {
    let mut g = create_game();
    g.head = Position { x: 39, y: 5 };
    g.tail = vec![Position { x: 38, y: 5 }];
    g.direction = Direction::Right;
    g.last_direction = Direction::Right;
    g.food = Position { x: 10, y: 10 };
    g.advance();
    assert_eq!(g.head, Position { x: 0, y: 5 });
    assert!(!g.game_over);
}

#[test]
fn wrap_around_other_edges() {
    for (start, dir, expect) in [
        (Position { x: 0, y: 7 }, Direction::Left, Position { x: 39, y: 7 }),
        (Position { x: 3, y: 0 }, Direction::Up, Position { x: 3, y: 39 }),
        (Position { x: 3, y: 39 }, Direction::Down, Position { x: 3, y: 0 }),
    ] {
        let mut g = create_game();
        g.head = start;
        g.tail = vec![start];
        g.direction = dir;
        g.last_direction = dir;
        g.food = Position { x: 10, y: 10 };
        g.advance();
        assert_eq!(g.head, expect);
        assert!(g.head.x < BOARD_WIDTH && g.head.y < BOARD_HEIGHT);
    }
}

#[test]
fn head_stays_on_board_over_many_ticks() {
    let mut g = create_game();
    let dirs = [Direction::Right, Direction::Down, Direction::Left, Direction::Up];
    for i in 0..200 {
        g.set_direction(dirs[(i / 3) % 4]);
        if g.game_over {
            break;
        }
        g.advance();
        assert!(g.head.x < BOARD_WIDTH && g.head.y < BOARD_HEIGHT);
    }
}

#[test]
fn tail_grows_exactly_on_food_ticks() {
    let mut g = create_game();
    g.head = Position { x: 10, y: 10 };
    g.tail = vec![Position { x: 9, y: 10 }, Position { x: 8, y: 10 }];
    g.direction = Direction::Right;
    g.last_direction = Direction::Right;
    g.food = Position { x: 12, y: 10 };

    g.advance();
    assert_eq!(g.tail.len(), 2);
    assert_eq!(g.score, 0);

    g.advance();
    assert_eq!(g.head, Position { x: 12, y: 10 });
    assert_eq!(g.tail.len(), 3);
    assert_eq!(g.score, 1);

    if !occupied_by_snake(&g, g.food) {
        let d = g.food;
        // Steer nowhere near the food: growth must not happen again without it.
        if d != (Position { x: 13, y: 10 }) {
            g.advance();
            assert_eq!(g.tail.len(), 3);
            assert_eq!(g.score, 1);
        }
    }
}

#[test]
fn grown_segment_duplicates_tip_for_one_tick() {
    let mut g = create_game();
    g.head = Position { x: 39, y: 5 };
    g.tail = vec![Position { x: 38, y: 5 }];
    g.direction = Direction::Right;
    g.last_direction = Direction::Right;
    g.food = Position { x: 0, y: 5 };
    g.advance();
    assert_eq!(g.head, Position { x: 0, y: 5 });
    assert_eq!(g.score, 1);
    assert_eq!(g.tail, vec![Position { x: 39, y: 5 }, Position { x: 38, y: 5 }]);
}

#[test]
fn score_counts_consumption_events() {
    let mut g = create_game();
    g.head = Position { x: 0, y: 0 };
    g.tail = vec![Position { x: 39, y: 0 }];
    g.direction = Direction::Right;
    g.last_direction = Direction::Right;
    let mut eaten = 0;
    for step in 1..=5 {
        g.food = Position { x: step, y: 0 };
        g.advance();
        eaten += 1;
        assert_eq!(g.score, eaten);
        assert!(!g.game_over);
    }
}

#[test]
fn reverse_input_is_ignored() {
    let mut g = create_game();
    g.last_direction = Direction::Right;
    g.direction = Direction::Right;
    g.set_direction(Direction::Left);
    assert!(matches!(g.direction, Direction::Right));
    g.set_direction(Direction::Up);
    assert!(matches!(g.direction, Direction::Up));
}

#[test]
fn reverse_checked_against_committed_direction() {
    let mut g = create_game();
    g.last_direction = Direction::Up;
    g.direction = Direction::Up;
    g.set_direction(Direction::Up);
    assert!(matches!(g.direction, Direction::Up));
    // Still blocked: the last committed move was Up, whatever was pressed since.
    g.set_direction(Direction::Down);
    assert!(matches!(g.direction, Direction::Up));
}

#[test]
fn set_direction_changes_nothing_else() {
    let mut g = create_game();
    let head = g.head;
    let tail = g.tail.clone();
    let food = g.food;
    let score = g.score;
    g.set_direction(Direction::Up);
    assert_eq!(g.head, head);
    assert_eq!(g.tail, tail);
    assert_eq!(g.food, food);
    assert_eq!(g.score, score);
    assert!(!g.game_over);
    assert!(matches!(g.last_direction, Direction::Left));
}

#[test]
fn self_collision_sets_game_over() {
    let mut g = create_game();
    // Snake coiled so the head's next cell lands on a shifted tail segment.
    g.head = Position { x: 5, y: 5 };
    g.tail = vec![
        Position { x: 6, y: 5 },
        Position { x: 6, y: 6 },
        Position { x: 5, y: 6 },
    ];
    g.direction = Direction::Right;
    g.last_direction = Direction::Down;
    g.food = Position { x: 0, y: 0 };
    g.advance();
    assert!(g.game_over);
    assert_eq!(g.head, Position { x: 6, y: 5 });
    // The tick still completed its state update before reporting game over.
    assert_eq!(
        g.tail,
        vec![
            Position { x: 5, y: 5 },
            Position { x: 6, y: 5 },
            Position { x: 6, y: 6 },
        ]
    );
    assert_eq!(g.board.len(), BOARD_CELLS);
}

#[test]
fn plain_move_does_not_set_game_over() {
    let mut g = create_game();
    g.food = Position { x: 0, y: 0 };
    if g.head == g.food {
        g.food = Position { x: 1, y: 0 };
    }
    g.advance();
    assert!(!g.game_over);
}

#[test]
fn spawned_food_avoids_snake_cells() {
    let mut g = create_game();
    g.head = Position { x: 2, y: 3 };
    g.tail = vec![
        Position { x: 1, y: 3 },
        Position { x: 0, y: 3 },
        Position { x: 0, y: 2 },
    ];
    for _ in 0..50 {
        let p = g.spawn_food();
        assert!(p.x < BOARD_WIDTH && p.y < BOARD_HEIGHT);
        assert!(!occupied_by_snake(&g, p));
    }
}

#[test]
fn spawned_food_avoids_a_nearly_full_row() {
    let mut g = create_game();
    // Occupy all of row 0 except one cell, plus the head elsewhere.
    g.head = Position { x: 0, y: 1 };
    g.tail = (0..39).map(|x| Position { x, y: 0 }).collect();
    for _ in 0..20 {
        let p = g.spawn_food();
        assert!(!occupied_by_snake(&g, p));
    }
}

#[test]
fn board_reflects_snake_and_food() {
    let mut g = create_game();
    g.head = Position { x: 10, y: 10 };
    g.tail = vec![Position { x: 9, y: 10 }, Position { x: 8, y: 10 }];
    g.direction = Direction::Right;
    g.last_direction = Direction::Right;
    g.food = Position { x: 20, y: 5 };
    g.advance();
    // Head moved to (11, 10); the vacated cell joins the body.
    assert_eq!(g.board[10 * BOARD_WIDTH + 11], Cell::Head);
    assert_eq!(g.board[10 * BOARD_WIDTH + 10], Cell::Body);
    assert_eq!(g.board[10 * BOARD_WIDTH + 9], Cell::Body);
    assert_eq!(g.board[5 * BOARD_WIDTH + 20], Cell::Food);
    assert_eq!(g.board[10 * BOARD_WIDTH + 8], Cell::Empty);
    assert_eq!(g.board[0], Cell::Empty);
    assert_eq!(
        g.board_cell(Position { x: 11, y: 10 }),
        Cell::Head
    );
}
