use snake_game::model::BodyProperties;
use snake_game::model::Direction;
use snake_game::model::Field;
use snake_game::model::Snake;
use snake_game::model::field::generate_obstacles;

fn segment(x: u32, y: u32, direction: Direction) -> BodyProperties {
    BodyProperties { position: (x, y), direction }
}

#[test]
fn spawn_places_head_and_tail() {
    let snake = Snake::add_to_field_at_start(7, 10);
    assert_eq!(snake.body.len(), 2);
    assert_eq!(snake.body[0].position, (7, 10));
    assert_eq!(snake.body[1].position, (6, 10));
    assert_eq!(snake.body[0].direction, Direction::LEFT);
    assert_eq!(snake.body[1].direction, Direction::LEFT);
}

#[test]
fn turn_on_same_axis_is_refused() {
    let mut snake = Snake::add_to_field_at_start(7, 10);
    snake.set_direction(Direction::RIGHT);
    assert_eq!(snake.body[0].direction, Direction::LEFT);
    snake.set_direction(Direction::LEFT);
    assert_eq!(snake.body[0].direction, Direction::LEFT);
    snake.set_direction(Direction::UP);
    assert_eq!(snake.body[0].direction, Direction::UP);
    snake.set_direction(Direction::DOWN);
    assert_eq!(snake.body[0].direction, Direction::UP);
    snake.set_direction(Direction::RIGHT);
    assert_eq!(snake.body[0].direction, Direction::RIGHT);
}

#[test]
fn turn_keeps_positions() {
    let mut snake = Snake::add_to_field_at_start(7, 10);
    snake.set_direction(Direction::UP);
    assert_eq!(snake.body[0].position, (7, 10));
    assert_eq!(snake.body[1].position, (6, 10));
}

#[test]
fn advance_moves_head_and_shifts_tail() {
    let mut snake = Snake::add_to_field_at_start(7, 10);
    snake.move_snake(21, 21);
    assert_eq!(snake.body[0].position, (8, 10));
    assert_eq!(snake.body[1].position, (7, 10));
}

#[test]
fn advance_wraps_at_every_edge() {
    // LEFT advances x and wraps past the right edge
    let mut snake = Snake {
        body: vec![segment(20, 5, Direction::LEFT), segment(19, 5, Direction::LEFT)],
    };
    snake.move_snake(21, 21);
    assert_eq!(snake.body[0].position, (0, 5));

    // RIGHT moves towards 0 and wraps past it
    let mut snake = Snake {
        body: vec![segment(0, 5, Direction::RIGHT), segment(1, 5, Direction::RIGHT)],
    };
    snake.move_snake(21, 21);
    assert_eq!(snake.body[0].position, (20, 5));

    // UP moves towards 0 and wraps past it
    let mut snake = Snake {
        body: vec![segment(4, 0, Direction::UP), segment(4, 1, Direction::UP)],
    };
    snake.move_snake(21, 21);
    assert_eq!(snake.body[0].position, (4, 20));

    // DOWN advances y and wraps past the bottom edge
    let mut snake = Snake {
        body: vec![segment(4, 20, Direction::DOWN), segment(4, 19, Direction::DOWN)],
    };
    snake.move_snake(21, 21);
    assert_eq!(snake.body[0].position, (4, 0));

    for s in snake.body.iter() {
        assert!(s.position.0 < 21 && s.position.1 < 21);
    }
}

#[test]
fn grow_appends_exactly_one_segment() {
    let mut snake = Snake::add_to_field_at_start(5, 5);
    let before: Vec<(u32, u32)> = snake.body.iter().map(|s| s.position).collect();
    snake.grow_snake(21, 21);
    assert_eq!(snake.body.len(), 3);
    for (i, p) in before.iter().enumerate() {
        assert_eq!(snake.body[i].position, *p);
    }
    assert_eq!(snake.body[2].position, (3, 5));
    assert_eq!(snake.body[2].direction, Direction::LEFT);
}

#[test]
fn grow_wraps_behind_the_edge() {
    let mut snake = Snake {
        body: vec![segment(1, 5, Direction::LEFT), segment(0, 5, Direction::LEFT)],
    };
    snake.grow_snake(21, 21);
    assert_eq!(snake.body.len(), 3);
    assert_eq!(snake.body[2].position, (20, 5));
}

#[test]
fn field_new_holds_defaults() {
    let field = Field::new();
    assert_eq!(field.size, (21, 21));
    assert!(field.obstacles.is_none());
}

#[test]
fn field_without_border_or_obstacles_has_no_obstacle_vector() {
    let field = Field::from((21, 21), false, false, 0);
    assert!(field.obstacles.is_none());
}

#[test]
fn field_with_border_lists_every_perimeter_cell() {
    let field = Field::from((6, 5), true, false, 0);
    let cells = field.obstacles.as_ref().expect("border cells expected");
    assert_eq!(cells.len(), 2 * 6 + 2 * 5);
    for k in 0..6u32 {
        assert_eq!(cells[(2 * k) as usize], (k, 0));
        assert_eq!(cells[(2 * k + 1) as usize], (k, 4));
    }
    for k in 0..5u32 {
        assert_eq!(cells[(12 + 2 * k) as usize], (0, k));
        assert_eq!(cells[(12 + 2 * k + 1) as usize], (5, k));
    }
}

#[test]
fn random_obstacles_stay_interior_and_off_center() {
    let obstacles = generate_obstacles((12, 9), 40, false);
    assert_eq!(obstacles.len(), 40);
    for &(x, y) in obstacles.iter() {
        assert!(x >= 1 && x < 11, "x out of interior: {x}");
        assert!(y >= 1 && y < 8, "y out of interior: {y}");
        assert_ne!(x, 6);
        assert_ne!(y, 4);
    }
}

#[test]
fn obstacles_and_border_can_combine() {
    let field = Field::from((8, 8), true, true, 5);
    let cells = field.obstacles.as_ref().expect("obstacle cells expected");
    assert_eq!(cells.len(), 5 + 2 * 8 + 2 * 8);
    for &(x, y) in cells[..5].iter() {
        assert!(x >= 1 && x < 7 && y >= 1 && y < 7);
        assert_ne!(x, 4);
        assert_ne!(y, 4);
    }
    for &(x, y) in cells[5..].iter() {
        assert!(x == 0 || x == 7 || y == 0 || y == 7);
    }
}
