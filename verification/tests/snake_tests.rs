use snake_engine::Direction;
use snake_engine::Snake;

/// trying to the right in the same direction.
#[test]
fn test_snake_move_snake() {
    let mut snake_body: Vec<(u8, u8)> = Vec::new();
    // placing snake
    snake_body.push((2 as u8, 0 as u8));
    snake_body.push((1 as u8, 0 as u8));
    snake_body.push((0 as u8, 0 as u8));

    let mut snake = Snake { body: snake_body };
    let current_direction = Direction::Right;
    let (new_pos, old_pos) = snake
        .move_snake(current_direction, Direction::Right)
        .unwrap();
    assert_eq!(new_pos, (3, 0));
    assert_eq!(old_pos, (0, 0));
}

/// trying to move 180 degrees. Should continue straight
#[test]
fn test_snake_move_snake2() {
    let mut snake_body: Vec<(u8, u8)> = Vec::new();
    // placing snake
    snake_body.push((2 as u8, 0 as u8));
    snake_body.push((1 as u8, 0 as u8));
    snake_body.push((0 as u8, 0 as u8));

    let mut snake = Snake { body: snake_body };
    let current_direction = Direction::Right;
    let (new_pos, old_pos) = snake
        .move_snake(current_direction, Direction::Left)
        .unwrap();
    assert_eq!(new_pos, (3, 0));
    assert_eq!(old_pos, (0, 0));
}

/// trying to move down
#[test]
fn test_snake_move_snake3() {
    let mut snake_body: Vec<(u8, u8)> = Vec::new();
    // placing snake
    snake_body.push((2 as u8, 0 as u8));
    snake_body.push((1 as u8, 0 as u8));
    snake_body.push((0 as u8, 0 as u8));

    let mut snake = Snake { body: snake_body };
    let current_direction = Direction::Right;
    let (new_pos, old_pos) = snake
        .move_snake(current_direction, Direction::Down)
        .unwrap();
    assert_eq!(new_pos, (2, 1));
    assert_eq!(old_pos, (0, 0));
}

/// trying to move up into wall
#[test]
fn test_snake_move_snake4() {
    let mut snake_body: Vec<(u8, u8)> = Vec::new();
    // placing snake
    snake_body.push((2 as u8, 0 as u8));
    snake_body.push((1 as u8, 0 as u8));
    snake_body.push((0 as u8, 0 as u8));

    let mut snake = Snake { body: snake_body };
    let current_direction = Direction::Right;
    assert_eq!(
        true,
        snake.move_snake(current_direction, Direction::Up).is_err()
    );
}
