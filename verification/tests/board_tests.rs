use snake_engine::Board;
use snake_engine::Entity;

#[test]
fn test_board_new() {
    let w: u8 = 10;
    let h: u8 = 10;
    let b: Vec<Entity> = (0..w * h).map(|_| Entity::Empty).collect();
    let board = Board {
        width: w,
        height: h,
        board: b,
    };
    let _ = board;
}

#[test]
fn test_board_place_random_food() {
    let w: u8 = 10;
    let h: u8 = 10;
    let b: Vec<Entity> = (0..w * h).map(|_| Entity::Empty).collect();
    let mut board = Board {
        width: w,
        height: h,
        board: b,
    };
    board.place_random_food();

    let mut found_food = false;
    for pos in board.board.iter() {
        match pos {
            Entity::Food => {
                // checking if place_random_food() placed more than one food
                found_food = true ^ found_food;
            }
            _ => (),
        }
    }
    assert_eq!(true, found_food);
}

#[test]
fn test_board_get_index() {
    let w: u8 = 10;
    let h: u8 = 10;
    let b: Vec<Entity> = (0..w * h).map(|_| Entity::Empty).collect();
    let board = Board {
        width: w,
        height: h,
        board: b,
    };

    assert_eq!(55, board.get_index(5, 5));
}

#[test]
fn test_board_get_index2() {
    let w: u8 = 10;
    let h: u8 = 10;
    let b: Vec<Entity> = (0..w * h).map(|_| Entity::Empty).collect();
    let board = Board {
        width: w,
        height: h,
        board: b,
    };

    let idx = board.get_index(5, 11);
    assert_eq!(idx, -1);
}

#[test]
fn test_board_get_entity_at() {
    let w: u8 = 10;
    let h: u8 = 10;
    let b: Vec<Entity> = (0..w * h).map(|_| Entity::Empty).collect();
    let mut board = Board {
        width: w,
        height: h,
        board: b,
    };

    assert_eq!(board.get_entity_at(0, 0), Some(Entity::Empty));
    board.board[12] = Entity::Snake;
    println!("BOARD\n{:?}\n------", board.board);
    assert_eq!(board.get_entity_at(2, 1), Some(Entity::Snake));
    let e = board.get_entity_at(15, 20);
    assert_eq!(e, None);
}
