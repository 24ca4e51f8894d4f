pub mod board;
pub mod game;
mod rng;
pub mod snake;

pub use board::Board;
pub use board::Entity;
pub use game::Game;
pub use snake::Direction;
pub use snake::Snake;
