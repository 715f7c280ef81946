pub mod game_board;
pub mod helper_functions;

pub use game_board::{BoardModel, GameBoard, GameConfig, GamePhase, PlayerModel};
