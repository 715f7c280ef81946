pub mod entities;
pub mod errors;
pub mod game_management;
pub mod player;
pub mod rendering;
pub mod test_utils;
