pub mod player_hand;
pub mod remaining_deck;

pub use player_hand::{HandModel, PlayerHand};
pub use remaining_deck::RemainingDeck;
