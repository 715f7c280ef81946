pub mod current_player_hand;

pub use current_player_hand::{
    next_card_index, previous_card_index, toggle_selection_bounded, AvailablePlayerCard,
    CardSelectionState, CurrentPlayerHand,
};
