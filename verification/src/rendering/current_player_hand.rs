use vstd::prelude::*;

use crate::entities::base_cards::Card;
use crate::player::player_hand::PlayerHand;

verus! {

/// Whether a card in the player's hand strip is picked for this turn.
#[derive(Clone, Copy, Debug, PartialEq, Eq, Structural)]
pub enum CardSelectionState {
    Selected,
    NotSelected,
}

impl CardSelectionState {
    pub open spec fn spec_toggled(self) -> Self {
        match self {
            CardSelectionState::Selected => CardSelectionState::NotSelected,
            CardSelectionState::NotSelected => CardSelectionState::Selected,
        }
    }

    fn toggle(&self) -> (r: Self)
        ensures
            r == self.spec_toggled(),
    {
        match self {
            CardSelectionState::Selected => CardSelectionState::NotSelected,
            CardSelectionState::NotSelected => CardSelectionState::Selected,
        }
    }
}

/// One unplayed card as the hand strip shows it: the card itself, borrowed
/// from the hand, and whether it is picked.
#[derive(Clone, Copy)]
pub struct AvailablePlayerCard<'a> {
    pub card: &'a Card,
    pub is_selected: CardSelectionState,
}

/// The active player's unplayed cards with their selection states, in hand
/// order.
pub struct CurrentPlayerHand<'a> {
    pub cards: Vec<AvailablePlayerCard<'a>>,
}

impl CurrentPlayerHand<'_> {
    fn convert_to_available_cards(cards: &Vec<Card>) -> (r: Vec<AvailablePlayerCard<'_>>)
        ensures
            r@.len() == cards@.len(),
            forall|i: int|
                0 <= i < r@.len() ==> {
                    &&& *(#[trigger] r@[i]).card == cards@[i]
                    &&& r@[i].is_selected == CardSelectionState::NotSelected
                },
    {
        let mut available_cards: Vec<AvailablePlayerCard<'_>> = Vec::new();
        let mut i: usize = 0;
        while i < cards.len()
            invariant
                i <= cards@.len(),
                available_cards@.len() == i,
                forall|j: int|
                    0 <= j < i ==> {
                        &&& *(#[trigger] available_cards@[j]).card == cards@[j]
                        &&& available_cards@[j].is_selected == CardSelectionState::NotSelected
                    },
            decreases cards@.len() - i,
    {
            available_cards.push(
                AvailablePlayerCard {
                    card: &cards[i],
                    is_selected: CardSelectionState::NotSelected,
                },
            );
            i = i + 1;
        }
        available_cards
    }

    /// A fresh view of the hand's unplayed cards, none of them selected.
    pub fn from_player_hand(player_hand: &PlayerHand) -> (r: CurrentPlayerHand<'_>)
        ensures
            r.cards@.len() == player_hand.inactive_cards@.len(),
            forall|i: int|
                0 <= i < r.cards@.len() ==> {
                    &&& *(#[trigger] r.cards@[i]).card == player_hand.inactive_cards@[i]
                    &&& r.cards@[i].is_selected == CardSelectionState::NotSelected
                },
    {
        CurrentPlayerHand {
            cards: Self::convert_to_available_cards(&player_hand.inactive_cards),
        }
    }

    /// Flips the selection state of the card at the given position; out of
    /// range, nothing changes.
    pub fn toggle_card_state(&mut self, card_index: usize)
        ensures
            final(self).cards@.len() == old(self).cards@.len(),
            card_index < old(self).cards@.len() ==> {
                &&& final(self).cards@[card_index as int].card == old(
                    self,
                ).cards@[card_index as int].card
                &&& final(self).cards@[card_index as int].is_selected == old(
                    self,
                ).cards@[card_index as int].is_selected.spec_toggled()
                &&& forall|i: int|
                    0 <= i < old(self).cards@.len() && i != card_index
                        ==> final(self).cards@[i] == #[trigger] old(self).cards@[i]
            },
            card_index >= old(self).cards@.len() ==> *final(self) == *old(self),
    {
        if card_index < self.cards.len() {
            let mut entry = self.cards[card_index];
            entry.is_selected = entry.is_selected.toggle();
            self.cards[card_index] = entry;
        }
    }
}

/// The position the selection cursor moves to on a step forward: one to the
/// right, wrapping from the last card to the first.
pub fn next_card_index(current: usize, num_cards: usize) -> (r: usize)
    requires
        num_cards > 0,
        current < num_cards,
    ensures
        r == if current == num_cards - 1 {
            0int
        } else {
            current + 1
        },
        r < num_cards,
{
    if current == num_cards - 1 {
        0
    } else {
        current + 1
    }
}

/// The position the selection cursor moves to on a step back: one to the
/// left, wrapping from the first card to the last.
pub fn previous_card_index(current: usize, num_cards: usize) -> (r: usize)
    requires
        num_cards > 0,
        current < num_cards,
    ensures
        r == if current == 0 {
            num_cards - 1
        } else {
            current - 1
        },
        r < num_cards,
{
    if current == 0 {
        num_cards - 1
    } else {
        current - 1
    }
}

/// How many entries are selected.
pub open spec fn spec_count_selected(s: Seq<CardSelectionState>) -> int {
    s.filter(|c: CardSelectionState| c == CardSelectionState::Selected).len() as int
}

/// The per-turn play limit, enforced at selection time: picking a card is
/// refused once the allowance is reached, while unpicking always works.
pub fn toggle_selection_bounded(
    selected: &mut Vec<CardSelectionState>,
    card_index: usize,
    allowance: u8,
)
    requires
        card_index < old(selected)@.len(),
    ensures
        old(selected)@[card_index as int] == CardSelectionState::Selected ==> final(selected)@
            == old(selected)@.update(card_index as int, CardSelectionState::NotSelected),
        old(selected)@[card_index as int] == CardSelectionState::NotSelected ==> {
            &&& spec_count_selected(old(selected)@) < allowance ==> final(selected)@ == old(
                selected,
            )@.update(card_index as int, CardSelectionState::Selected)
            &&& spec_count_selected(old(selected)@) >= allowance ==> final(selected)@ == old(
                selected,
            )@
        },
{
    let mut selected_count: usize = 0;
    let ghost s0 = selected@;
    let mut i: usize = 0;
    proof {
        assert(s0.take(0) =~= Seq::<CardSelectionState>::empty());
        assert(spec_count_selected(Seq::<CardSelectionState>::empty()) == 0) by {
            reveal(Seq::filter);
        }
    }
    while i < selected.len()
        invariant
            i <= s0.len(),
            selected@ == s0,
            selected_count == spec_count_selected(s0.take(i as int)),
            selected_count <= i,
        decreases s0.len() - i,
    {
        proof {
            lemma_count_selected_take_step(s0, i as int);
        }
        if selected[i] == CardSelectionState::Selected {
            selected_count = selected_count + 1;
        }
        i = i + 1;
    }
    proof {
        assert(s0.take(s0.len() as int) =~= s0);
    }
    if selected[card_index] == CardSelectionState::Selected {
        selected[card_index] = CardSelectionState::NotSelected;
        proof {
            assert(selected@ =~= s0.update(card_index as int, CardSelectionState::NotSelected));
        }
    } else if selected_count < allowance as usize {
        selected[card_index] = CardSelectionState::Selected;
        proof {
            assert(selected@ =~= s0.update(card_index as int, CardSelectionState::Selected));
        }
    }
}

/// Extending a prefix by one entry raises its selected-count exactly when
/// the entry is selected.
proof fn lemma_count_selected_take_step(s: Seq<CardSelectionState>, i: int)
    requires
        0 <= i < s.len(),
    ensures
        spec_count_selected(s.take(i + 1)) == spec_count_selected(s.take(i)) + if s[i]
            == CardSelectionState::Selected {
            1int
        } else {
            0int
        },
{
    reveal(Seq::filter);
    assert(s.take(i + 1).drop_last() =~= s.take(i));
    assert(s.take(i + 1).last() == s[i]);
}

} // verus!
