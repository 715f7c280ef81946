use vstd::prelude::*;

use crate::entities::base_cards::{card_models, Card, CardModel, Philosopher};
use crate::entities::in_play_philosopher::{CombatantModel, InPlayPhilosopher};
use crate::errors::GameError;

verus! {

/// A player's hand as a mathematical value: the combatant currently in play
/// (template plus combat state), the unplayed cards in order, and the hand
/// capacity.
#[verifier::ext_equal]
pub ghost struct HandModel {
    pub active: Option<(Philosopher, CombatantModel)>,
    pub inactive: Seq<CardModel>,
    pub capacity: u8,
}

impl HandModel {
    /// How many more cards fit: capacity minus held cards, floored at 0.
    pub open spec fn available_slots(self) -> u8 {
        if self.inactive.len() >= self.capacity {
            0u8
        } else {
            (self.capacity - self.inactive.len()) as u8
        }
    }

    /// The hand after demoting any active combatant: it is wrapped back into
    /// the unplayed collection as an in-play card, keeping its accumulated
    /// damage and effects.
    pub open spec fn benched(self) -> HandModel {
        match self.active {
            Some(ac) => HandModel {
                active: None,
                inactive: self.inactive.push(CardModel::InPlay(ac.0, ac.1)),
                ..self
            },
            None => self,
        }
    }

    /// Whether `play` accepts this card: anything but an action card.
    pub open spec fn playable_as_philosopher(card: CardModel) -> bool {
        !(card is Action)
    }

    /// The hand after a philosopher card is played: the previous combatant is
    /// benched, and the card becomes the new active combatant — a template
    /// freshly bound, an in-play philosopher moved in as-is.
    pub open spec fn played(self, card: CardModel) -> HandModel
        recommends
            HandModel::playable_as_philosopher(card),
    {
        match card {
            CardModel::Philosopher(t) => HandModel {
                active: Some((t, CombatantModel::fresh(t))),
                ..self.benched()
            },
            CardModel::InPlay(t, cm) => HandModel { active: Some((t, cm)), ..self.benched() },
            CardModel::Action(_) => self,
        }
    }
}

/// The combatant currently in play plus the capacity-bounded collection of
/// not-yet-played cards.
#[derive(Debug)]
pub struct PlayerHand {
    pub active_philosopher: Option<InPlayPhilosopher>,
    pub inactive_cards: Vec<Card>,
    pub max_cards_in_hand: u8,
}

impl PlayerHand {
    pub open spec fn model(self) -> HandModel {
        HandModel {
            active: match self.active_philosopher {
                Some(p) => Some((p.philosopher, p.model())),
                None => None,
            },
            inactive: card_models(self.inactive_cards@),
            capacity: self.max_cards_in_hand,
        }
    }

    /// Appends the cards to the unplayed collection, in order. Capacity is
    /// not checked here: it is enforced by the caller's draw-amount
    /// calculation, so this operation never rejects cards.
    pub fn add_cards_to_hand(&mut self, cards: Vec<Card>) -> (r: Result<(), GameError>)
        ensures
            r == Ok::<(), GameError>(()),
            final(self).model() == (HandModel {
                inactive: old(self).model().inactive + card_models(cards@),
                ..old(self).model()
            }),
            *final(self) == (PlayerHand {
                inactive_cards: final(self).inactive_cards,
                ..*old(self)
            }),
            final(self).inactive_cards@ == old(self).inactive_cards@ + cards@,
    {
        let mut cards = cards;
        let ghost cards0 = cards@;
        self.inactive_cards.append(&mut cards);
        proof {
            assert(card_models(old(self).inactive_cards@ + cards0) =~= card_models(
                old(self).inactive_cards@,
            ) + card_models(cards0));
            assert(self.model() =~= (HandModel {
                inactive: old(self).model().inactive + card_models(cards0),
                ..old(self).model()
            }));
        }
        Ok(())
    }

    /// Demotes the active combatant, if any, into the unplayed collection.
    fn bench_active(&mut self)
        ensures
            final(self).model() == old(self).model().benched(),
    {
        if let Some(active) = self.active_philosopher.take() {
            self.inactive_cards.push(Card::InPlayPhilosopher(active));
        }
        proof {
            assert(self.model() =~= old(self).model().benched());
        }
    }

    /// Makes the given card the active combatant, benching any current one.
    /// An action card is refused, leaving the hand unchanged.
    pub fn play_philosopher(&mut self, philosopher_card: Card) -> (r: Result<(), GameError>)
        ensures
            HandModel::playable_as_philosopher(philosopher_card.model()) ==> {
                &&& r == Ok::<(), GameError>(())
                &&& final(self).model() == old(self).model().played(philosopher_card.model())
            },
            !HandModel::playable_as_philosopher(philosopher_card.model()) ==> {
                &&& r == Err::<(), GameError>(GameError::WrongCardKind)
                &&& *final(self) == *old(self)
            },
    {
        let ghost card_model = philosopher_card.model();
        match philosopher_card {
            Card::Philosopher(philosopher) => {
                self.bench_active();
                self.active_philosopher = Some(InPlayPhilosopher::new(philosopher));
                proof {
                    assert(self.model() =~= old(self).model().played(card_model));
                }
                Ok(())
            }
            Card::InPlayPhilosopher(in_play_philos) => {
                self.bench_active();
                self.active_philosopher = Some(in_play_philos);
                proof {
                    assert(self.model() =~= old(self).model().played(card_model));
                }
                Ok(())
            }
            Card::Action(_) => Err(GameError::WrongCardKind),
        }
    }

    /// How many more cards fit in the hand before it reaches its capacity.
    pub fn num_available_slots_in_hand(&self) -> (r: u8)
        ensures
            r == self.model().available_slots(),
    {
        let held = self.inactive_cards.len();
        if held >= self.max_cards_in_hand as usize {
            0
        } else {
            self.max_cards_in_hand - held as u8
        }
    }
}

} // verus!
