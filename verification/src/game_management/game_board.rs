use vstd::prelude::*;

use crate::entities::base_cards::{card_models, AbilityType, Action, Card, CardModel, Philosopher};
use crate::entities::effect::Effect;
use crate::entities::in_play_philosopher::CombatantModel;
use crate::errors::GameError;
use crate::game_management::helper_functions;
use crate::player::player_hand::{HandModel, PlayerHand};
use crate::player::remaining_deck::RemainingDeck;

verus! {

/// Whose turn it is, or that the match has ended. The two player phases
/// alternate; the game-over phase is terminal.
#[derive(Clone, Copy, Debug, PartialEq, Eq, Structural)]
pub enum GamePhase {
    Player1Turn,
    Player2Turn,
    GameOver,
}

/// Immutable tuning for a match, fixed at game start.
#[derive(Clone, Copy, Debug)]
pub struct GameConfig {
    pub num_cards_played_per_turn: u8,
    pub num_cards_drawn_per_turn: u8,
    pub max_cards_in_hand: u8,
}

/// The configuration a match starts with when none is supplied.
pub open spec fn default_config() -> GameConfig {
    GameConfig { num_cards_played_per_turn: 3, num_cards_drawn_per_turn: 2, max_cards_in_hand: 7 }
}

impl GameConfig {
    pub fn max_cards_in_hand(&self) -> (r: u8)
        ensures
            r == self.max_cards_in_hand,
    {
        self.max_cards_in_hand
    }

    pub fn num_cards_played_per_turn(&self) -> (r: u8)
        ensures
            r == self.num_cards_played_per_turn,
    {
        self.num_cards_played_per_turn
    }

    pub fn num_cards_drawn_per_turn(&self) -> (r: u8)
        ensures
            r == self.num_cards_drawn_per_turn,
    {
        self.num_cards_drawn_per_turn
    }
}

impl Default for GameConfig {
    fn default() -> (r: Self)
        ensures
            r == default_config(),
    {
        Self { num_cards_played_per_turn: 3, num_cards_drawn_per_turn: 2, max_cards_in_hand: 7 }
    }
}

/// One player's side of the board: hand and deck, as mathematical values.
#[verifier::ext_equal]
pub ghost struct PlayerModel {
    pub hand: HandModel,
    pub deck: Seq<CardModel>,
}

/// The whole match state as a mathematical value.
#[verifier::ext_equal]
pub ghost struct BoardModel {
    pub player_1: PlayerModel,
    pub player_2: PlayerModel,
    pub phase: GamePhase,
    pub config: GameConfig,
}

/// A combatant's state after one ability lands on it: the direct amount is
/// applied immediately; an ability with a positive duration also attaches a
/// lingering effect with one tick fewer, the direct application having
/// consumed the first.
pub open spec fn combat_after_ability(cm: CombatantModel, ability: AbilityType) -> CombatantModel {
    match ability {
        AbilityType::Damage { damage, duration } => {
            let hit = cm.damaged(damage);
            if duration > 0 {
                hit.with_effect(Effect::Poison { damage, duration: (duration - 1) as u8 })
            } else {
                hit
            }
        }
        AbilityType::Heal { heal, duration } => {
            let hit = cm.healed(heal);
            if duration > 0 {
                hit.with_effect(Effect::Recovery { heal, duration: (duration - 1) as u8 })
            } else {
                hit
            }
        }
    }
}

/// A hand after an ability lands on its active combatant; with the active
/// slot empty the ability has no effect.
pub open spec fn hand_after_ability(h: HandModel, ability: AbilityType) -> HandModel {
    match h.active {
        None => h,
        Some(ac) => HandModel { active: Some((ac.0, combat_after_ability(ac.1, ability))), ..h },
    }
}

impl BoardModel {
    pub open spec fn with_p1_hand(self, h: HandModel) -> Self {
        BoardModel { player_1: PlayerModel { hand: h, ..self.player_1 }, ..self }
    }

    pub open spec fn with_p2_hand(self, h: HandModel) -> Self {
        BoardModel { player_2: PlayerModel { hand: h, ..self.player_2 }, ..self }
    }

    /// Which player an ability of this kind lands on in the current phase:
    /// damage on the player not taking the turn, healing on the player
    /// taking it; none once the match is over.
    pub open spec fn ability_targets_player_1(self, ability: AbilityType) -> Option<bool> {
        match ability {
            AbilityType::Damage { .. } => match self.phase {
                GamePhase::Player1Turn => Some(false),
                GamePhase::Player2Turn => Some(true),
                GamePhase::GameOver => None,
            },
            AbilityType::Heal { .. } => match self.phase {
                GamePhase::Player1Turn => Some(true),
                GamePhase::Player2Turn => Some(false),
                GamePhase::GameOver => None,
            },
        }
    }

    /// The board after one action card resolves: its ability lands on the
    /// combatant its targeting rule picks, if there is one.
    pub open spec fn action_applied(self, ability: AbilityType) -> Self {
        match self.ability_targets_player_1(ability) {
            None => self,
            Some(true) => self.with_p1_hand(hand_after_ability(self.player_1.hand, ability)),
            Some(false) => self.with_p2_hand(hand_after_ability(self.player_2.hand, ability)),
        }
    }

    /// The board after one selected card resolves: an action card through
    /// its targeting rule, any other through the active player's hand. A
    /// philosopher card cannot be played once the match is over.
    pub open spec fn card_applied(self, card: CardModel) -> (Self, bool) {
        match card {
            CardModel::Action(a) => (self.action_applied(a.ability_type), true),
            _ => match self.phase {
                GamePhase::Player1Turn => (
                    self.with_p1_hand(self.player_1.hand.played(card)),
                    true,
                ),
                GamePhase::Player2Turn => (
                    self.with_p2_hand(self.player_2.hand.played(card)),
                    true,
                ),
                GamePhase::GameOver => (self, false),
            },
        }
    }

    /// The board after a batch of selected cards resolves in the order
    /// supplied, stopping at the first card that cannot be played.
    pub open spec fn cards_applied(self, cards: Seq<CardModel>) -> (Self, bool)
        decreases cards.len(),
    {
        if cards.len() == 0 {
            (self, true)
        } else {
            let step = self.card_applied(cards[0]);
            if !step.1 {
                (step.0, false)
            } else {
                step.0.cards_applied(cards.skip(1))
            }
        }
    }

    /// The board after lingering effects tick once on the active combatant
    /// of the player who is not about to act.
    pub open spec fn effects_ticked(self) -> Self
        recommends
            self.phase != GamePhase::GameOver,
    {
        match self.phase {
            GamePhase::Player1Turn => match self.player_2.hand.active {
                Some(ac) => self.with_p2_hand(
                    HandModel { active: Some((ac.0, ac.1.ticked())), ..self.player_2.hand },
                ),
                None => self,
            },
            _ => match self.player_1.hand.active {
                Some(ac) => self.with_p1_hand(
                    HandModel { active: Some((ac.0, ac.1.ticked())), ..self.player_1.hand },
                ),
                None => self,
            },
        }
    }

    /// The board after the player about to become active draws: as many
    /// cards as the per-turn allowance, bounded by the free slots in their
    /// hand and by what the deck still holds, moved from the top of their
    /// deck to their unplayed collection.
    pub open spec fn next_player_drawn(self) -> Self
        recommends
            self.phase != GamePhase::GameOver,
    {
        match self.phase {
            GamePhase::Player1Turn => BoardModel {
                player_2: drawn_player(self.player_2, self.config.num_cards_drawn_per_turn),
                ..self
            },
            _ => BoardModel {
                player_1: drawn_player(self.player_1, self.config.num_cards_drawn_per_turn),
                ..self
            },
        }
    }

    /// The board with the turn handed to the other player; the game-over
    /// phase is terminal.
    pub open spec fn phase_advanced(self) -> Self {
        match self.phase {
            GamePhase::Player1Turn => BoardModel { phase: GamePhase::Player2Turn, ..self },
            GamePhase::Player2Turn => BoardModel { phase: GamePhase::Player1Turn, ..self },
            GamePhase::GameOver => self,
        }
    }

    /// One whole turn, in the engine's fixed order: tick effects on the
    /// combatant of the player not about to act, resolve the selected cards
    /// in order, draw for the player about to become active, and hand the
    /// turn over.
    pub open spec fn turn_processed(self, cards: Seq<CardModel>) -> Self
        recommends
            self.phase != GamePhase::GameOver,
    {
        self.effects_ticked().cards_applied(cards).0.next_player_drawn().phase_advanced()
    }
}

/// Resolving a batch of cards is resolving a prefix, then — if nothing
/// failed there — the rest from where the prefix left off.
proof fn lemma_cards_applied_split(m: BoardModel, cs: Seq<CardModel>, i: int)
    requires
        0 <= i <= cs.len(),
    ensures
        m.cards_applied(cs) == ({
            let pre = m.cards_applied(cs.take(i));
            if !pre.1 {
                pre
            } else {
                pre.0.cards_applied(cs.skip(i))
            }
        }),
    decreases i,
{
    if i == 0 {
        assert(cs.take(0).len() == 0);
        assert(cs.skip(0) =~= cs);
    } else {
        let step = m.card_applied(cs[0]);
        assert(cs.take(i)[0] == cs[0]);
        assert(cs.take(i).skip(1) =~= cs.skip(1).take(i - 1));
        if step.1 {
            lemma_cards_applied_split(step.0, cs.skip(1), i - 1);
            assert(cs.skip(1).skip(i - 1) =~= cs.skip(i));
        }
    }
}

/// While the match is live, resolving cards never fails and never changes
/// whose turn it is or the configuration.
proof fn lemma_cards_applied_live(m: BoardModel, cs: Seq<CardModel>)
    ensures
        m.phase != GamePhase::GameOver ==> ({
            let outcome = m.cards_applied(cs);
            &&& outcome.1
            &&& outcome.0.phase == m.phase
            &&& outcome.0.config == m.config
        }),
    decreases cs.len(),
{
    if m.phase != GamePhase::GameOver && cs.len() > 0 {
        lemma_cards_applied_live(m.card_applied(cs[0]).0, cs.skip(1));
    }
}

/// One player's side after drawing up to `allowance` cards, bounded by the
/// free slots in the hand and by the cards the deck still holds.
pub open spec fn drawn_player(p: PlayerModel, allowance: u8) -> PlayerModel {
    let wanted = vstd::math::min(allowance as int, p.hand.available_slots() as int);
    let k = vstd::math::min(wanted, p.deck.len() as int);
    PlayerModel {
        hand: HandModel { inactive: p.hand.inactive + p.deck.take(k), ..p.hand },
        deck: p.deck.skip(k),
    }
}

/// Owns both players' hand and deck, the current phase, and the match
/// configuration: the sole mutable root of a match.
#[derive(Debug)]
pub struct GameBoard {
    pub player_1_hand: PlayerHand,
    pub player_1_deck: RemainingDeck,
    pub player_2_hand: PlayerHand,
    pub player_2_deck: RemainingDeck,
    pub game_phase: GamePhase,
    pub game_config: GameConfig,
}

impl GameBoard {
    pub open spec fn model(self) -> BoardModel {
        BoardModel {
            player_1: PlayerModel {
                hand: self.player_1_hand.model(),
                deck: self.player_1_deck.spec_models(),
            },
            player_2: PlayerModel {
                hand: self.player_2_hand.model(),
                deck: self.player_2_deck.spec_models(),
            },
            phase: self.game_phase,
            config: self.game_config,
        }
    }

    /// Both decks hold counts their card-count queries can report.
    pub open spec fn wf(self) -> bool {
        &&& self.player_1_deck.wf()
        &&& self.player_2_deck.wf()
    }

    /// Read access to the hand and deck of the player whose turn it is;
    /// an error once the match is over.
    pub fn active_player_data(&self) -> (r: Result<(&PlayerHand, &RemainingDeck), GameError>)
        ensures
            self.game_phase == GamePhase::Player1Turn ==> r == Ok::<_, GameError>(
                (&self.player_1_hand, &self.player_1_deck),
            ),
            self.game_phase == GamePhase::Player2Turn ==> r == Ok::<_, GameError>(
                (&self.player_2_hand, &self.player_2_deck),
            ),
            self.game_phase == GamePhase::GameOver ==> r == Err::<
                (&PlayerHand, &RemainingDeck),
                _,
            >(GameError::InvalidPhase),
    {
        match self.game_phase {
            GamePhase::Player1Turn => Ok((&self.player_1_hand, &self.player_1_deck)),
            GamePhase::Player2Turn => Ok((&self.player_2_hand, &self.player_2_deck)),
            GamePhase::GameOver => Err(GameError::InvalidPhase),
        }
    }

    /// Read access to the hand and deck of the player whose turn it is not;
    /// an error once the match is over.
    pub fn inactive_player_data(&self) -> (r: Result<(&PlayerHand, &RemainingDeck), GameError>)
        ensures
            self.game_phase == GamePhase::Player1Turn ==> r == Ok::<_, GameError>(
                (&self.player_2_hand, &self.player_2_deck),
            ),
            self.game_phase == GamePhase::Player2Turn ==> r == Ok::<_, GameError>(
                (&self.player_1_hand, &self.player_1_deck),
            ),
            self.game_phase == GamePhase::GameOver ==> r == Err::<
                (&PlayerHand, &RemainingDeck),
                _,
            >(GameError::InvalidPhase),
    {
        match self.game_phase {
            GamePhase::Player1Turn => Ok((&self.player_2_hand, &self.player_2_deck)),
            GamePhase::Player2Turn => Ok((&self.player_1_hand, &self.player_1_deck)),
            GamePhase::GameOver => Err(GameError::InvalidPhase),
        }
    }

    /// Builds both players' starting hands and decks from catalog data,
    /// with the supplied configuration or the default one. Each player's
    /// catalog must offer at least one philosopher to start with.
    pub fn new(
        game_config: Option<GameConfig>,
        player_1_philosophers: Vec<Philosopher>,
        player_1_actions: Vec<Action>,
        player_2_philosophers: Vec<Philosopher>,
        player_2_actions: Vec<Action>,
    ) -> (r: Self)
        requires
            player_1_philosophers@.len() >= 1,
            player_1_philosophers@.len() - 1 + player_1_actions@.len() <= 255,
            player_2_philosophers@.len() >= 1,
            player_2_philosophers@.len() - 1 + player_2_actions@.len() <= 255,
        ensures
            r.game_phase == GamePhase::Player1Turn,
            r.game_config == match game_config {
                Some(c) => c,
                None => default_config(),
            },
            helper_functions::initial_player_state(
                r.player_1_hand,
                r.player_1_deck,
                player_1_philosophers@,
                player_1_actions@,
                r.game_config.max_cards_in_hand,
            ),
            helper_functions::initial_player_state(
                r.player_2_hand,
                r.player_2_deck,
                player_2_philosophers@,
                player_2_actions@,
                r.game_config.max_cards_in_hand,
            ),
            r.wf(),
    {
        let config: GameConfig = match game_config {
            Some(c) => c,
            None => GameConfig::default(),
        };
        let (p1_start_hand, p1_deck) = helper_functions::get_intial_deck(
            player_1_philosophers,
            player_1_actions,
            &config.max_cards_in_hand,
        );
        let (p2_start_hand, p2_deck) = helper_functions::get_intial_deck(
            player_2_philosophers,
            player_2_actions,
            &config.max_cards_in_hand,
        );
        GameBoard {
            player_1_hand: p1_start_hand,
            player_1_deck: p1_deck,
            player_2_hand: p2_start_hand,
            player_2_deck: p2_deck,
            game_phase: GamePhase::Player1Turn,
            game_config: config,
        }
    }

    /// Ticks lingering effects once on the active combatant of the player
    /// who is not about to act.
    fn apply_effects(&mut self)
        requires
            old(self).game_phase != GamePhase::GameOver,
        ensures
            final(self).model() == old(self).model().effects_ticked(),
            final(self).player_1_deck == old(self).player_1_deck,
            final(self).player_2_deck == old(self).player_2_deck,
            final(self).game_phase == old(self).game_phase,
            final(self).game_config == old(self).game_config,
    {
        match self.game_phase {
            GamePhase::Player1Turn => {
                if let Some(p) = &mut self.player_2_hand.active_philosopher {
                    p.apply_existing_effects();
                }
            }
            _ => {
                if let Some(p) = &mut self.player_1_hand.active_philosopher {
                    p.apply_existing_effects();
                }
            }
        }
        proof {
            assert(self.model() =~~= old(self).model().effects_ticked());
        }
    }

    /// Lands an ability on a hand's active combatant, if it has one.
    fn apply_ability_to_hand(hand: &mut PlayerHand, ability: AbilityType)
        ensures
            final(hand).model() == hand_after_ability(old(hand).model(), ability),
            final(hand).inactive_cards == old(hand).inactive_cards,
            final(hand).max_cards_in_hand == old(hand).max_cards_in_hand,
    {
        if let Some(phil) = &mut hand.active_philosopher {
            match ability {
                AbilityType::Heal { heal, duration } => {
                    phil.apply_direct_heal(heal);
                    if duration > 0 {
                        phil.add_effect(Effect::Recovery { heal, duration: duration - 1 });
                    }
                }
                AbilityType::Damage { damage, duration } => {
                    phil.apply_direct_damage(damage);
                    if duration > 0 {
                        phil.add_effect(Effect::Poison { damage, duration: duration - 1 });
                    }
                }
            }
        }
        proof {
            assert(hand.model() =~~= hand_after_ability(old(hand).model(), ability));
        }
    }

    /// Resolves one action card: its ability lands on the combatant picked
    /// by the targeting rule for the current phase; with no combatant there
    /// the action has no effect, which is not an error.
    pub fn take_single_action(&mut self, card: &Action) -> (r: Result<(), GameError>)
        ensures
            r.is_ok(),
            final(self).model() == old(self).model().action_applied(card.ability_type),
            final(self).player_1_deck == old(self).player_1_deck,
            final(self).player_2_deck == old(self).player_2_deck,
            final(self).game_phase == old(self).game_phase,
            final(self).game_config == old(self).game_config,
    {
        let ability = card.ability_type;
        let targets_player_1: Option<bool> = match ability {
            AbilityType::Damage { .. } => match self.game_phase {
                GamePhase::Player1Turn => Some(false),
                GamePhase::Player2Turn => Some(true),
                GamePhase::GameOver => None,
            },
            AbilityType::Heal { .. } => match self.game_phase {
                GamePhase::Player1Turn => Some(true),
                GamePhase::Player2Turn => Some(false),
                GamePhase::GameOver => None,
            },
        };
        match targets_player_1 {
            Some(true) => Self::apply_ability_to_hand(&mut self.player_1_hand, ability),
            Some(false) => Self::apply_ability_to_hand(&mut self.player_2_hand, ability),
            None => {}
        }
        proof {
            assert(self.model() =~~= old(self).model().action_applied(ability));
        }
        Ok(())
    }

    /// Plays a philosopher card through the active player's hand; an error
    /// once the match is over.
    fn play_philosopher(&mut self, philosopher: Card) -> (r: Result<(), GameError>)
        ensures
            old(self).game_phase == GamePhase::GameOver ==> r == Err::<(), GameError>(
                GameError::InvalidPhase,
            ) && *final(self) == *old(self),
            old(self).game_phase != GamePhase::GameOver
                && HandModel::playable_as_philosopher(philosopher.model()) ==> {
                &&& r.is_ok()
                &&& final(self).model() == ({
                    let step = old(self).model().card_applied(philosopher.model());
                    step.0
                })
            },
            old(self).game_phase != GamePhase::GameOver
                && !HandModel::playable_as_philosopher(philosopher.model()) ==> r == Err::<
                (),
                GameError,
            >(GameError::WrongCardKind) && *final(self) == *old(self),
            final(self).player_1_deck == old(self).player_1_deck,
            final(self).player_2_deck == old(self).player_2_deck,
            final(self).game_phase == old(self).game_phase,
            final(self).game_config == old(self).game_config,
    {
        let ghost card_model = philosopher.model();
        let r = match self.game_phase {
            GamePhase::Player1Turn => self.player_1_hand.play_philosopher(philosopher),
            GamePhase::Player2Turn => self.player_2_hand.play_philosopher(philosopher),
            GamePhase::GameOver => Err(GameError::InvalidPhase),
        };
        proof {
            if self.game_phase != GamePhase::GameOver && HandModel::playable_as_philosopher(
                card_model,
            ) {
                assert(self.model() =~~= old(self).model().card_applied(card_model).0);
            }
        }
        r
    }

    /// Resolves each selected card in the order supplied: action cards
    /// through the targeting rule, philosopher cards through the active
    /// player's hand. Stops at the first card that cannot be played.
    #[verifier::loop_isolation(false)]
    pub fn apply_cards(&mut self, cards: Vec<Card>) -> (r: Result<(), GameError>)
        ensures
            ({
                let outcome = old(self).model().cards_applied(card_models(cards@));
                &&& final(self).model() == outcome.0
                &&& r.is_ok() == outcome.1
                &&& !outcome.1 ==> r == Err::<(), GameError>(GameError::InvalidPhase)
            }),
            final(self).player_1_deck == old(self).player_1_deck,
            final(self).player_2_deck == old(self).player_2_deck,
            final(self).game_phase == old(self).game_phase,
            final(self).game_config == old(self).game_config,
    {
        let ghost m0 = old(self).model();
        let ghost all = card_models(cards@);
        let mut cards = cards;
        let ghost mut idx: int = 0;
        proof {
            assert(all.take(0) =~= Seq::<CardModel>::empty());
            assert(card_models(cards@).skip(0) =~= all.skip(0));
        }
        while cards.len() > 0
            invariant
                0 <= idx <= all.len(),
                card_models(cards@) == all.skip(idx),
                cards@.len() == all.len() - idx,
                m0 == old(self).model(),
                m0.cards_applied(all.take(idx)) == (self.model(), true),
                self.player_1_deck == old(self).player_1_deck,
                self.player_2_deck == old(self).player_2_deck,
                self.game_phase == old(self).game_phase,
                self.game_config == old(self).game_config,
            decreases cards@.len(),
        {
            let ghost pre = self.model();
            let ghost cs_before = cards@;
            let card = cards.remove(0);
            proof {
                assert(card == cs_before[0]);
                assert(card_models(cs_before)[0] == cs_before[0].model());
                assert(card.model() == all[idx]);
                assert(cards@ =~= cs_before.skip(1));
                assert(card_models(cards@) =~= card_models(cs_before).skip(1));
                assert(card_models(cards@) =~= all.skip(idx + 1));
            }
            let result = match card {
                Card::Action(action) => self.take_single_action(&action),
                Card::Philosopher(p) => self.play_philosopher(Card::Philosopher(p)),
                Card::InPlayPhilosopher(p) => self.play_philosopher(Card::InPlayPhilosopher(p)),
            };
            proof {
                lemma_cards_applied_split(m0, all, idx);
                assert(all.skip(idx)[0] == all[idx]);
            }
            if let Err(e) = result {
                proof {
                    assert(!pre.card_applied(all[idx]).1);
                    assert(pre.card_applied(all[idx]).0 == self.model());
                    assert(m0.cards_applied(all.take(idx)) == (pre, true));
                    assert(m0.cards_applied(all) == pre.cards_applied(all.skip(idx)));
                    assert(pre.cards_applied(all.skip(idx)) == (self.model(), false));
                    assert(m0.cards_applied(all) == (self.model(), false));
                    assert(e == GameError::InvalidPhase);
                }
                return Err(e);
            }
            proof {
                assert(pre.card_applied(all[idx]).1);
                assert(pre.card_applied(all[idx]).0 == self.model());
                lemma_cards_applied_split(m0, all.take(idx + 1), idx);
                assert(all.take(idx + 1).take(idx) =~= all.take(idx));
                assert(all.take(idx + 1).skip(idx) =~= seq![all[idx]]);
                assert(seq![all[idx]][0] == all[idx]);
                assert(seq![all[idx]].skip(1) =~= Seq::<CardModel>::empty());
                assert(self.model().cards_applied(Seq::<CardModel>::empty()) == (
                    self.model(),
                    true,
                ));
                assert(pre.cards_applied(seq![all[idx]]) == (self.model(), true));
                assert(m0.cards_applied(all.take(idx + 1)) == (self.model(), true));
                idx = idx + 1;
            }
        }
        proof {
            assert(all.take(all.len() as int) =~= all);
        }
        Ok(())
    }

    /// Draws for the player about to become active: up to the per-turn
    /// allowance, bounded by the free slots in their hand, from their deck
    /// into their unplayed collection.
    fn draw_cards_for_next_player(&mut self)
        requires
            old(self).game_phase != GamePhase::GameOver,
            old(self).wf(),
        ensures
            final(self).model() == old(self).model().next_player_drawn(),
            final(self).wf(),
            final(self).game_phase == old(self).game_phase,
            final(self).game_config == old(self).game_config,
    {
        let num_cards_per_turn = self.game_config.num_cards_drawn_per_turn;
        match self.game_phase {
            GamePhase::Player1Turn => {
                let slots = self.player_2_hand.num_available_slots_in_hand();
                let num_cards_to_draw = if num_cards_per_turn < slots {
                    num_cards_per_turn
                } else {
                    slots
                };
                let new_cards = match self.player_2_deck.draw_new_cards(num_cards_to_draw) {
                    Ok(c) => c,
                    Err(_) => Vec::new(),
                };
                let _ = self.player_2_hand.add_cards_to_hand(new_cards);
            }
            _ => {
                let slots = self.player_1_hand.num_available_slots_in_hand();
                let num_cards_to_draw = if num_cards_per_turn < slots {
                    num_cards_per_turn
                } else {
                    slots
                };
                let new_cards = match self.player_1_deck.draw_new_cards(num_cards_to_draw) {
                    Ok(c) => c,
                    Err(_) => Vec::new(),
                };
                let _ = self.player_1_hand.add_cards_to_hand(new_cards);
            }
        }
        proof {
            assert(self.model() =~~= old(self).model().next_player_drawn());
        }
    }

    /// The single entry point for a turn: ticks effects on the combatant of
    /// the player not about to act, resolves the selected cards in order,
    /// draws for the player about to become active, and advances the phase.
    /// Once the match is over this is an error and the board is untouched.
    pub fn process_turn(&mut self, cards: Vec<Card>) -> (r: Result<(), GameError>)
        requires
            old(self).wf(),
        ensures
            final(self).wf(),
            old(self).game_phase == GamePhase::GameOver ==> r == Err::<(), GameError>(
                GameError::InvalidPhase,
            ) && *final(self) == *old(self),
            old(self).game_phase != GamePhase::GameOver ==> r == Ok::<(), GameError>(())
                && final(self).model() == old(self).model().turn_processed(card_models(cards@)),
    {
        match self.game_phase {
            GamePhase::GameOver => {
                return Err(GameError::InvalidPhase);
            }
            _ => {}
        }
        self.apply_effects();
        let ghost m1 = self.model();
        let result = self.apply_cards(cards);
        proof {
            lemma_cards_applied_live(m1, card_models(cards@));
        }
        self.draw_cards_for_next_player();
        self.update_game_phase();
        Ok(())
    }

    /// Hands the turn to the other player; the game-over phase is terminal.
    pub fn update_game_phase(&mut self)
        ensures
            final(self).model() == old(self).model().phase_advanced(),
            *final(self) == (GameBoard {
                game_phase: final(self).game_phase,
                ..*old(self)
            }),
    {
        match self.game_phase {
            GamePhase::Player1Turn => self.game_phase = GamePhase::Player2Turn,
            GamePhase::Player2Turn => self.game_phase = GamePhase::Player1Turn,
            GamePhase::GameOver => {}
        }
        proof {
            assert(self.model() =~= old(self).model().phase_advanced());
        }
    }
}

} // verus!
