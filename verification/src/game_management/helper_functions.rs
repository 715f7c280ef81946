use vstd::prelude::*;

use rand::Rng;

use crate::entities::base_cards::{Action, Card, Philosopher};
use crate::player::player_hand::PlayerHand;
use crate::player::remaining_deck::RemainingDeck;

verus! {

/// How many cards the starting deal draws on top of the starting
/// philosopher.
pub const INITIAL_CARDS_DRAWN: u8 = 4;

/// Relies on rand's `Rng::random_range` over `0 .. len`: some index below
/// `len`, chosen by the thread-local generator.
#[verifier::external_body]
fn random_index(len: usize) -> (r: usize)
    requires
        len > 0,
    ensures
        r < len,
{
    rand::rng().random_range(0..len)
}

/// The card pool a player's deck is built from: every philosopher template
/// but the one chosen to start, then every action template, in catalog
/// order.
pub open spec fn deck_pool(
    philosophers: Seq<Philosopher>,
    actions: Seq<Action>,
    chosen: int,
) -> Seq<Card> {
    philosophers.remove(chosen).map_values(|p: Philosopher| Card::Philosopher(p)) + actions.map_values(
        |a: Action| Card::Action(a),
    )
}

/// What the starting deal guarantees: an empty active slot, the chosen
/// philosopher template first in hand followed by the initial draw off the
/// top of the shuffled deck, and — taking hand and deck together — exactly
/// the catalog's cards.
pub open spec fn initial_player_state(
    hand: PlayerHand,
    deck: RemainingDeck,
    philosophers: Seq<Philosopher>,
    actions: Seq<Action>,
    max_cards_in_hand: u8,
) -> bool {
    let pool_len = philosophers.len() - 1 + actions.len();
    let drawn = vstd::math::min(INITIAL_CARDS_DRAWN as int, pool_len);
    &&& hand.active_philosopher is None
    &&& hand.max_cards_in_hand == max_cards_in_hand
    &&& hand.inactive_cards@.len() == 1 + drawn
    &&& deck.wf()
    &&& deck.spec_cards().len() == pool_len - drawn
    &&& exists|k: int|
        {
            &&& 0 <= k < philosophers.len()
            &&& hand.inactive_cards@[0] == Card::Philosopher(philosophers[k])
            &&& (hand.inactive_cards@.skip(1) + deck.spec_cards()).to_multiset() == deck_pool(
                philosophers,
                actions,
                k,
            ).to_multiset()
        }
}

/// Builds one player's starting hand and deck from catalog data: a random
/// philosopher template goes to the hand, the rest of the catalog is
/// shuffled into a deck, and the starting deal is drawn on top.
///
/// The starting deal is deliberately not clamped to the hand's capacity:
/// the capacity bounds only the per-turn draws that follow.
pub fn get_intial_deck(
    philosophers: Vec<Philosopher>,
    actions: Vec<Action>,
    max_cards_in_hand: &u8,
) -> (r: (PlayerHand, RemainingDeck))
    requires
        philosophers@.len() >= 1,
        philosophers@.len() - 1 + actions@.len() <= 255,
    ensures
        initial_player_state(r.0, r.1, philosophers@, actions@, *max_cards_in_hand),
{
    let ghost phils0 = philosophers@;
    let ghost actions0 = actions@;
    let mut philosophers = philosophers;
    let mut actions = actions;
    let chosen = random_index(philosophers.len());
    let initial_philosopher = philosophers.remove(chosen);

    let mut remaining_deck_cards: Vec<Card> = Vec::new();
    let ghost phils1 = philosophers@;
    let ghost mut i: int = 0;
    proof {
        assert(phils1.skip(0) =~= phils1);
        assert(remaining_deck_cards@ =~= phils1.take(0).map_values(
            |p: Philosopher| Card::Philosopher(p),
        ));
    }
    while philosophers.len() > 0
        invariant
            0 <= i <= phils1.len(),
            philosophers@ == phils1.skip(i),
            remaining_deck_cards@ == phils1.take(i).map_values(
                |p: Philosopher| Card::Philosopher(p),
            ),
        decreases philosophers@.len(),
    {
        let p = philosophers.remove(0);
        remaining_deck_cards.push(Card::Philosopher(p));
        proof {
            assert(philosophers@ =~= phils1.skip(i + 1));
            assert(remaining_deck_cards@ =~= phils1.take(i + 1).map_values(
                |p: Philosopher| Card::Philosopher(p),
            ));
            i = i + 1;
        }
    }
    let ghost phil_cards = phils1.map_values(|p: Philosopher| Card::Philosopher(p));
    let ghost mut j: int = 0;
    proof {
        assert(phils1.take(phils1.len() as int) =~= phils1);
        assert(actions0.skip(0) =~= actions0);
        assert(remaining_deck_cards@ =~= phil_cards + actions0.take(0).map_values(
            |a: Action| Card::Action(a),
        ));
    }
    while actions.len() > 0
        invariant
            0 <= j <= actions0.len(),
            actions@ == actions0.skip(j),
            remaining_deck_cards@ == phil_cards + actions0.take(j).map_values(
                |a: Action| Card::Action(a),
            ),
        decreases actions@.len(),
    {
        let a = actions.remove(0);
        remaining_deck_cards.push(Card::Action(a));
        proof {
            assert(actions@ =~= actions0.skip(j + 1));
            assert(remaining_deck_cards@ =~= phil_cards + actions0.take(j + 1).map_values(
                |a: Action| Card::Action(a),
            ));
            j = j + 1;
        }
    }
    let ghost pool = remaining_deck_cards@;
    proof {
        assert(actions0.take(actions0.len() as int) =~= actions0);
        assert(pool =~= deck_pool(phils0, actions0, chosen as int));
    }

    let mut remaining_deck = RemainingDeck::new(remaining_deck_cards, None);
    let ghost shuffled = remaining_deck.spec_cards();
    let player_initial_cards = match remaining_deck.draw_new_cards(INITIAL_CARDS_DRAWN) {
        Ok(cards) => cards,
        Err(_) => Vec::new(),
    };
    let ghost drawn0 = player_initial_cards@;
    let mut player_hand = PlayerHand {
        active_philosopher: None,
        inactive_cards: Vec::new(),
        max_cards_in_hand: *max_cards_in_hand,
    };
    player_hand.inactive_cards.push(Card::Philosopher(initial_philosopher));
    let _ = player_hand.add_cards_to_hand(player_initial_cards);
    proof {
        assert(player_hand.inactive_cards@.skip(1) =~= drawn0);
        assert(drawn0 + remaining_deck.spec_cards() =~= shuffled);
        assert(player_hand.inactive_cards@[0] == Card::Philosopher(phils0[chosen as int]));
        assert((player_hand.inactive_cards@.skip(1) + remaining_deck.spec_cards()).to_multiset()
            == deck_pool(phils0, actions0, chosen as int).to_multiset());
    }
    (player_hand, remaining_deck)
}

} // verus!
