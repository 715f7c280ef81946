use vstd::prelude::*;

use rand::rngs::StdRng;
use rand::seq::SliceRandom;
use rand::SeedableRng;

use crate::entities::base_cards::{card_models, Card, CardModel};
use crate::errors::GameError;

verus! {

/// The permutation that a Fisher-Yates shuffle driven by a generator seeded
/// with `seed` applies to a slice of the given length. The generator's
/// stream, and so the permutation, depends on nothing but these two values.
pub uninterp spec fn shuffle_perm(len: int, seed: u64) -> Seq<int>;

/// `p` rearranges the positions `0 .. len`: every entry is a position in
/// range and no two entries coincide.
pub open spec fn valid_perm(p: Seq<int>, len: int) -> bool {
    &&& p.len() == len
    &&& forall|i: int| 0 <= i < len ==> 0 <= #[trigger] p[i] < len
    &&& forall|i: int, j: int| 0 <= i < j < len ==> p[i] != p[j]
}

/// The sequence rearranged by a permutation: position `i` of the result
/// holds what stood at position `p[i]`.
pub open spec fn apply_perm(s: Seq<Card>, p: Seq<int>) -> Seq<Card>
    recommends
        valid_perm(p, s.len() as int),
{
    Seq::new(s.len(), |i: int| s[p[i]])
}

/// The deck order produced by shuffling `cards` with the given seed.
pub open spec fn seeded_shuffle(cards: Seq<Card>, seed: u64) -> Seq<Card> {
    apply_perm(cards, shuffle_perm(cards.len() as int, seed))
}

/// Relies on rand's `SliceRandom::shuffle` driven by a `StdRng` from
/// `SeedableRng::seed_from_u64`: an in-place Fisher-Yates shuffle, so the
/// result holds the same cards, rearranged by a permutation that is decided
/// by the slice length and the seed alone.
#[verifier::external_body]
fn shuffle_with_seed(cards: &mut Vec<Card>, seed: u64)
    ensures
        valid_perm(shuffle_perm(old(cards)@.len() as int, seed), old(cards)@.len() as int),
        final(cards)@ == seeded_shuffle(old(cards)@, seed),
        final(cards)@.to_multiset() == old(cards)@.to_multiset(),
{
    let mut rng = StdRng::seed_from_u64(seed);
    cards.shuffle(&mut rng);
}

/// Relies on rand's `SliceRandom::shuffle` driven by the thread-local
/// generator: whatever order comes out, the result holds exactly the same
/// cards, permuted in place.
#[verifier::external_body]
fn shuffle_unseeded(cards: &mut Vec<Card>)
    ensures
        final(cards)@.len() == old(cards)@.len(),
        final(cards)@.to_multiset() == old(cards)@.to_multiset(),
{
    let mut rng = rand::rng();
    cards.shuffle(&mut rng);
}

/// Shuffling the same pool of cards with the same seed twice yields the same
/// resulting order.
pub proof fn lemma_seeded_shuffle_deterministic(
    cards1: Seq<Card>,
    cards2: Seq<Card>,
    seed1: u64,
    seed2: u64,
)
    requires
        cards1 == cards2,
        seed1 == seed2,
    ensures
        seeded_shuffle(cards1, seed1) == seeded_shuffle(cards2, seed2),
{
}

/// A shuffled, depletable pool of cards: it shrinks through draws and is
/// never refilled.
#[derive(Debug)]
pub struct RemainingDeck {
    cards: Vec<Card>,
}

impl RemainingDeck {
    /// The cards still in the deck, in draw order.
    pub closed spec fn spec_cards(self) -> Seq<Card> {
        self.cards@
    }

    /// The models of the cards still in the deck, in draw order.
    pub open spec fn spec_models(self) -> Seq<CardModel> {
        card_models(self.spec_cards())
    }

    /// The deck sizes this engine works with: a count that fits the `u8`
    /// the card-count queries report.
    pub open spec fn wf(self) -> bool {
        self.spec_cards().len() <= 255
    }

    /// Builds a deck from a pool of cards, shuffling once, immediately: with
    /// a seed for a reproducible order, without one from an unseeded source.
    pub fn new(cards: Vec<Card>, seed: Option<u64>) -> (r: Self)
        requires
            cards@.len() <= 255,
        ensures
            r.wf(),
            r.spec_cards().len() == cards@.len(),
            r.spec_cards().to_multiset() == cards@.to_multiset(),
            seed.is_some() ==> r.spec_cards() == seeded_shuffle(cards@, seed.unwrap()),
    {
        let mut cards = cards;
        let ghost cards0 = cards@;
        match seed {
            Some(seed) => shuffle_with_seed(&mut cards, seed),
            None => shuffle_unseeded(&mut cards),
        }
        RemainingDeck { cards }
    }

    /// How many cards are left to draw.
    pub fn num_remaining_cards(&self) -> (r: u8)
        requires
            self.wf(),
        ensures
            r as nat == self.spec_cards().len(),
    {
        self.cards.len() as u8
    }

    /// Removes and returns the first `min(n, remaining)` cards in deck
    /// order; a short deck silently yields fewer cards, an empty one an
    /// empty batch. Drawn cards cannot come back.
    pub fn draw_new_cards(&mut self, n: u8) -> (r: Result<Vec<Card>, GameError>)
        ensures
            r.is_ok(),
            ({
                let k = vstd::math::min(n as int, old(self).spec_cards().len() as int);
                &&& r.unwrap()@ == old(self).spec_cards().take(k)
                &&& final(self).spec_cards() == old(self).spec_cards().skip(k)
                &&& r.unwrap()@.len() + final(self).spec_cards().len() == old(
                    self,
                ).spec_cards().len()
                &&& r.unwrap()@.len() <= n
                &&& old(self).wf() ==> final(self).wf()
            }),
    {
        let len = self.cards.len();
        let k: usize = if (n as usize) < len {
            n as usize
        } else {
            len
        };
        let ghost orig = self.cards@;
        proof {
            assert(orig.skip(0) =~= orig);
            assert(orig.take(0) =~= Seq::<Card>::empty());
        }
        let mut selected_cards: Vec<Card> = Vec::new();
        let mut i: usize = 0;
        while i < k
            invariant
                i <= k,
                k <= orig.len(),
                k as int == vstd::math::min(n as int, orig.len() as int),
                selected_cards@ == orig.take(i as int),
                self.cards@ == orig.skip(i as int),
            decreases k - i,
        {
            let card = self.cards.remove(0);
            selected_cards.push(card);
            proof {
                assert(orig.skip(i as int).remove(0) =~= orig.skip(i as int + 1));
                assert(orig.take(i as int).push(orig.skip(i as int)[0]) =~= orig.take(i as int + 1));
            }
            i = i + 1;
        }
        Ok(selected_cards)
    }
}

} // verus!
