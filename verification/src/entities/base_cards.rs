use vstd::prelude::*;

use crate::entities::effect::Effect;
use crate::entities::in_play_philosopher::CombatantModel;
use crate::entities::in_play_philosopher::InPlayPhilosopher;

verus! {

/// The school a card belongs to. Cosmetic: carried with the card, but with no
/// effect on gameplay.
#[derive(Clone, Copy, Debug)]
pub enum CoreSchool {
    Rationalist,
    Empiricist,
    Skeptic,
}

/// What an action card does when played: direct damage or a direct heal, each
/// with a magnitude and a lingering duration. A duration of 0 means the
/// ability is instantaneous and leaves no effect behind.
#[derive(Clone, Copy, Debug)]
pub enum AbilityType {
    Damage { damage: u8, duration: u8 },
    Heal { heal: u8, duration: u8 },
}

/// A card is exactly one of: an action, a fresh philosopher template, or a
/// philosopher already bound to combat state.
#[derive(Clone, Debug)]
pub enum Card {
    Action(Action),
    Philosopher(Philosopher),
    InPlayPhilosopher(InPlayPhilosopher),
}

/// A card as a mathematical value: an in-play philosopher is its template
/// plus its combat model; the other kinds carry their template unchanged.
#[verifier::ext_equal]
pub ghost enum CardModel {
    Action(Action),
    Philosopher(Philosopher),
    InPlay(Philosopher, CombatantModel),
}

impl Card {
    pub open spec fn model(self) -> CardModel {
        match self {
            Card::Action(a) => CardModel::Action(a),
            Card::Philosopher(p) => CardModel::Philosopher(p),
            Card::InPlayPhilosopher(p) => CardModel::InPlay(p.philosopher, p.model()),
        }
    }
}

/// The models of a whole collection of cards, in order.
pub open spec fn card_models(cards: Seq<Card>) -> Seq<CardModel> {
    cards.map_values(|c: Card| c.model())
}

/// An immutable action-card template.
#[derive(Clone, Debug)]
pub struct Action {
    pub name: String,
    pub description: String,
    pub school: CoreSchool,
    pub ability_type: AbilityType,
    pub additional_effects: Option<Vec<Effect>>,
}

impl Action {
    pub fn new(
        name: String,
        description: String,
        school: CoreSchool,
        ability_type: AbilityType,
        additional_effects: Option<Vec<Effect>>,
    ) -> (r: Self)
        ensures
            r == (Action { name, description, school, ability_type, additional_effects }),
    {
        Self { name, description, school, ability_type, additional_effects }
    }
}

/// An immutable philosopher template: never mutated once created.
#[derive(Clone, Debug)]
pub struct Philosopher {
    pub name: String,
    pub school: CoreSchool,
    pub starting_health: u8,
}

impl Philosopher {
    pub fn new(name: String, school: CoreSchool, starting_health: u8) -> (r: Self)
        ensures
            r == (Philosopher { name, school, starting_health }),
    {
        Self { name, school, starting_health }
    }
}

} // verus!
