use vstd::prelude::*;

use crate::entities::base_cards::{AbilityType, Action, Card, CoreSchool, Philosopher};
use crate::entities::in_play_philosopher::{CombatantModel, InPlayPhilosopher};
use crate::player::player_hand::PlayerHand;

verus! {

/// A freshly bound combatant with the given name and starting health.
pub fn get_example_in_play_philosopher(name: String, starting_health: u8) -> (r:
    InPlayPhilosopher)
    ensures
        r.philosopher.name == name,
        r.philosopher.school == CoreSchool::Rationalist,
        r.philosopher.starting_health == starting_health,
        r.model() == CombatantModel::fresh(r.philosopher),
{
    let example_philosopher = Philosopher::new(name, CoreSchool::Rationalist, starting_health);
    InPlayPhilosopher::new(example_philosopher)
}

/// A hand with a fresh active combatant of the given health, the example
/// cards as its unplayed collection, and room for eight cards.
pub fn get_populated_player_hand(in_play_philosopher_health: u8) -> (r: PlayerHand)
    ensures
        r.active_philosopher is Some,
        r.active_philosopher.unwrap().philosopher.starting_health == in_play_philosopher_health,
        r.active_philosopher.unwrap().model() == CombatantModel::fresh(
            r.active_philosopher.unwrap().philosopher,
        ),
        r.inactive_cards@.len() == 3,
        r.max_cards_in_hand == 8,
{
    let example_philosopher = Philosopher::new(
        "test".to_string(),
        CoreSchool::Skeptic,
        in_play_philosopher_health,
    );
    PlayerHand {
        active_philosopher: Some(InPlayPhilosopher::new(example_philosopher)),
        inactive_cards: get_example_cards(),
        max_cards_in_hand: 8,
    }
}

/// An action card that deals the given direct damage, with the given
/// lingering duration.
pub fn get_example_damage_action(damage: u8, duration: u8) -> (r: Card)
    ensures
        r matches Card::Action(a) && a.ability_type == (AbilityType::Damage { damage, duration })
            && a.additional_effects is None,
{
    Card::Action(
        Action::new(
            "test_dam".to_string(),
            "damage_desc".to_string(),
            CoreSchool::Skeptic,
            AbilityType::Damage { damage, duration },
            None,
        ),
    )
}

/// An action card that heals the given direct amount, with the given
/// lingering duration.
pub fn get_example_heal_action(heal: u8, duration: u8) -> (r: Card)
    ensures
        r matches Card::Action(a) && a.ability_type == (AbilityType::Heal { heal, duration })
            && a.additional_effects is None,
{
    Card::Action(
        Action::new(
            "test_heal".to_string(),
            "heal_desc".to_string(),
            CoreSchool::Rationalist,
            AbilityType::Heal { heal, duration },
            None,
        ),
    )
}

/// Three example cards: a direct damage action, a lingering heal action,
/// and a philosopher template.
pub fn get_example_cards() -> (r: Vec<Card>)
    ensures
        r@.len() == 3,
        r@[0] matches Card::Action(a) && a.ability_type == (AbilityType::Damage {
            damage: 1,
            duration: 0,
        }),
        r@[1] matches Card::Action(a) && a.ability_type == (AbilityType::Heal {
            heal: 3,
            duration: 2,
        }),
        r@[2] matches Card::Philosopher(p) && p.school == CoreSchool::Empiricist
            && p.starting_health == 6,
{
    let mut cards: Vec<Card> = Vec::new();
    cards.push(get_example_damage_action(1, 0));
    cards.push(get_example_heal_action(3, 2));
    cards.push(
        Card::Philosopher(Philosopher::new("hand_philos".to_string(), CoreSchool::Empiricist, 6)),
    );
    cards
}

} // verus!
