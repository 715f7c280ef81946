pub mod base_cards;
pub mod effect;
pub mod in_play_philosopher;

pub use base_cards::{AbilityType, Action, Card, CoreSchool, Philosopher};
pub use effect::Effect;
pub use in_play_philosopher::{DamageCounter, DeathStatus, InPlayPhilosopher};
