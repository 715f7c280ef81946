use vstd::prelude::*;

use crate::entities::in_play_philosopher::DamageCounter;

verus! {

/// A timed modifier on a combatant's damage counter: poison adds damage once
/// per tick, recovery removes it, until the remaining duration reaches 0.
/// A duration of 0 means the effect is expired: applying it changes nothing.
#[derive(Clone, Copy, Debug)]
pub enum Effect {
    Poison { damage: u8, duration: u8 },
    Recovery { heal: u8, duration: u8 },
}

impl Effect {
    /// Remaining ticks before this effect expires.
    pub open spec fn spec_duration(self) -> u8 {
        match self {
            Effect::Poison { duration, .. } => duration,
            Effect::Recovery { duration, .. } => duration,
        }
    }

    /// The amount of damage or healing one application contributes.
    pub open spec fn spec_magnitude(self) -> u8 {
        match self {
            Effect::Poison { damage, .. } => damage,
            Effect::Recovery { heal, .. } => heal,
        }
    }

    /// One application of the effect: the counter moves by the magnitude
    /// (saturating) only while the duration is positive, and the duration
    /// itself counts down by one, stopping at 0.
    pub open spec fn spec_apply(self, counter: DamageCounter) -> (Effect, DamageCounter) {
        match self {
            Effect::Poison { damage, duration } => (
                Effect::Poison { damage, duration: duration.saturating_sub(1) },
                if duration > 0 {
                    DamageCounter { current_damage: counter.current_damage.saturating_add(damage) }
                } else {
                    counter
                },
            ),
            Effect::Recovery { heal, duration } => (
                Effect::Recovery { heal, duration: duration.saturating_sub(1) },
                if duration > 0 {
                    DamageCounter { current_damage: counter.current_damage.saturating_sub(heal) }
                } else {
                    counter
                },
            ),
        }
    }

    /// The effect and the counter after `n` successive applications.
    pub open spec fn spec_apply_n(self, counter: DamageCounter, n: nat) -> (Effect, DamageCounter)
        decreases n,
    {
        if n == 0 {
            (self, counter)
        } else {
            let once = self.spec_apply(counter);
            once.0.spec_apply_n(once.1, (n - 1) as nat)
        }
    }

    pub fn apply(&mut self, target: &mut DamageCounter)
        ensures
            (*final(self), *final(target)) == old(self).spec_apply(*old(target)),
    {
        match self {
            Effect::Poison { damage, duration } => {
                if *duration > 0 {
                    target.apply_damage(*damage);
                }
                *duration = duration.saturating_sub(1);
            }
            Effect::Recovery { heal, duration } => {
                if *duration > 0 {
                    target.apply_heal(*heal);
                }
                *duration = duration.saturating_sub(1);
            }
        }
    }

    pub fn is_expired(&self) -> (r: bool)
        ensures
            r == (self.spec_duration() == 0),
    {
        self.duration() == 0
    }

    pub fn duration(&self) -> (r: u8)
        ensures
            r == self.spec_duration(),
    {
        match self {
            Effect::Poison { duration, .. } | Effect::Recovery { duration, .. } => *duration,
        }
    }

    pub fn magnitude(&self) -> (r: u8)
        ensures
            r == self.spec_magnitude(),
    {
        match self {
            Effect::Poison { damage, .. } => *damage,
            Effect::Recovery { heal, .. } => *heal,
        }
    }
}

/// Applying an effect in two bursts is the same as applying it once for the
/// combined number of ticks.
proof fn lemma_apply_n_additive(e: Effect, c: DamageCounter, a: nat, b: nat)
    ensures
        e.spec_apply_n(c, a + b) == {
            let first = e.spec_apply_n(c, a);
            first.0.spec_apply_n(first.1, b)
        },
    decreases a,
{
    if a > 0 {
        let once = e.spec_apply(c);
        lemma_apply_n_additive(once.0, once.1, (a - 1) as nat, b);
    }
}

/// After an effect has been applied as many times as its initial duration,
/// it reports itself expired.
pub proof fn lemma_effect_expires_after_initial_duration(e: Effect, c: DamageCounter)
    ensures
        e.spec_apply_n(c, e.spec_duration() as nat).0.spec_duration() == 0,
    decreases e.spec_duration(),
{
    if e.spec_duration() > 0 {
        let once = e.spec_apply(c);
        lemma_effect_expires_after_initial_duration(once.0, once.1);
    }
}

/// An expired effect is inert: applying it any number of times changes
/// neither the effect nor the damage counter.
pub proof fn lemma_expired_effect_is_inert(e: Effect, c: DamageCounter, n: nat)
    requires
        e.spec_duration() == 0,
    ensures
        e.spec_apply_n(c, n) == (e, c),
    decreases n,
{
    if n > 0 {
        lemma_expired_effect_is_inert(e, c, (n - 1) as nat);
    }
}

/// An effect contributes no further magnitude once its initial duration has
/// been consumed: extra applications leave the counter where it was.
pub proof fn lemma_effect_contributes_nothing_after_expiry(e: Effect, c: DamageCounter, extra: nat)
    ensures
        e.spec_apply_n(c, e.spec_duration() as nat + extra).1 == e.spec_apply_n(
            c,
            e.spec_duration() as nat,
        ).1,
{
    let d = e.spec_duration() as nat;
    lemma_apply_n_additive(e, c, d, extra);
    let first = e.spec_apply_n(c, d);
    lemma_effect_expires_after_initial_duration(e, c);
    lemma_expired_effect_is_inert(first.0, first.1, extra);
}

} // verus!
