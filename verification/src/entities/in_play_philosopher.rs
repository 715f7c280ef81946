use vstd::prelude::*;

use crate::entities::base_cards::Philosopher;
use crate::entities::effect::Effect;

verus! {

/// Accumulated damage taken by a combatant. The counter only ever holds
/// values between 0 and 255 and both operations saturate at those bounds.
#[derive(Clone, Copy, Debug)]
pub struct DamageCounter {
    pub current_damage: u8,
}

impl DamageCounter {
    pub fn apply_heal(&mut self, heal: u8)
        ensures
            final(self).current_damage == old(self).current_damage.saturating_sub(heal),
    {
        self.current_damage = self.current_damage.saturating_sub(heal);
    }

    pub fn apply_damage(&mut self, damage: u8)
        ensures
            final(self).current_damage == old(self).current_damage.saturating_add(damage),
    {
        self.current_damage = self.current_damage.saturating_add(damage);
    }
}

/// Whether a combatant has died. Death is sticky: no operation ever turns
/// `Dead` back into `Alive`.
#[derive(Clone, Copy, Debug, PartialEq, Eq, Structural)]
pub enum DeathStatus {
    Dead,
    Alive,
}

/// The combat-relevant state of an in-play philosopher, as a mathematical
/// value: everything the damage/heal/effect rules read or write.
#[verifier::ext_equal]
pub ghost struct CombatantModel {
    pub starting_health: u8,
    pub damage: u8,
    pub status: DeathStatus,
    pub effects: Seq<Effect>,
}

impl CombatantModel {
    /// The combat state of a combatant freshly built from a template: no
    /// damage, no effects, alive.
    pub open spec fn fresh(template: Philosopher) -> CombatantModel {
        CombatantModel {
            starting_health: template.starting_health,
            damage: 0,
            status: DeathStatus::Alive,
            effects: Seq::empty(),
        }
    }

    /// Health left: starting health minus accumulated damage, floored at 0.
    pub open spec fn remaining(self) -> u8 {
        self.starting_health.saturating_sub(self.damage)
    }

    /// The death flag after one recomputation: a combatant whose remaining
    /// health is 0 is marked `Dead`; the flag never reverts to `Alive`.
    pub open spec fn with_death_updated(self) -> Self {
        if self.remaining() == 0 {
            CombatantModel { status: DeathStatus::Dead, ..self }
        } else {
            self
        }
    }

    /// Direct damage: the counter grows (saturating) and death is recomputed.
    pub open spec fn damaged(self, damage: u8) -> Self {
        (CombatantModel { damage: self.damage.saturating_add(damage), ..self }).with_death_updated()
    }

    /// Direct healing: a no-op on a dead combatant, otherwise the counter
    /// shrinks (floored at 0). The death flag is never touched.
    pub open spec fn healed(self, heal: u8) -> Self {
        if self.status == DeathStatus::Dead {
            self
        } else {
            CombatantModel { damage: self.damage.saturating_sub(heal), ..self }
        }
    }

    /// One step of an effect tick: effect `j` is applied once to the damage
    /// counter, its own duration counts down in place, and death is
    /// recomputed immediately.
    pub open spec fn tick_step(self, j: int) -> Self
        recommends
            0 <= j < self.effects.len(),
    {
        let applied = self.effects[j].spec_apply(DamageCounter { current_damage: self.damage });
        (CombatantModel {
            effects: self.effects.update(j, applied.0),
            damage: applied.1.current_damage,
            ..self
        }).with_death_updated()
    }

    /// The first `i` steps of a tick. The first effect in the list is always
    /// applied; after that, processing stops as soon as the combatant is
    /// dead, leaving the later effects untouched.
    pub open spec fn tick_upto(self, i: int) -> Self
        decreases i,
    {
        if i <= 0 {
            self
        } else {
            let q = self.tick_upto(i - 1);
            if i > 1 && q.status == DeathStatus::Dead {
                q
            } else {
                q.tick_step(i - 1)
            }
        }
    }

    /// A full tick: process the effect list in order (stopping early on
    /// death), recompute death once more, and discard every effect whose
    /// duration has reached 0.
    pub open spec fn ticked(self) -> Self {
        let q = self.tick_upto(self.effects.len() as int).with_death_updated();
        CombatantModel { effects: keep_unexpired(q.effects), ..q }
    }

    /// An effect appended to the end of the list; nothing else changes.
    pub open spec fn with_effect(self, effect: Effect) -> Self {
        CombatantModel { effects: self.effects.push(effect), ..self }
    }
}

/// The model after a whole sequence of direct damage applications, in order.
pub open spec fn damaged_seq(m: CombatantModel, damages: Seq<u8>) -> CombatantModel
    decreases damages.len(),
{
    if damages.len() == 0 {
        m
    } else {
        damaged_seq(m.damaged(damages[0]), damages.skip(1))
    }
}

/// The model after a whole sequence of direct heal applications, in order.
pub open spec fn healed_seq(m: CombatantModel, heals: Seq<u8>) -> CombatantModel
    decreases heals.len(),
{
    if heals.len() == 0 {
        m
    } else {
        healed_seq(m.healed(heals[0]), heals.skip(1))
    }
}

/// The death flag agrees with the health arithmetic: a combatant is marked
/// `Dead` exactly when its remaining health is 0.
pub open spec fn death_consistent(m: CombatantModel) -> bool {
    m.status == DeathStatus::Dead <==> m.remaining() == 0
}

/// Remaining health is monotonically non-increasing under any sequence of
/// direct damage applications.
pub proof fn lemma_remaining_health_monotonic_under_damage(m: CombatantModel, damages: Seq<u8>)
    ensures
        damaged_seq(m, damages).remaining() <= m.remaining(),
    decreases damages.len(),
{
    if damages.len() > 0 {
        lemma_remaining_health_monotonic_under_damage(m.damaged(damages[0]), damages.skip(1));
    }
}

/// A freshly created combatant with positive starting health has a
/// consistent death flag.
pub proof fn lemma_fresh_combatant_death_consistent(m: CombatantModel)
    requires
        m.damage == 0,
        m.status == DeathStatus::Alive,
        m.starting_health > 0,
    ensures
        death_consistent(m),
{
}

/// Direct damage keeps the death flag consistent with remaining health.
pub proof fn lemma_death_consistent_after_damage(m: CombatantModel, damage: u8)
    requires
        death_consistent(m),
    ensures
        death_consistent(m.damaged(damage)),
{
}

/// Direct healing keeps the death flag consistent with remaining health: a
/// dead combatant is not healed at all, and a live one stays at positive
/// remaining health.
pub proof fn lemma_death_consistent_after_heal(m: CombatantModel, heal: u8)
    requires
        death_consistent(m),
    ensures
        death_consistent(m.healed(heal)),
{
}

/// Every prefix of a tick on a live, consistent combatant leaves the death
/// flag consistent, and never changes how many effects are held.
proof fn lemma_tick_upto_death_consistent(m: CombatantModel, i: int)
    requires
        death_consistent(m),
        m.status == DeathStatus::Alive,
        i <= m.effects.len(),
    ensures
        death_consistent(m.tick_upto(i)),
        m.tick_upto(i).effects.len() == m.effects.len(),
        m.tick_upto(i).starting_health == m.starting_health,
    decreases i,
{
    if i > 0 {
        lemma_tick_upto_death_consistent(m, i - 1);
    }
}

/// A full effect tick on a live combatant keeps the death flag consistent
/// with remaining health.
pub proof fn lemma_death_consistent_after_tick(m: CombatantModel)
    requires
        death_consistent(m),
        m.status == DeathStatus::Alive,
    ensures
        death_consistent(m.ticked()),
{
    lemma_tick_upto_death_consistent(m, m.effects.len() as int);
}

/// Death is final: no sequence of direct heals changes a dead combatant in
/// any way, and in particular its death flag stays `Dead`.
pub proof fn lemma_death_is_final_under_heals(m: CombatantModel, heals: Seq<u8>)
    requires
        m.status == DeathStatus::Dead,
    ensures
        healed_seq(m, heals) == m,
    decreases heals.len(),
{
    if heals.len() > 0 {
        lemma_death_is_final_under_heals(m, heals.skip(1));
    }
}

/// The effects that survive a cleanup pass: those with a positive duration,
/// in their original order.
pub open spec fn keep_unexpired(s: Seq<Effect>) -> Seq<Effect> {
    s.filter(|e: Effect| e.spec_duration() > 0)
}

/// Once the combatant is dead after step `i`, the later steps of the tick
/// change nothing.
proof fn lemma_tick_upto_frozen_when_dead(m: CombatantModel, i: int, j: int)
    requires
        1 <= i <= j,
        m.tick_upto(i).status == DeathStatus::Dead,
    ensures
        m.tick_upto(j) == m.tick_upto(i),
    decreases j - i,
{
    if j > i {
        lemma_tick_upto_frozen_when_dead(m, i, j - 1);
    }
}

/// Extending a prefix by one element extends its cleanup result by that
/// element exactly when the element is unexpired.
proof fn lemma_keep_unexpired_take_step(s: Seq<Effect>, j: int)
    requires
        0 <= j < s.len(),
    ensures
        keep_unexpired(s.take(j + 1)) == if s[j].spec_duration() > 0 {
            keep_unexpired(s.take(j)).push(s[j])
        } else {
            keep_unexpired(s.take(j))
        },
    decreases j,
{
    reveal(Seq::filter);
    assert(s.take(j + 1).drop_last() =~= s.take(j));
    assert(s.take(j + 1).last() == s[j]);
}

/// A philosopher template bound to live combat state: accumulated damage, the
/// ordered list of active effects, and the sticky death flag.
#[derive(Clone, Debug)]
pub struct InPlayPhilosopher {
    pub philosopher: Philosopher,
    pub damage_counter: DamageCounter,
    pub effects: Vec<Effect>,
    pub death_status: DeathStatus,
}

impl InPlayPhilosopher {
    /// The combat-relevant part of this value, as a mathematical model.
    pub open spec fn model(self) -> CombatantModel {
        CombatantModel {
            starting_health: self.philosopher.starting_health,
            damage: self.damage_counter.current_damage,
            status: self.death_status,
            effects: self.effects@,
        }
    }

    pub open spec fn spec_remaining_health(self) -> u8 {
        self.model().remaining()
    }

    pub fn new(philosopher: Philosopher) -> (r: Self)
        ensures
            r.philosopher == philosopher,
            r.model() == CombatantModel::fresh(philosopher),
    {
        let r = InPlayPhilosopher {
            philosopher,
            damage_counter: DamageCounter { current_damage: 0 },
            effects: Vec::new(),
            death_status: DeathStatus::Alive,
        };
        proof {
            assert(r.effects@ =~= Seq::<Effect>::empty());
            assert(r.model() =~= CombatantModel::fresh(philosopher));
        }
        r
    }

    pub fn remaining_health(&self) -> (r: u8)
        ensures
            r == self.spec_remaining_health(),
    {
        self.philosopher.starting_health.saturating_sub(self.damage_counter.current_damage)
    }

    pub fn is_dead(&self) -> (r: bool)
        ensures
            r == (self.spec_remaining_health() == 0),
    {
        self.remaining_health() == 0
    }

    fn update_death(&mut self)
        ensures
            final(self).model() == old(self).model().with_death_updated(),
            final(self).philosopher == old(self).philosopher,
            final(self).damage_counter == old(self).damage_counter,
            final(self).effects == old(self).effects,
    {
        if self.is_dead() {
            self.death_status = DeathStatus::Dead;
        }
        proof {
            assert(self.model() =~= old(self).model().with_death_updated());
        }
    }

    pub fn add_effect(&mut self, effect: Effect)
        ensures
            final(self).model() == old(self).model().with_effect(effect),
            final(self).philosopher == old(self).philosopher,
    {
        self.effects.push(effect);
        proof {
            assert(self.model() =~= old(self).model().with_effect(effect));
        }
    }

    /// Applies every currently held effect once, in the order they were
    /// added, recomputing death after each application; as soon as the
    /// combatant is dead, the remaining effects are left untouched for this
    /// tick. Afterwards every effect whose duration reached 0 is discarded.
    pub fn apply_existing_effects(&mut self)
        ensures
            final(self).model() == old(self).model().ticked(),
            final(self).philosopher == old(self).philosopher,
    {
        let ghost m0 = self.model();
        let n = self.effects.len();
        let mut i: usize = 0;
        let mut stop = false;
        while i < n && !stop
            invariant
                n == self.effects.len(),
                i <= n,
                self.philosopher == old(self).philosopher,
                m0 == old(self).model(),
                self.model() == m0.tick_upto(i as int),
                stop == (i > 0 && self.death_status == DeathStatus::Dead),
            decreases n - i,
        {
            let ghost q = self.model();
            let mut e = self.effects[i];
            e.apply(&mut self.damage_counter);
            self.effects[i] = e;
            self.update_death();
            if self.death_status == DeathStatus::Dead {
                stop = true;
            }
            proof {
                assert(self.model() =~= q.tick_step(i as int));
                assert(self.model() =~= m0.tick_upto(i as int + 1));
            }
            i = i + 1;
        }
        proof {
            if stop {
                lemma_tick_upto_frozen_when_dead(m0, i as int, n as int);
            }
            assert(self.model() == m0.tick_upto(n as int));
        }
        self.update_death();
        let ghost q = self.model();
        let ghost s1 = *self;
        let mut kept: Vec<Effect> = Vec::new();
        let mut j: usize = 0;
        while j < self.effects.len()
            invariant
                *self == s1,
                j <= self.effects.len(),
                kept@ == keep_unexpired(self.effects@.take(j as int)),
            decreases self.effects.len() - j,
        {
            let e = self.effects[j];
            proof {
                lemma_keep_unexpired_take_step(self.effects@, j as int);
            }
            if e.duration() > 0 {
                kept.push(e);
            }
            j = j + 1;
        }
        proof {
            assert(self.effects@.take(self.effects@.len() as int) =~= self.effects@);
        }
        self.effects = kept;
        proof {
            assert(self.model() =~= (CombatantModel { effects: keep_unexpired(q.effects), ..q }));
            assert(self.model() =~= m0.ticked());
        }
    }

    pub fn apply_direct_heal(&mut self, heal: u8)
        ensures
            final(self).model() == old(self).model().healed(heal),
            final(self).philosopher == old(self).philosopher,
    {
        if self.death_status == DeathStatus::Alive {
            self.damage_counter.apply_heal(heal);
        }
        proof {
            assert(self.model() =~= old(self).model().healed(heal));
        }
    }

    pub fn apply_direct_damage(&mut self, damage: u8)
        ensures
            final(self).model() == old(self).model().damaged(damage),
            final(self).philosopher == old(self).philosopher,
            final(self).spec_remaining_health() <= old(self).spec_remaining_health(),
    {
        self.damage_counter.apply_damage(damage);
        self.update_death();
        proof {
            assert(self.model() =~= old(self).model().damaged(damage));
        }
    }
}

} // verus!
