//! Combat rules: attack kinds and domains, target validity, the attack
//! phase cycle, and how attack phases drive a unit's action channels.
use vstd::prelude::*;
use crate::fog::VisibilityStateEnum;
use crate::objects::EntityId;
use crate::units::DomainEnum;

verus! {

/// How an attack reaches its target.
#[derive(Clone, Copy, Debug, PartialEq, Eq, Structural, Hash)]
pub enum AttackTypeEnum {
    /// Instant hit on the target.
    FullyConnected,
    /// Instant area effect at the target.
    HeadDisjointed,
    /// Projectile that can miss.
    TailDisjointed,
    /// Projectile with an area effect.
    DoublyDisjointed,
}

impl AttackTypeEnum {
    /// Whether the attack can miss: only projectile attacks can.
    pub fn can_miss(&self) -> (r: bool)
        ensures
            r == (*self == AttackTypeEnum::TailDisjointed || *self == AttackTypeEnum::DoublyDisjointed),
    {
        match self {
            AttackTypeEnum::TailDisjointed | AttackTypeEnum::DoublyDisjointed => true,
            _ => false,
        }
    }

    /// Whether the attack can target the ground.
    pub fn can_target_ground(&self) -> (r: bool)
        ensures
            r == (*self == AttackTypeEnum::TailDisjointed || *self == AttackTypeEnum::DoublyDisjointed),
    {
        match self {
            AttackTypeEnum::TailDisjointed | AttackTypeEnum::DoublyDisjointed => true,
            _ => false,
        }
    }

    /// Whether the attack needs a projectile speed.
    pub fn requires_projectile_speed(&self) -> (r: bool)
        ensures
            r == (*self == AttackTypeEnum::HeadDisjointed || *self == AttackTypeEnum::DoublyDisjointed),
    {
        match self {
            AttackTypeEnum::HeadDisjointed | AttackTypeEnum::DoublyDisjointed => true,
            _ => false,
        }
    }

    /// Whether the attack may target a location.
    pub fn allows_location_target(&self) -> (r: bool)
        ensures
            r == (*self == AttackTypeEnum::TailDisjointed || *self == AttackTypeEnum::DoublyDisjointed),
    {
        match self {
            AttackTypeEnum::TailDisjointed | AttackTypeEnum::DoublyDisjointed => true,
            _ => false,
        }
    }
}

/// Subtype of a fully connected attack.
#[derive(Clone, Copy, Debug, PartialEq, Eq, Structural, Hash)]
pub enum FullyConnectedSubtype {
    Ranged,
    Melee,
}

/// Domains an attack can hit.
#[derive(Clone, Copy, Debug, PartialEq, Eq, Structural, Hash)]
pub enum TargetDomainEnum {
    Ground,
    Air,
    Universal,
}

/// Whether an attack hits one target or an area.
#[derive(Clone, Copy, Debug, PartialEq, Eq, Structural, Hash)]
pub enum TargetTypeEnum {
    SingleTarget,
    AreaOfEffect,
}

/// An attack of the given target domain can hit a unit of the given domain.
pub open spec fn domain_compatible(attack: TargetDomainEnum, unit: DomainEnum) -> bool {
    match attack {
        TargetDomainEnum::Ground => unit == DomainEnum::Ground || unit == DomainEnum::Underground,
        TargetDomainEnum::Air => unit == DomainEnum::Air,
        TargetDomainEnum::Universal => true,
    }
}

/// Whether the attack domain can hit the unit's domain: ground attacks hit
/// ground and surfaced underground units, air attacks air units, universal
/// attacks everything.
pub fn is_domain_compatible(attack_domain: &TargetDomainEnum, unit_domain: &DomainEnum) -> (r: bool)
    ensures
        r == domain_compatible(*attack_domain, *unit_domain),
{
    match attack_domain {
        TargetDomainEnum::Ground => match unit_domain {
            DomainEnum::Ground | DomainEnum::Underground => true,
            _ => false,
        },
        TargetDomainEnum::Air => match unit_domain {
            DomainEnum::Air => true,
            _ => false,
        },
        TargetDomainEnum::Universal => true,
    }
}

/// Whether a target may be attacked: destructible, visible to the attacker,
/// and in a domain the attack can hit. Range and arc are checked elsewhere.
pub fn is_valid_target(
    target_destructible: bool,
    target_visibility: &VisibilityStateEnum,
    target_domain: &DomainEnum,
    attacker_domain: &TargetDomainEnum,
) -> (r: bool)
    ensures
        r == (target_destructible && *target_visibility == VisibilityStateEnum::Visible && domain_compatible(
            *attacker_domain,
            *target_domain,
        )),
{
    if !target_destructible {
        return false;
    }
    if *target_visibility != VisibilityStateEnum::Visible {
        return false;
    }
    is_domain_compatible(attacker_domain, target_domain)
}

/// Whether a target threatens a defender: it has an attack (of the given
/// target domain) that can hit the defender's domain.
pub fn can_threaten(target_attack_domain: Option<TargetDomainEnum>, defender_domain: &DomainEnum) -> (r: bool)
    ensures
        r == match target_attack_domain {
            Some(d) => domain_compatible(d, *defender_domain),
            None => false,
        },
{
    match target_attack_domain {
        Some(d) => is_domain_compatible(&d, defender_domain),
        None => false,
    }
}

/// A universal attack hits whatever any other attack hits.
pub proof fn law_universal_dominates(attack: TargetDomainEnum, unit: DomainEnum)
    requires
        domain_compatible(attack, unit),
    ensures
        domain_compatible(TargetDomainEnum::Universal, unit),
{
}

/// No unit is hit by both ground and air attacks.
pub proof fn law_ground_air_disjoint(unit: DomainEnum)
    ensures
        !(domain_compatible(TargetDomainEnum::Ground, unit) && domain_compatible(TargetDomainEnum::Air, unit)),
{
}

// === Attack phases ===

/// Phase of a unit's attack cycle.
#[derive(Clone, Copy, Debug, PartialEq, Eq, Structural, Hash)]
pub enum AttackPhase {
    Idle,
    Aiming,
    Firing,
    Cooldown,
    Reloading,
}

impl AttackPhase {
    /// Whether a new target may interrupt the phase: not while firing or cooling down.
    pub fn is_interruptible(&self) -> (r: bool)
        ensures
            r == !(*self == AttackPhase::Firing || *self == AttackPhase::Cooldown),
    {
        match self {
            AttackPhase::Firing | AttackPhase::Cooldown => false,
            _ => true,
        }
    }
}

/// Whether an attack command's target is taken: when there is no target yet
/// or the current phase is interruptible (the target must exist).
pub fn accepts_attack_command(target_exists: bool, has_target: bool, phase: AttackPhase) -> (r: bool)
    ensures
        r == (target_exists && (!has_target || !(phase == AttackPhase::Firing || phase == AttackPhase::Cooldown))),
{
    target_exists && (!has_target || phase.is_interruptible())
}

/// Whether a unit keeps attacking its target: the target exists and is an
/// enemy, or the unit was explicitly ordered to attack it.
pub fn keeps_target(target_exists: bool, force_attack: bool, target_is_enemy: bool) -> (r: bool)
    ensures
        r == (target_exists && (force_attack || target_is_enemy)),
{
    target_exists && (force_attack || target_is_enemy)
}

/// One step of the attack cycle.
#[derive(Clone, Copy, Debug, PartialEq, Eq, Structural)]
pub struct PhaseStep {
    /// The phase after the step.
    pub phase: AttackPhase,
    /// The time in phase restarts.
    pub reset_timer: bool,
    /// The attack fires this frame.
    pub fire: bool,
    /// An area attack takes the target's current location as its target.
    pub snapshot_location: bool,
}

/// The attack cycle: out of range it waits, in range it aims; aiming done it
/// fires (area attacks fix the target location); firing done it cools down,
/// then reloads, then aims again if still in range. `phase_done` says the
/// time in phase reached the phase's duration; `first_frame` that this is the
/// first frame of the phase.
pub open spec fn phase_step(
    phase: AttackPhase,
    in_range: bool,
    phase_done: bool,
    first_frame: bool,
    area_attack: bool,
) -> PhaseStep {
    match phase {
        AttackPhase::Idle => if in_range {
            PhaseStep { phase: AttackPhase::Aiming, reset_timer: true, fire: false, snapshot_location: false }
        } else {
            PhaseStep { phase: AttackPhase::Idle, reset_timer: false, fire: false, snapshot_location: false }
        },
        AttackPhase::Aiming => if !in_range {
            PhaseStep { phase: AttackPhase::Idle, reset_timer: false, fire: false, snapshot_location: false }
        } else if phase_done {
            PhaseStep { phase: AttackPhase::Firing, reset_timer: true, fire: false, snapshot_location: area_attack }
        } else {
            PhaseStep { phase: AttackPhase::Aiming, reset_timer: false, fire: false, snapshot_location: false }
        },
        AttackPhase::Firing => if phase_done {
            PhaseStep { phase: AttackPhase::Cooldown, reset_timer: true, fire: first_frame, snapshot_location: false }
        } else {
            PhaseStep { phase: AttackPhase::Firing, reset_timer: false, fire: first_frame, snapshot_location: false }
        },
        AttackPhase::Cooldown => if phase_done {
            PhaseStep { phase: AttackPhase::Reloading, reset_timer: true, fire: false, snapshot_location: false }
        } else {
            PhaseStep { phase: AttackPhase::Cooldown, reset_timer: false, fire: false, snapshot_location: false }
        },
        AttackPhase::Reloading => if phase_done {
            PhaseStep {
                phase: if in_range {
                    AttackPhase::Aiming
                } else {
                    AttackPhase::Idle
                },
                reset_timer: in_range,
                fire: false,
                snapshot_location: false,
            }
        } else {
            PhaseStep { phase: AttackPhase::Reloading, reset_timer: false, fire: false, snapshot_location: false }
        },
    }
}

/// One frame of a unit's attack cycle (see `phase_step`).
pub fn attack_phase_step(
    phase: AttackPhase,
    in_range: bool,
    phase_done: bool,
    first_frame: bool,
    area_attack: bool,
) -> (r: PhaseStep)
    ensures
        r == phase_step(phase, in_range, phase_done, first_frame, area_attack),
{
    match phase {
        AttackPhase::Idle => if in_range {
            PhaseStep { phase: AttackPhase::Aiming, reset_timer: true, fire: false, snapshot_location: false }
        } else {
            PhaseStep { phase: AttackPhase::Idle, reset_timer: false, fire: false, snapshot_location: false }
        },
        AttackPhase::Aiming => if !in_range {
            PhaseStep { phase: AttackPhase::Idle, reset_timer: false, fire: false, snapshot_location: false }
        } else if phase_done {
            PhaseStep { phase: AttackPhase::Firing, reset_timer: true, fire: false, snapshot_location: area_attack }
        } else {
            PhaseStep { phase: AttackPhase::Aiming, reset_timer: false, fire: false, snapshot_location: false }
        },
        AttackPhase::Firing => if phase_done {
            PhaseStep { phase: AttackPhase::Cooldown, reset_timer: true, fire: first_frame, snapshot_location: false }
        } else {
            PhaseStep { phase: AttackPhase::Firing, reset_timer: false, fire: first_frame, snapshot_location: false }
        },
        AttackPhase::Cooldown => if phase_done {
            PhaseStep { phase: AttackPhase::Reloading, reset_timer: true, fire: false, snapshot_location: false }
        } else {
            PhaseStep { phase: AttackPhase::Cooldown, reset_timer: false, fire: false, snapshot_location: false }
        },
        AttackPhase::Reloading => if phase_done {
            PhaseStep {
                phase: if in_range {
                    AttackPhase::Aiming
                } else {
                    AttackPhase::Idle
                },
                reset_timer: in_range,
                fire: false,
                snapshot_location: false,
            }
        } else {
            PhaseStep { phase: AttackPhase::Reloading, reset_timer: false, fire: false, snapshot_location: false }
        },
    }
}

/// The cycle only fires in the firing phase; a phase that is entered starts
/// with its timer reset, except a fall back to idle, which never resets it;
/// once started, firing and cooling down run to their end whatever the range.
pub proof fn law_phase_cycle(phase: AttackPhase, in_range: bool, phase_done: bool, first_frame: bool, area_attack: bool)
    ensures
        phase_step(phase, in_range, phase_done, first_frame, area_attack).fire ==> phase == AttackPhase::Firing,
        phase_step(phase, in_range, phase_done, first_frame, area_attack).phase != phase ==> phase_step(
            phase,
            in_range,
            phase_done,
            first_frame,
            area_attack,
        ).reset_timer || phase_step(phase, in_range, phase_done, first_frame, area_attack).phase
            == AttackPhase::Idle,
        phase_step(phase, in_range, phase_done, first_frame, area_attack).phase == AttackPhase::Idle
            ==> !phase_step(phase, in_range, phase_done, first_frame, area_attack).reset_timer,
        (phase == AttackPhase::Firing || phase == AttackPhase::Cooldown) ==> phase_step(
            phase,
            true,
            phase_done,
            first_frame,
            area_attack,
        ) == phase_step(phase, false, phase_done, first_frame, area_attack),
{
}

/// A phase with a duration is left only once it is done: while aiming in
/// range, firing, cooling down or reloading is not done, the step keeps the
/// phase and its running timer, and nothing but the shot of the first firing
/// frame happens.
pub proof fn law_phase_held_until_done(
    phase: AttackPhase,
    in_range: bool,
    first_frame: bool,
    area_attack: bool,
)
    requires
        phase == AttackPhase::Firing || phase == AttackPhase::Cooldown || phase == AttackPhase::Reloading || (phase
            == AttackPhase::Aiming && in_range),
    ensures
        phase_step(phase, in_range, false, first_frame, area_attack).phase == phase,
        !phase_step(phase, in_range, false, first_frame, area_attack).reset_timer,
        !phase_step(phase, in_range, false, first_frame, area_attack).snapshot_location,
        phase_step(phase, in_range, false, first_frame, area_attack).fire == (phase == AttackPhase::Firing
            && first_frame),
{
}

/// A finished cooling down always moves on to reloading, and a finished
/// reload in range starts aiming again, each with its timer restarted.
pub proof fn law_phase_done_moves_on(first_frame: bool, area_attack: bool, in_range: bool)
    ensures
        phase_step(AttackPhase::Cooldown, in_range, true, first_frame, area_attack).phase == AttackPhase::Reloading,
        phase_step(AttackPhase::Cooldown, in_range, true, first_frame, area_attack).reset_timer,
        phase_step(AttackPhase::Reloading, true, true, first_frame, area_attack).phase == AttackPhase::Aiming,
        phase_step(AttackPhase::Reloading, true, true, first_frame, area_attack).reset_timer,
{
}

// === Attack state ===

/// What a unit attacks: an entity, or a location `P`.
#[derive(Clone, Copy, Debug, PartialEq, Eq, Structural)]
pub enum AttackTarget<P> {
    UnitTarget(EntityId),
    LocationTarget(P),
}

/// A unit's current attack: its target, if any, the phase of its cycle, and
/// the location an area attack fixed when its aiming ended. The unit target
/// stays set beside that location, so the unit keeps tracking it. The time
/// spent in the phase is kept by the caller, who restarts it where a step
/// says so.
#[derive(Clone, Copy, Debug, PartialEq, Eq, Structural)]
pub struct AttackState<P> {
    pub current_target: Option<AttackTarget<P>>,
    pub location_snapshot: Option<P>,
    pub phase: AttackPhase,
}

/// The location a state attacks: a location target, else the fixed snapshot.
pub open spec fn attacked_location<P>(s: AttackState<P>) -> Option<P> {
    match s.current_target {
        Some(AttackTarget::LocationTarget(l)) => Some(l),
        _ => s.location_snapshot,
    }
}

/// What an attack does when it goes off.
#[derive(Clone, Copy, Debug, PartialEq, Eq, Structural)]
pub enum AttackEffect<P> {
    /// A fully connected hit: damage on the target entity at once.
    SingleTarget(EntityId),
    /// A projectile that follows the target entity.
    HomingProjectile(EntityId),
    /// An area effect at the location, with a projectile that does not travel.
    AreaAt(P),
    /// A projectile to the location, with an area effect where it lands.
    ProjectileTo(P),
}

/// The effect an attack of the given type has when it fires at the entity
/// `target` with the attacked location `location`: area attacks need the
/// location and do nothing without it.
pub open spec fn attack_effect<P>(attack_type: AttackTypeEnum, target: EntityId, location: Option<P>) -> Option<
    AttackEffect<P>,
> {
    match attack_type {
        AttackTypeEnum::FullyConnected => Some(AttackEffect::SingleTarget(target)),
        AttackTypeEnum::TailDisjointed => Some(AttackEffect::HomingProjectile(target)),
        AttackTypeEnum::HeadDisjointed => match location {
            Some(l) => Some(AttackEffect::AreaAt(l)),
            None => None,
        },
        AttackTypeEnum::DoublyDisjointed => match location {
            Some(l) => Some(AttackEffect::ProjectileTo(l)),
            None => None,
        },
    }
}

/// An area attack fixes its target location when it fires.
pub open spec fn is_area_attack(attack_type: AttackTypeEnum) -> bool {
    attack_type == AttackTypeEnum::HeadDisjointed || attack_type == AttackTypeEnum::DoublyDisjointed
}

/// One frame of the attack cycle: the step taken and the effect produced.
#[derive(Clone, Copy, Debug, PartialEq, Eq, Structural)]
pub struct AttackFrame<P> {
    pub step: PhaseStep,
    pub effect: Option<AttackEffect<P>>,
}

/// One frame of the attack cycle (see `AttackState::attack_frame`): the new
/// state and what the frame yields.
pub open spec fn attack_frame_spec<P>(
    s: AttackState<P>,
    target_exists: bool,
    force_attack: bool,
    target_is_enemy: bool,
    in_range: bool,
    phase_done: bool,
    first_frame: bool,
    attack_type: AttackTypeEnum,
    target_location: P,
) -> (AttackState<P>, Option<AttackFrame<P>>) {
    match s.current_target {
        Some(AttackTarget::UnitTarget(e)) => if !(target_exists && (force_attack || target_is_enemy)) {
            (AttackState { current_target: None, location_snapshot: None, phase: AttackPhase::Idle }, None)
        } else {
            let step = phase_step(s.phase, in_range, phase_done, first_frame, is_area_attack(attack_type));
            let snapshot = if step.snapshot_location {
                Some(target_location)
            } else {
                s.location_snapshot
            };
            (
                AttackState { current_target: s.current_target, location_snapshot: snapshot, phase: step.phase },
                Some(
                    AttackFrame {
                        step,
                        effect: if step.fire {
                            attack_effect(attack_type, e, snapshot)
                        } else {
                            None
                        },
                    },
                ),
            )
        },
        _ => (s, None),
    }
}

impl<P: Copy> AttackState<P> {
    /// No target, idle.
    pub fn new() -> (r: Self)
        ensures
            r.current_target is None,
            r.location_snapshot is None,
            r.phase == AttackPhase::Idle,
    {
        AttackState { current_target: None, location_snapshot: None, phase: AttackPhase::Idle }
    }

    /// The entity attacked, if the target is an entity.
    pub fn target_entity(&self) -> (r: Option<EntityId>)
        ensures
            r == match self.current_target {
                Some(AttackTarget::UnitTarget(e)) => Some(e),
                _ => None::<EntityId>,
            },
    {
        match self.current_target {
            Some(AttackTarget::UnitTarget(e)) => Some(e),
            _ => None,
        }
    }

    /// The location attacked: that of a location target, else the location an
    /// area attack fixed.
    pub fn target_location(&self) -> (r: Option<P>)
        ensures
            r == attacked_location(*self),
    {
        match self.current_target {
            Some(AttackTarget::LocationTarget(l)) => Some(l),
            _ => self.location_snapshot,
        }
    }

    /// An order to attack `target` (which exists when `target_exists`): taken
    /// when the unit has no target entity or its phase is interruptible, and
    /// then the target is set and the cycle starts over from idle with its
    /// time restarted. Returns whether it was taken; otherwise nothing changes.
    pub fn command_attack(&mut self, target: EntityId, target_exists: bool) -> (r: bool)
        ensures
            r == (target_exists && (!(old(self).current_target matches Some(AttackTarget::UnitTarget(_)))
                || !(old(self).phase == AttackPhase::Firing || old(self).phase == AttackPhase::Cooldown))),
            r ==> *final(self) == (AttackState::<P> {
                current_target: Some(AttackTarget::UnitTarget(target)),
                location_snapshot: None,
                phase: AttackPhase::Idle,
            }),
            !r ==> *final(self) == *old(self),
    {
        let has_target = self.target_entity().is_some();
        if accepts_attack_command(target_exists, has_target, self.phase) {
            self.current_target = Some(AttackTarget::UnitTarget(target));
            self.location_snapshot = None;
            self.phase = AttackPhase::Idle;
            true
        } else {
            false
        }
    }

    /// One frame of the attack cycle of a unit whose target entity is being
    /// tracked. Without a target entity nothing happens (`None`). A target that
    /// is gone, or is no enemy without an explicit order to attack it, is
    /// dropped and the unit goes idle (`None`). Otherwise the cycle takes one
    /// step (`phase_step`): the phase moves on; when aiming ends, an area attack
    /// fixes the target's current location `target_location` beside the unit
    /// target; and on the first frame of firing the attack goes off with the
    /// effect of its type (`attack_effect`). The step and effect are returned.
    pub fn attack_frame(
        &mut self,
        target_exists: bool,
        force_attack: bool,
        target_is_enemy: bool,
        in_range: bool,
        phase_done: bool,
        first_frame: bool,
        attack_type: AttackTypeEnum,
        target_location: P,
    ) -> (r: Option<AttackFrame<P>>)
        ensures
            (*final(self), r) == attack_frame_spec(
                *old(self),
                target_exists,
                force_attack,
                target_is_enemy,
                in_range,
                phase_done,
                first_frame,
                attack_type,
                target_location,
            ),
    {
        let e = match self.target_entity() {
            Some(e) => e,
            None => {
                return None;
            },
        };
        if !keeps_target(target_exists, force_attack, target_is_enemy) {
            self.current_target = None;
            self.location_snapshot = None;
            self.phase = AttackPhase::Idle;
            return None;
        }
        let area = match attack_type {
            AttackTypeEnum::HeadDisjointed | AttackTypeEnum::DoublyDisjointed => true,
            _ => false,
        };
        let step = attack_phase_step(self.phase, in_range, phase_done, first_frame, area);
        self.phase = step.phase;
        if step.snapshot_location {
            self.location_snapshot = Some(target_location);
        }
        let effect = if step.fire {
            match attack_type {
                AttackTypeEnum::FullyConnected => Some(AttackEffect::SingleTarget(e)),
                AttackTypeEnum::TailDisjointed => Some(AttackEffect::HomingProjectile(e)),
                AttackTypeEnum::HeadDisjointed => match self.location_snapshot {
                    Some(l) => Some(AttackEffect::AreaAt(l)),
                    None => None,
                },
                AttackTypeEnum::DoublyDisjointed => match self.location_snapshot {
                    Some(l) => Some(AttackEffect::ProjectileTo(l)),
                    None => None,
                },
            }
        } else {
            None
        };
        Some(AttackFrame { step, effect })
    }
}

/// An area attack at a tracked target fires at the location it fixed: the
/// frame that ends its aiming fixes the target's location and keeps the unit
/// target, and the first frame of firing after it goes off there.
pub proof fn law_area_attack_fires(
    aiming: AttackState<int>,
    target: EntityId,
    attack_type: AttackTypeEnum,
    location: int,
    later_location: int,
)
    requires
        is_area_attack(attack_type),
        aiming.current_target == Some(AttackTarget::<int>::UnitTarget(target)),
        aiming.phase == AttackPhase::Aiming,
    ensures
        ({
            let (fired, first) = attack_frame_spec(aiming, true, false, true, true, true, false, attack_type, location);
            let (after, second) = attack_frame_spec(fired, true, false, true, true, false, true, attack_type, later_location);
            &&& fired.phase == AttackPhase::Firing
            &&& fired.current_target == Some(AttackTarget::<int>::UnitTarget(target))
            &&& first->0.effect is None
            &&& second->0.step.fire
            &&& second->0.effect == Some(
                if attack_type == AttackTypeEnum::HeadDisjointed {
                    AttackEffect::AreaAt(location)
                } else {
                    AttackEffect::ProjectileTo(location)
                },
            )
        }),
{
}

// === Action channels ===

/// The attack channel of a unit without a turret.
#[derive(Clone, Copy, Debug, PartialEq, Eq, Structural)]
pub enum BaseAttackChannel {
    Aiming(EntityId),
    Firing(EntityId),
    Cooldown,
    Reloading,
    Idle,
}

impl Default for BaseAttackChannel {
    fn default() -> (r: Self)
        ensures
            r == BaseAttackChannel::Idle,
    {
        BaseAttackChannel::Idle
    }
}

/// The attack channel of a turret.
#[derive(Clone, Copy, Debug, PartialEq, Eq, Structural)]
pub enum TurretAttackChannel {
    Aiming(EntityId),
    Firing(EntityId),
    Cooldown,
    Reloading,
    Inactive,
}

impl Default for TurretAttackChannel {
    fn default() -> (r: Self)
        ensures
            r == TurretAttackChannel::Inactive,
    {
        TurretAttackChannel::Inactive
    }
}

/// The turret's attack channel for a valid target in range and arc: until
/// the turret is aligned it aims; aligned, it follows the attack phase.
pub fn turret_attack_channel(aligned: bool, phase: AttackPhase, target: EntityId) -> (r: TurretAttackChannel)
    ensures
        r == if !aligned {
            TurretAttackChannel::Aiming(target)
        } else {
            match phase {
                AttackPhase::Aiming | AttackPhase::Idle => TurretAttackChannel::Aiming(target),
                AttackPhase::Firing => TurretAttackChannel::Firing(target),
                AttackPhase::Cooldown => TurretAttackChannel::Cooldown,
                AttackPhase::Reloading => TurretAttackChannel::Reloading,
            }
        },
{
    if !aligned {
        return TurretAttackChannel::Aiming(target);
    }
    match phase {
        AttackPhase::Aiming => TurretAttackChannel::Aiming(target),
        AttackPhase::Firing => TurretAttackChannel::Firing(target),
        AttackPhase::Cooldown => TurretAttackChannel::Cooldown,
        AttackPhase::Reloading => TurretAttackChannel::Reloading,
        AttackPhase::Idle => TurretAttackChannel::Aiming(target),
    }
}

/// What facing the attack phase asks of the unit's body.
#[derive(Clone, Copy, Debug, PartialEq, Eq, Structural)]
pub enum FacingDemand {
    /// Orientation is free.
    Free,
    /// Turn to face the unit target.
    FaceTarget(EntityId),
    /// Turn to face the location target.
    FaceLocation,
    /// Hold the current facing.
    Hold,
}

/// How a unit without a turret's channels follow its attack phase.
#[derive(Clone, Copy, Debug, PartialEq, Eq, Structural)]
pub struct ChannelSync {
    pub base_attack: BaseAttackChannel,
    /// Movement must stop.
    pub stationary: bool,
    pub facing: FacingDemand,
}

/// Channel constraints of an attack phase, for a unit whose target is the
/// entity `target_entity` or else a location (`has_location`): aiming stops
/// the unit and turns it to the target; firing and cooling down stop it and
/// hold its facing; reloading and idling leave it free.
pub fn attack_channel_sync(phase: AttackPhase, target_entity: Option<EntityId>, has_location: bool) -> (r: ChannelSync)
    ensures
        r == match phase {
            AttackPhase::Aiming => match target_entity {
                Some(t) => ChannelSync {
                    base_attack: BaseAttackChannel::Aiming(t),
                    stationary: true,
                    facing: FacingDemand::FaceTarget(t),
                },
                None => if has_location {
                    ChannelSync { base_attack: BaseAttackChannel::Idle, stationary: true, facing: FacingDemand::FaceLocation }
                } else {
                    ChannelSync { base_attack: BaseAttackChannel::Idle, stationary: false, facing: FacingDemand::Free }
                },
            },
            AttackPhase::Firing => ChannelSync {
                base_attack: match target_entity {
                    Some(t) => BaseAttackChannel::Firing(t),
                    None => BaseAttackChannel::Cooldown,
                },
                stationary: true,
                facing: FacingDemand::Hold,
            },
            AttackPhase::Cooldown => ChannelSync {
                base_attack: BaseAttackChannel::Cooldown,
                stationary: true,
                facing: FacingDemand::Hold,
            },
            AttackPhase::Reloading => ChannelSync {
                base_attack: BaseAttackChannel::Reloading,
                stationary: false,
                facing: FacingDemand::Free,
            },
            AttackPhase::Idle => ChannelSync { base_attack: BaseAttackChannel::Idle, stationary: false, facing: FacingDemand::Free },
        },
{
    match phase {
        AttackPhase::Aiming => match target_entity {
            Some(t) => ChannelSync {
                base_attack: BaseAttackChannel::Aiming(t),
                stationary: true,
                facing: FacingDemand::FaceTarget(t),
            },
            None => if has_location {
                ChannelSync { base_attack: BaseAttackChannel::Idle, stationary: true, facing: FacingDemand::FaceLocation }
            } else {
                ChannelSync { base_attack: BaseAttackChannel::Idle, stationary: false, facing: FacingDemand::Free }
            },
        },
        AttackPhase::Firing => ChannelSync {
            base_attack: match target_entity {
                Some(t) => BaseAttackChannel::Firing(t),
                None => BaseAttackChannel::Cooldown,
            },
            stationary: true,
            facing: FacingDemand::Hold,
        },
        AttackPhase::Cooldown => ChannelSync {
            base_attack: BaseAttackChannel::Cooldown,
            stationary: true,
            facing: FacingDemand::Hold,
        },
        AttackPhase::Reloading => ChannelSync {
            base_attack: BaseAttackChannel::Reloading,
            stationary: false,
            facing: FacingDemand::Free,
        },
        AttackPhase::Idle => ChannelSync { base_attack: BaseAttackChannel::Idle, stationary: false, facing: FacingDemand::Free },
    }
}

/// What the idle leash does to a unit that auto-engaged from an idle origin.
#[derive(Clone, Copy, Debug, PartialEq, Eq, Structural)]
pub enum LeashAction {
    /// Chased too far: reset the attack state and go idle where it stands.
    Disengage,
    /// Target lost and no attack running: forget the origin, stay idle.
    ForgetOrigin,
    /// Keep engaging.
    Keep,
}

/// The idle leash: a unit further than the leash distance from where it
/// started (`beyond_leash`) disengages; otherwise one with no unit target
/// and an idle attack phase forgets its origin.
pub fn idle_leash_action(beyond_leash: bool, has_target_entity: bool, phase: AttackPhase) -> (r: LeashAction)
    ensures
        r == if beyond_leash {
            LeashAction::Disengage
        } else if !has_target_entity && phase == AttackPhase::Idle {
            LeashAction::ForgetOrigin
        } else {
            LeashAction::Keep
        },
{
    if beyond_leash {
        LeashAction::Disengage
    } else if !has_target_entity && phase == AttackPhase::Idle {
        LeashAction::ForgetOrigin
    } else {
        LeashAction::Keep
    }
}

/// Whether the base auto-targeting runs for a unit, and how: `Some(true)`
/// for an idle unit (it scans its sight range), `Some(false)` for one holding
/// position (it scans its weapon range), `None` for any other command or a
/// unit that already has a target.
pub fn auto_target_mode(has_target: bool, idle: bool, holding_position: bool) -> (r: Option<bool>)
    ensures
        r == if has_target {
            None
        } else if idle {
            Some(true)
        } else if holding_position {
            Some(false)
        } else {
            None
        },
{
    if has_target {
        None
    } else if idle {
        Some(true)
    } else if holding_position {
        Some(false)
    } else {
        None
    }
}

} // verus!
