//! Movement models: which locomotion and orientation combinations each model
//! allows and how its turn rate is limited. `R` is the caller's rate type.
use vstd::prelude::*;

verus! {

/// Locomotion state used by the constraint tables.
#[derive(Clone, Copy, Debug, PartialEq, Eq, Structural, Hash)]
pub enum Locomotion {
    Stationary,
    Moving,
    Stopping,
    Reversing,
}

/// Orientation state used by the constraint tables.
#[derive(Clone, Copy, Debug, PartialEq, Eq, Structural, Hash)]
pub enum Orientation {
    Turning,
    Maintaining,
}

/// Turn rate limit of a locomotion and orientation combination.
#[derive(Clone, Copy, Debug, PartialEq)]
pub enum TurnRateConstraint<R> {
    /// The combination is not allowed by the model.
    Invalid,
    /// Allowed, without turning.
    Valid,
    /// Turning at most at this rate.
    FixedRate(R),
    /// The limit depends on the current speed.
    SpeedDependent,
    /// No limit.
    Unconstrained,
}

/// Infantry and mechs: turn at a fixed rate.
#[derive(Clone, Copy, Debug)]
pub struct TurnRateMovementParams<R> {
    pub turn_rate: R,
    pub acceleration: R,
    pub deceleration: R,
    pub max_speed: R,
}

/// Wheeled vehicles: a minimum turn radius.
#[derive(Clone, Copy, Debug)]
pub struct FixedTurnRadiusMovementParams<R> {
    pub minimum_turn_radius: R,
    pub forward_acceleration: R,
    pub forward_max_speed: R,
    pub reverse_acceleration: R,
    pub reverse_max_speed: R,
    pub deceleration: R,
}

/// Tracked vehicles and drill units: turn radius grows with speed.
#[derive(Clone, Copy, Debug)]
pub struct SpeedTurnRadiusMovementParams<R> {
    pub speed_to_turn_radius_ratio: R,
    pub acceleration: R,
    pub deceleration: R,
    pub max_speed: R,
}

/// Hover vehicles and hovercraft: drifting under drag.
#[derive(Clone, Copy, Debug)]
pub struct DragMovementParams<R> {
    pub forward_acceleration: R,
    pub non_forward_acceleration: R,
    pub drag_ratio: R,
    pub turn_rate: R,
}

/// Gliders: always moving, turning limited by centripetal acceleration.
#[derive(Clone, Copy, Debug)]
pub struct GliderMovementParams<R> {
    pub idle_speed: R,
    pub max_speed: R,
    pub acceleration: R,
    pub deceleration: R,
    pub max_centripetal_acceleration: R,
}

/// Parameters of any movement model.
#[derive(Clone, Copy, Debug)]
pub enum MovementParams<R> {
    TurnRate(TurnRateMovementParams<R>),
    FixedTurnRadius(FixedTurnRadiusMovementParams<R>),
    SpeedTurnRadius(SpeedTurnRadiusMovementParams<R>),
    Drag(DragMovementParams<R>),
    Glider(GliderMovementParams<R>),
}

/// Fixed-rate models (turn rate and drag): reversing is not allowed, holding
/// facing is, and turning goes at the fixed rate.
pub open spec fn fixed_rate_table<R>(rate: R, loco: Locomotion, orient: Orientation) -> TurnRateConstraint<R> {
    if loco == Locomotion::Reversing {
        TurnRateConstraint::Invalid
    } else if orient == Orientation::Maintaining {
        TurnRateConstraint::Valid
    } else {
        TurnRateConstraint::FixedRate(rate)
    }
}

impl<R: Copy> TurnRateMovementParams<R> {
    /// The turn rate limit of a combination (see `fixed_rate_table`).
    pub fn locomotion_orientation_constraint(&self, loco: Locomotion, orient: Orientation) -> (r: TurnRateConstraint<R>)
        ensures
            r == fixed_rate_table(self.turn_rate, loco, orient),
    {
        match (loco, orient) {
            (Locomotion::Reversing, _) => TurnRateConstraint::Invalid,
            (_, Orientation::Maintaining) => TurnRateConstraint::Valid,
            (_, Orientation::Turning) => TurnRateConstraint::FixedRate(self.turn_rate),
        }
    }
}

impl<R: Copy> FixedTurnRadiusMovementParams<R> {
    /// Holding facing is always allowed; turning needs motion, and its rate
    /// then depends on the speed.
    pub fn locomotion_orientation_constraint(&self, loco: Locomotion, orient: Orientation) -> (r: TurnRateConstraint<R>)
        ensures
            r == if orient == Orientation::Maintaining {
                TurnRateConstraint::<R>::Valid
            } else if loco == Locomotion::Stationary || loco == Locomotion::Stopping {
                TurnRateConstraint::Invalid
            } else {
                TurnRateConstraint::SpeedDependent
            },
    {
        match (loco, orient) {
            (_, Orientation::Maintaining) => TurnRateConstraint::Valid,
            (Locomotion::Stationary, Orientation::Turning) => TurnRateConstraint::Invalid,
            (Locomotion::Stopping, Orientation::Turning) => TurnRateConstraint::Invalid,
            (Locomotion::Moving, Orientation::Turning) => TurnRateConstraint::SpeedDependent,
            (Locomotion::Reversing, Orientation::Turning) => TurnRateConstraint::SpeedDependent,
        }
    }
}

impl<R: Copy> SpeedTurnRadiusMovementParams<R> {
    /// Holding facing is always allowed; turning on the spot is unlimited,
    /// turning in motion depends on the speed.
    pub fn locomotion_orientation_constraint(&self, loco: Locomotion, orient: Orientation) -> (r: TurnRateConstraint<R>)
        ensures
            r == if orient == Orientation::Maintaining {
                TurnRateConstraint::<R>::Valid
            } else if loco == Locomotion::Stationary || loco == Locomotion::Stopping {
                TurnRateConstraint::Unconstrained
            } else {
                TurnRateConstraint::SpeedDependent
            },
    {
        match (loco, orient) {
            (_, Orientation::Maintaining) => TurnRateConstraint::Valid,
            (Locomotion::Stationary, Orientation::Turning) => TurnRateConstraint::Unconstrained,
            (Locomotion::Stopping, Orientation::Turning) => TurnRateConstraint::Unconstrained,
            (Locomotion::Moving, Orientation::Turning) => TurnRateConstraint::SpeedDependent,
            (Locomotion::Reversing, Orientation::Turning) => TurnRateConstraint::SpeedDependent,
        }
    }
}

impl<R: Copy> DragMovementParams<R> {
    /// The turn rate limit of a combination (see `fixed_rate_table`).
    pub fn locomotion_orientation_constraint(&self, loco: Locomotion, orient: Orientation) -> (r: TurnRateConstraint<R>)
        ensures
            r == fixed_rate_table(self.turn_rate, loco, orient),
    {
        match (loco, orient) {
            (Locomotion::Reversing, _) => TurnRateConstraint::Invalid,
            (_, Orientation::Maintaining) => TurnRateConstraint::Valid,
            (_, Orientation::Turning) => TurnRateConstraint::FixedRate(self.turn_rate),
        }
    }
}

impl<R: Copy> GliderMovementParams<R> {
    /// A glider must be moving: holding facing is allowed then, and turning
    /// depends on the speed; nothing else is allowed.
    pub fn locomotion_orientation_constraint(&self, loco: Locomotion, orient: Orientation) -> (r: TurnRateConstraint<R>)
        ensures
            r == if loco != Locomotion::Moving {
                TurnRateConstraint::<R>::Invalid
            } else if orient == Orientation::Maintaining {
                TurnRateConstraint::Valid
            } else {
                TurnRateConstraint::SpeedDependent
            },
    {
        match (loco, orient) {
            (Locomotion::Moving, Orientation::Maintaining) => TurnRateConstraint::Valid,
            (Locomotion::Moving, Orientation::Turning) => TurnRateConstraint::SpeedDependent,
            _ => TurnRateConstraint::Invalid,
        }
    }
}

} // verus!
