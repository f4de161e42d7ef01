use vstd::prelude::*;

verus! {

/// How many heights a step-up tries, evenly spaced up to the largest step.
pub const STEP_UP_PROBES: usize = 10;

/// What the solver does with the displacement when it meets one contact.
#[derive(Clone, Copy, Debug, PartialEq, Eq, Structural)]
pub enum ContactResponse {
    /// Probe for a step above a wall first; cancel if none clears.
    TryStepUp,
    /// Cancel the part of the displacement that goes into the surface.
    Cancel,
    /// Leave the displacement as it is.
    Keep,
}

/// A contact that is not ground-like, met while moving into it by an entity
/// that was grounded at the start of the tick, is a wall to step over; any
/// other contact moved into is cancelled; one moved away from is left alone.
pub open spec fn contact_response_spec(
    ground_like: bool,
    moving_into: bool,
    was_grounded: bool,
) -> ContactResponse {
    if !ground_like && moving_into && was_grounded {
        ContactResponse::TryStepUp
    } else if moving_into {
        ContactResponse::Cancel
    } else {
        ContactResponse::Keep
    }
}

/// Decides how one contact acts on the displacement. `ground_like` says that
/// the contact normal points up steeply enough to stand on, `moving_into` that
/// the displacement projects negatively onto it.
pub fn contact_response(ground_like: bool, moving_into: bool, was_grounded: bool) -> (r:
    ContactResponse)
    ensures
        r == contact_response_spec(ground_like, moving_into, was_grounded),
{
    if !ground_like && moving_into && was_grounded {
        ContactResponse::TryStepUp
    } else if moving_into {
        ContactResponse::Cancel
    } else {
        ContactResponse::Keep
    }
}

/// The index of the lowest probe that is not blocked, if any: `blocked[k]`
/// says whether the collider raised to the height of probe k still meets
/// something.
pub fn first_clear_probe(blocked: &Vec<bool>) -> (r: Option<usize>)
    ensures
        match r {
            Some(k) => k < blocked@.len() && !blocked@[k as int] && forall|j: int|
                0 <= j < k ==> blocked@[j],
            None => forall|j: int| 0 <= j < blocked@.len() ==> blocked@[j],
        },
{
    let mut k: usize = 0;
    while k < blocked.len()
        invariant
            k <= blocked@.len(),
            forall|j: int| 0 <= j < k ==> blocked@[j],
        decreases blocked@.len() - k,
    {
        if !blocked[k] {
            return Some(k);
        }
        k = k + 1;
    }
    None
}

/// The grounded state machine: how one tick moves an entity between standing
/// and airborne.
#[derive(Clone, Copy, Debug, PartialEq, Eq, Structural)]
pub enum GroundTransition {
    /// Airborne before, a ground-like contact now.
    Landed,
    /// Grounded before and now.
    StayedGrounded,
    /// Grounded before, no ground-like contact now: the coyote window opens.
    LeftGround,
    /// Airborne before and now.
    StayedAirborne,
}

impl GroundTransition {
    /// Whether the entity is grounded after the tick.
    pub open spec fn is_grounded(self) -> bool {
        self == GroundTransition::Landed || self == GroundTransition::StayedGrounded
    }

    /// Whether the entity stands on the ground after this transition. While it
    /// does, the time since it was grounded goes back to zero, its height is
    /// recorded and it is held on the slope; otherwise the timer runs on.
    pub fn grounded(&self) -> (r: bool)
        ensures
            r == self.is_grounded(),
    {
        match self {
            GroundTransition::Landed => true,
            GroundTransition::StayedGrounded => true,
            GroundTransition::LeftGround => false,
            GroundTransition::StayedAirborne => false,
        }
    }
}

/// The transition of the grounded state for an entity that was grounded or
/// not, and found a ground-like contact this tick or not.
pub open spec fn ground_transition_spec(was_grounded: bool, ground_contact: bool) -> GroundTransition {
    match (was_grounded, ground_contact) {
        (false, true) => GroundTransition::Landed,
        (true, true) => GroundTransition::StayedGrounded,
        (true, false) => GroundTransition::LeftGround,
        (false, false) => GroundTransition::StayedAirborne,
    }
}

/// Moves the grounded state on by one tick. The entity is grounded afterwards
/// exactly when it found a ground-like contact this tick.
pub fn ground_transition(was_grounded: bool, ground_contact: bool) -> (r: GroundTransition)
    ensures
        r == ground_transition_spec(was_grounded, ground_contact),
        r.is_grounded() == ground_contact,
{
    if ground_contact {
        if was_grounded {
            GroundTransition::StayedGrounded
        } else {
            GroundTransition::Landed
        }
    } else if was_grounded {
        GroundTransition::LeftGround
    } else {
        GroundTransition::StayedAirborne
    }
}

} // verus!
