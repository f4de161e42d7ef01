use iso_physics::movement::{
    contact_response, first_clear_probe, ground_transition, ContactResponse, GroundTransition,
    STEP_UP_PROBES,
};

#[test]
fn wall_met_while_grounded_tries_a_step() {
    assert_eq!(contact_response(false, true, true), ContactResponse::TryStepUp);
}

#[test]
fn wall_met_in_the_air_is_cancelled() {
    assert_eq!(contact_response(false, true, false), ContactResponse::Cancel);
}

#[test]
fn ground_moved_into_is_cancelled() {
    assert_eq!(contact_response(true, true, true), ContactResponse::Cancel);
    assert_eq!(contact_response(true, true, false), ContactResponse::Cancel);
}

#[test]
fn contact_moved_away_from_is_kept() {
    assert_eq!(contact_response(true, false, true), ContactResponse::Keep);
    assert_eq!(contact_response(false, false, true), ContactResponse::Keep);
    assert_eq!(contact_response(false, false, false), ContactResponse::Keep);
}

#[test]
fn lowest_clear_probe_is_taken() {
    let mut blocked = vec![true; STEP_UP_PROBES];
    blocked[4] = false;
    blocked[7] = false;
    assert_eq!(first_clear_probe(&blocked), Some(4));
    assert_eq!(first_clear_probe(&vec![false; STEP_UP_PROBES]), Some(0));
}

#[test]
fn no_clear_probe_blocks() {
    assert_eq!(first_clear_probe(&vec![true; STEP_UP_PROBES]), None);
    assert_eq!(first_clear_probe(&Vec::new()), None);
}

#[test]
fn grounded_state_machine() {
    assert_eq!(ground_transition(false, true), GroundTransition::Landed);
    assert_eq!(ground_transition(true, true), GroundTransition::StayedGrounded);
    assert_eq!(ground_transition(true, false), GroundTransition::LeftGround);
    assert_eq!(ground_transition(false, false), GroundTransition::StayedAirborne);
    assert!(GroundTransition::Landed.grounded());
    assert!(GroundTransition::StayedGrounded.grounded());
    assert!(!GroundTransition::LeftGround.grounded());
    assert!(!GroundTransition::StayedAirborne.grounded());
}
