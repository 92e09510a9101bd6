use oogaxi::collision::{ground_contact, ContactOutcome};

#[test]
fn soft_touchdown_lands_once() {
    let first = ground_contact(true, true, true, false);
    assert_eq!(
        first,
        ContactOutcome { grounded: true, landed_event: true, stop: true, stop_vertical: false }
    );
    // resting on the ground the next tick: no second landing
    let resting = ground_contact(true, true, true, true);
    assert!(resting.grounded && !resting.landed_event && resting.stop);
}

#[test]
fn hard_touchdown_grounds_without_landing() {
    let o = ground_contact(true, true, false, false);
    assert!(o.grounded && !o.landed_event && o.stop);
}

#[test]
fn ceiling_bonk_keeps_grounding() {
    let o = ground_contact(true, false, true, false);
    assert_eq!(
        o,
        ContactOutcome { grounded: false, landed_event: false, stop: false, stop_vertical: true }
    );
    assert!(ground_contact(true, false, false, true).grounded);
}

#[test]
fn takeoff_clears_grounding() {
    let o = ground_contact(false, false, true, true);
    assert!(!o.grounded && !o.landed_event && !o.stop && !o.stop_vertical);
}
