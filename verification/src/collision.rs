use vstd::prelude::*;

verus! {

/// What a tick's vertical contact does to the copter.
#[derive(Debug, Clone, Copy, PartialEq, Eq, Structural)]
pub struct ContactOutcome {
    /// Whether the copter is on the ground after this tick.
    pub grounded: bool,
    /// Whether a `Landed` message goes out (the copter just touched down
    /// softly).
    pub landed_event: bool,
    /// Whether the whole velocity is zeroed (a touchdown, soft or hard).
    pub stop: bool,
    /// Whether only the vertical velocity is zeroed (a ceiling bonk).
    pub stop_vertical: bool,
}

/// The copter's grounding after the vertical move of a tick: `hit_y` is a
/// vertical contact with a solid tile, `falling` says the vertical speed at
/// contact was downward (so the contact is with the floor, not the
/// ceiling), `survivable` is the landing verdict for a floor contact.
///
/// A floor contact always stops the copter and leaves it grounded; only a
/// survivable one that ends a flight announces a landing. A ceiling contact
/// stops the climb and changes nothing else. Without vertical contact, a
/// grounded copter takes off (or slid off an edge).
pub open spec fn spec_ground_contact(
    hit_y: bool,
    falling: bool,
    survivable: bool,
    was_grounded: bool,
) -> ContactOutcome {
    if hit_y && falling {
        ContactOutcome {
            grounded: true,
            landed_event: survivable && !was_grounded,
            stop: true,
            stop_vertical: false,
        }
    } else if hit_y {
        ContactOutcome { grounded: was_grounded, landed_event: false, stop: false, stop_vertical: true }
    } else {
        ContactOutcome { grounded: false, landed_event: false, stop: false, stop_vertical: false }
    }
}

/// Grounding after a tick's vertical move (see `spec_ground_contact`).
pub fn ground_contact(hit_y: bool, falling: bool, survivable: bool, was_grounded: bool) -> (o:
    ContactOutcome)
    ensures
        o == spec_ground_contact(hit_y, falling, survivable, was_grounded),
        o.stop <==> hit_y && falling,
        o.stop_vertical <==> hit_y && !falling,
        !hit_y ==> !o.grounded && !o.landed_event,
        o.landed_event <==> hit_y && falling && survivable && !was_grounded,
{
    if hit_y && falling {
        ContactOutcome {
            grounded: true,
            landed_event: survivable && !was_grounded,
            stop: true,
            stop_vertical: false,
        }
    } else if hit_y {
        ContactOutcome {
            grounded: was_grounded,
            landed_event: false,
            stop: false,
            stop_vertical: true,
        }
    } else {
        ContactOutcome { grounded: false, landed_event: false, stop: false, stop_vertical: false }
    }
}

/// A landing is announced once per touchdown: only a survivable floor
/// contact after a flight announces it, resting on the ground tick after
/// tick never announces it again, and an announced landing leaves the
/// copter grounded.
pub proof fn lemma_landing_announced_once(
    hit_y: bool,
    falling: bool,
    survivable: bool,
    was_grounded: bool,
)
    ensures
        ({
            let o = spec_ground_contact(hit_y, falling, survivable, was_grounded);
            &&& o.landed_event <==> hit_y && falling && survivable && !was_grounded
            &&& o.landed_event ==> o.grounded
            &&& !hit_y ==> !o.grounded
        }),
{
}

/// Only a vertical contact stops the copter: a floor contact (falling)
/// zeroes the whole velocity and grounds it, a ceiling contact (rising) zeroes
/// only the climb and keeps the grounding as it was, and in free flight
/// nothing is stopped and the copter is airborne.
pub proof fn lemma_only_contact_stops(
    hit_y: bool,
    falling: bool,
    survivable: bool,
    was_grounded: bool,
)
    ensures
        ({
            let o = spec_ground_contact(hit_y, falling, survivable, was_grounded);
            &&& o.stop <==> hit_y && falling
            &&& o.stop_vertical <==> hit_y && !falling
            &&& !hit_y ==> !o.stop && !o.stop_vertical && !o.grounded && !o.landed_event
            &&& hit_y && falling ==> o.grounded
            &&& hit_y && !falling ==> o.grounded == was_grounded && !o.landed_event
        }),
{
}

} // verus!
