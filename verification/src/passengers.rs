use vstd::prelude::*;

use crate::taxi_registry::{TaxiRegistry, is_registered};

verus! {

/// Who a passenger is: the stop it appeared at and the address it wants to
/// reach.
#[derive(Debug, Clone, Copy, PartialEq, Eq, Structural)]
pub struct Passenger {
    pub origin: u8,
    pub destination: u8,
}

/// Where a passenger is in its trip.
///
/// Emerging (steps out of the cave) -> WalkingToSign -> Waiting ->
/// Announcing (shows its destination) -> Boarding (walks to the landed
/// copter) -> Riding (hidden aboard) -> Unboarding (walks out at a stop) ->
/// Leaving (walks to the cave) -> gone. A boarding passenger whose copter
/// takes off walks back to its sign.
#[derive(Debug, Clone, Copy, PartialEq, Eq, Structural)]
pub enum Phase {
    Emerging,
    WalkingToSign,
    Waiting,
    Announcing,
    Boarding,
    Riding,
    Unboarding { dropped_at: u8 },
    Leaving,
}

/// A passenger together with its phase.
#[derive(Debug, Clone, Copy, PartialEq, Eq, Structural)]
pub struct PassengerRecord {
    pub passenger: Passenger,
    pub phase: Phase,
}

/// Where a walking passenger heads.
#[derive(Debug, Clone, Copy, PartialEq, Eq, Structural)]
pub enum WalkTarget {
    /// The sign of its origin stop.
    OriginSign,
    /// The landed copter.
    Copter,
    /// The sign of the stop it was dropped at.
    DropSign,
    /// The cave entrance nearest to where it stands.
    NearestCave,
    /// Where it stands (its stop is not in the registry).
    Here,
}

/// A phase change, with the walk the passenger starts (`None`: it stops
/// walking).
#[derive(Debug, Clone, Copy, PartialEq, Eq, Structural)]
pub struct Move {
    pub to: Phase,
    pub walk: Option<WalkTarget>,
}

/// The edges of the trip graph.
pub open spec fn legal_step(from: Phase, to: Phase) -> bool {
    match (from, to) {
        (Phase::Emerging, Phase::WalkingToSign) => true,
        (Phase::WalkingToSign, Phase::Waiting) => true,
        (Phase::Waiting, Phase::Announcing) => true,
        (Phase::Waiting, Phase::Boarding) => true,
        (Phase::Announcing, Phase::Boarding) => true,
        (Phase::Boarding, Phase::WalkingToSign) => true,
        (Phase::Boarding, Phase::Riding) => true,
        (Phase::Riding, Phase::Unboarding { .. }) => true,
        (Phase::Unboarding { .. }, Phase::Leaving) => true,
        _ => false,
    }
}

/// Boarding and riding passengers are aboard the copter.
pub open spec fn is_aboard(phase: Phase) -> bool {
    phase is Boarding || phase is Riding
}

/// Nobody in the flock is aboard.
pub open spec fn nobody_aboard(flock: Seq<PassengerRecord>) -> bool {
    forall|j: int| 0 <= j < flock.len() ==> !is_aboard(#[trigger] flock[j].phase)
}

/// At most one passenger of the flock is aboard.
pub open spec fn at_most_one_aboard(flock: Seq<PassengerRecord>) -> bool {
    forall|i: int, j: int|
        0 <= i < flock.len() && 0 <= j < flock.len() && is_aboard(#[trigger] flock[i].phase)
            && is_aboard(#[trigger] flock[j].phase) ==> i == j
}

/// A candidate for boarding at the stop with address `stop`: waiting or
/// announcing there.
pub open spec fn is_candidate(r: PassengerRecord, stop: u8) -> bool {
    (r.phase is Waiting || r.phase is Announcing) && r.passenger.origin == stop
}

/// The walk towards the origin sign, or staying put when the origin stop is
/// unknown.
pub open spec fn walk_home<P>(registry: TaxiRegistry<P>, p: Passenger) -> WalkTarget {
    if is_registered(registry.0@, p.origin) {
        WalkTarget::OriginSign
    } else {
        WalkTarget::Here
    }
}

/// Emerging -> WalkingToSign: once the passenger has stepped out of the
/// cave (its emerge timer has run out) it heads for the sign of its origin
/// stop, provided that stop is in the registry.
pub fn finish_emerging<P>(r: PassengerRecord, timer_finished: bool, registry: &TaxiRegistry<P>) -> (m:
    Option<Move>)
    ensures
        m matches Some(mv) ==> legal_step(r.phase, mv.to),
        m == (if r.phase is Emerging && timer_finished && is_registered(
            registry.0@,
            r.passenger.origin,
        ) {
            Some(Move { to: Phase::WalkingToSign, walk: Some(WalkTarget::OriginSign) })
        } else {
            None
        }),
{
    match r.phase {
        Phase::Emerging => {
            if !timer_finished {
                return None;
            }
            match registry.by_address(r.passenger.origin) {
                Some(_) => Some(Move { to: Phase::WalkingToSign, walk: Some(WalkTarget::OriginSign) }),
                None => None,
            }
        },
        _ => None,
    }
}

/// WalkingToSign -> Waiting, once at the sign.
pub fn arrive_at_sign(r: PassengerRecord, arrived: bool) -> (m: Option<Move>)
    ensures
        m matches Some(mv) ==> legal_step(r.phase, mv.to),
        m == (if r.phase is WalkingToSign && arrived {
            Some(Move { to: Phase::Waiting, walk: None })
        } else {
            None
        }),
{
    match r.phase {
        Phase::WalkingToSign if arrived => Some(Move { to: Phase::Waiting, walk: None }),
        _ => None,
    }
}

/// Waiting -> Announcing: when the copter comes near, a waiting passenger
/// raises a bubble with its destination.
pub fn announce_at_sign(r: PassengerRecord, copter_near: bool) -> (m: Option<Move>)
    ensures
        m matches Some(mv) ==> legal_step(r.phase, mv.to),
        m == (if r.phase is Waiting && copter_near {
            Some(Move { to: Phase::Announcing, walk: None })
        } else {
            None
        }),
{
    match r.phase {
        Phase::Waiting if copter_near => Some(Move { to: Phase::Announcing, walk: None }),
        _ => None,
    }
}

/// Which passenger may start boarding. `copter_grounded` is `None` when
/// there is no copter, `stop` the address of the stop nearest the copter
/// within hailing radius. Nobody boards unless the copter is on the ground,
/// nobody is aboard yet and there is such a stop; then the first passenger
/// (in flock order) waiting or announcing at that stop is the one.
pub fn board_on_landing(
    copter_grounded: Option<bool>,
    stop: Option<u8>,
    flock: &Vec<PassengerRecord>,
) -> (r: Option<usize>)
    ensures
        r is Some <==> ({
            &&& copter_grounded == Some(true)
            &&& nobody_aboard(flock@)
            &&& stop matches Some(s) && exists|i: int|
                0 <= i < flock@.len() && is_candidate(#[trigger] flock@[i], s)
        }),
        r matches Some(i) ==> {
            &&& i < flock@.len()
            &&& stop matches Some(s) && is_candidate(flock@[i as int], s)
            &&& forall|j: int| 0 <= j < i ==> !is_candidate(#[trigger] flock@[j], stop->0)
        },
{
    match copter_grounded {
        Some(true) => {},
        _ => return None,
    }
    let mut k: usize = 0;
    while k < flock.len()
        invariant
            k <= flock.len(),
            forall|j: int| 0 <= j < k ==> !is_aboard(#[trigger] flock@[j].phase),
        decreases flock.len() - k,
    {
        match flock[k].phase {
            Phase::Boarding | Phase::Riding => return None,
            _ => {},
        }
        k = k + 1;
    }
    let s = match stop {
        Some(s) => s,
        None => return None,
    };
    let mut i: usize = 0;
    while i < flock.len()
        invariant
            i <= flock.len(),
            copter_grounded == Some(true),
            stop == Some(s),
            nobody_aboard(flock@),
            forall|j: int| 0 <= j < i ==> !is_candidate(#[trigger] flock@[j], s),
        decreases flock.len() - i,
    {
        let rec = flock[i];
        let waiting = match rec.phase {
            Phase::Waiting | Phase::Announcing => true,
            _ => false,
        };
        if waiting && rec.passenger.origin == s {
            return Some(i);
        }
        i = i + 1;
    }
    None
}

/// (Waiting | Announcing) -> Boarding for the passenger picked by
/// `board_on_landing`: a waiting passenger walks to the copter at once, an
/// announcing one only once its announce timer has run out.
pub fn may_board(r: PassengerRecord, announce_finished: bool) -> (m: Option<Move>)
    ensures
        m matches Some(mv) ==> legal_step(r.phase, mv.to),
        m == (if r.phase is Waiting || (r.phase is Announcing && announce_finished) {
            Some(Move { to: Phase::Boarding, walk: Some(WalkTarget::Copter) })
        } else {
            None
        }),
{
    match r.phase {
        Phase::Waiting => Some(Move { to: Phase::Boarding, walk: Some(WalkTarget::Copter) }),
        Phase::Announcing if announce_finished => Some(
            Move { to: Phase::Boarding, walk: Some(WalkTarget::Copter) },
        ),
        _ => None,
    }
}

/// Boarding -> Riding once the passenger reaches the copter; boarding is
/// called off (back to the sign) when the copter has left the ground or
/// moved away. `copter` is `None` when there is no copter, otherwise
/// (grounded, moved away).
pub fn finish_boarding<P>(
    r: PassengerRecord,
    copter: Option<(bool, bool)>,
    arrived: bool,
    registry: &TaxiRegistry<P>,
) -> (m: Option<Move>)
    ensures
        m matches Some(mv) ==> legal_step(r.phase, mv.to),
        m == (match copter {
            Some((grounded, moved_away)) => if !(r.phase is Boarding) {
                None
            } else if !grounded || moved_away {
                Some(
                    Move { to: Phase::WalkingToSign, walk: Some(walk_home(*registry, r.passenger)) },
                )
            } else if arrived {
                Some(Move { to: Phase::Riding, walk: None })
            } else {
                None
            },
            None => None,
        }),
{
    match r.phase {
        Phase::Boarding => {},
        _ => return None,
    }
    let (grounded, moved_away) = match copter {
        Some(c) => c,
        None => return None,
    };
    if !grounded || moved_away {
        let walk = match registry.by_address(r.passenger.origin) {
            Some(_) => WalkTarget::OriginSign,
            None => WalkTarget::Here,
        };
        return Some(Move { to: Phase::WalkingToSign, walk: Some(walk) });
    }
    if arrived {
        Some(Move { to: Phase::Riding, walk: None })
    } else {
        None
    }
}

/// Riding -> Unboarding: when the copter stands on the ground at a stop, a
/// riding passenger gets out there, unless that stop is its own origin.
/// `copter_grounded` is `None` when there is no copter, `stop` the nearest
/// stop within hailing radius.
pub fn unboard_on_landing(
    r: PassengerRecord,
    copter_grounded: Option<bool>,
    stop: Option<u8>,
) -> (m: Option<Move>)
    ensures
        m matches Some(mv) ==> legal_step(r.phase, mv.to),
        m == (if r.phase is Riding && copter_grounded == Some(true) && stop is Some && stop->0
            != r.passenger.origin {
            Some(
                Move {
                    to: Phase::Unboarding { dropped_at: stop->0 },
                    walk: Some(WalkTarget::DropSign),
                },
            )
        } else {
            None
        }),
{
    match (r.phase, copter_grounded, stop) {
        (Phase::Riding, Some(true), Some(s)) => {
            if s == r.passenger.origin {
                None
            } else {
                Some(Move { to: Phase::Unboarding { dropped_at: s }, walk: Some(WalkTarget::DropSign) })
            }
        },
        _ => None,
    }
}

/// Unboarding -> Leaving, once out on the pad: the passenger pays (the
/// second component is `true`) exactly when it was dropped at its
/// destination, and says something rude otherwise. Either way it walks to
/// the nearest cave entrance (it stays put when the level has no stop, and
/// so no cave).
pub fn finish_unboarding<P>(r: PassengerRecord, arrived: bool, registry: &TaxiRegistry<P>) -> (res:
    Option<(Move, bool)>)
    ensures
        res matches Some((mv, _)) ==> legal_step(r.phase, mv.to),
        res == (match r.phase {
            Phase::Unboarding { dropped_at } => if arrived {
                Some(
                    (
                        Move {
                            to: Phase::Leaving,
                            walk: Some(
                                if registry.0@.len() > 0 {
                                    WalkTarget::NearestCave
                                } else {
                                    WalkTarget::Here
                                },
                            ),
                        },
                        dropped_at == r.passenger.destination,
                    ),
                )
            } else {
                None
            },
            _ => None,
        }),
{
    match r.phase {
        Phase::Unboarding { dropped_at } => {
            if !arrived {
                return None;
            }
            let paid = dropped_at == r.passenger.destination;
            let walk = if registry.0.len() > 0 {
                WalkTarget::NearestCave
            } else {
                WalkTarget::Here
            };
            Some((Move { to: Phase::Leaving, walk: Some(walk) }, paid))
        },
        _ => None,
    }
}

/// Leaving -> gone, once at the cave.
pub fn vanish_into_cave(r: PassengerRecord, arrived: bool) -> (gone: bool)
    ensures
        gone == (r.phase is Leaving && arrived),
{
    match r.phase {
        Phase::Leaving => arrived,
        _ => false,
    }
}

/// The frame of the sign sheet that shows `address`: signs are numbered
/// from 1, frame 0 shows address 1 (address 0 also uses frame 0).
pub fn sign_atlas_index(address: u8) -> (i: usize)
    ensures
        i == (if address == 0 {
            0
        } else {
            address - 1
        }),
{
    (address as usize).saturating_sub(1)
}

/// Boarding keeps the copter a single-seater: if at most one passenger is
/// aboard, and a passenger takes a step of the trip graph that enters
/// Boarding only when nobody is aboard, then afterwards at most one
/// passenger is aboard. New passengers (who start Emerging) and passengers
/// that leave the world never break it either.
pub proof fn lemma_single_passenger_aboard(
    flock: Seq<PassengerRecord>,
    i: int,
    to: Phase,
    newcomer: PassengerRecord,
)
    requires
        at_most_one_aboard(flock),
        0 <= i < flock.len(),
        legal_step(flock[i].phase, to),
        to is Boarding ==> nobody_aboard(flock),
        newcomer.phase is Emerging,
    ensures
        at_most_one_aboard(flock.update(i, PassengerRecord { phase: to, ..flock[i] })),
        at_most_one_aboard(flock.push(newcomer)),
        at_most_one_aboard(flock.remove(i)),
{
    let after = flock.update(i, PassengerRecord { phase: to, ..flock[i] });
    assert forall|a: int, b: int|
        0 <= a < after.len() && 0 <= b < after.len() && is_aboard(#[trigger] after[a].phase)
            && is_aboard(#[trigger] after[b].phase) implies a == b by {
        if a != i && b != i {
        } else if a == i && b != i {
            if to is Boarding {
                assert(!is_aboard(flock[b].phase));
            } else {
                assert(is_aboard(flock[i].phase));
            }
        } else if a != i && b == i {
            if to is Boarding {
                assert(!is_aboard(flock[a].phase));
            } else {
                assert(is_aboard(flock[i].phase));
            }
        }
    }
    let pushed = flock.push(newcomer);
    assert forall|a: int, b: int|
        0 <= a < pushed.len() && 0 <= b < pushed.len() && is_aboard(#[trigger] pushed[a].phase)
            && is_aboard(#[trigger] pushed[b].phase) implies a == b by {
        if a < flock.len() && b < flock.len() {
            assert(pushed[a] == flock[a] && pushed[b] == flock[b]);
        }
    }
    let removed = flock.remove(i);
    assert forall|a: int, b: int|
        0 <= a < removed.len() && 0 <= b < removed.len() && is_aboard(#[trigger] removed[a].phase)
            && is_aboard(#[trigger] removed[b].phase) implies a == b by {
        let fa = if a < i {
            a
        } else {
            a + 1
        };
        let fb = if b < i {
            b
        } else {
            b + 1
        };
        assert(removed[a] == flock[fa]);
        assert(removed[b] == flock[fb]);
    }
}

} // verus!
