use oogaxi::passengers::{
    announce_at_sign, arrive_at_sign, board_on_landing, finish_boarding, finish_emerging,
    finish_unboarding, may_board, sign_atlas_index, unboard_on_landing, vanish_into_cave, Move,
    Passenger, PassengerRecord, Phase, WalkTarget,
};
use oogaxi::taxi_registry::{Stop, TaxiRegistry};

fn registry() -> TaxiRegistry<(i32, i32)> {
    TaxiRegistry(vec![
        Stop { address: 1, place: (0, 0) },
        Stop { address: 2, place: (100, 0) },
        Stop { address: 3, place: (200, 0) },
    ])
}

fn rec(origin: u8, destination: u8, phase: Phase) -> PassengerRecord {
    PassengerRecord { passenger: Passenger { origin, destination }, phase }
}

#[test]
fn emerging_heads_to_its_sign() {
    let r = rec(1, 2, Phase::Emerging);
    // still stepping out of the cave while the emerge timer runs
    assert_eq!(finish_emerging(r, false, &registry()), None);
    assert_eq!(
        finish_emerging(r, true, &registry()),
        Some(Move { to: Phase::WalkingToSign, walk: Some(WalkTarget::OriginSign) })
    );
    // an origin the registry does not know keeps it in the cave
    assert_eq!(finish_emerging(rec(9, 2, Phase::Emerging), true, &registry()), None);
    assert_eq!(finish_emerging(rec(1, 2, Phase::Waiting), true, &registry()), None);
}

#[test]
fn sign_then_wait_then_announce() {
    let r = rec(1, 2, Phase::WalkingToSign);
    assert_eq!(arrive_at_sign(r, false), None);
    assert_eq!(arrive_at_sign(r, true), Some(Move { to: Phase::Waiting, walk: None }));
    assert_eq!(
        announce_at_sign(rec(1, 2, Phase::Waiting), true),
        Some(Move { to: Phase::Announcing, walk: None })
    );
    // nobody announces before the copter comes near
    assert_eq!(announce_at_sign(rec(1, 2, Phase::Waiting), false), None);
    assert_eq!(announce_at_sign(rec(1, 2, Phase::Announcing), true), None);
}

#[test]
fn boarding_picks_first_candidate_at_the_stop() {
    let flock = vec![
        rec(2, 1, Phase::Waiting),
        rec(1, 3, Phase::WalkingToSign),
        rec(1, 2, Phase::Announcing),
        rec(1, 3, Phase::Waiting),
    ];
    assert_eq!(board_on_landing(Some(true), Some(1), &flock), Some(2));
    assert_eq!(board_on_landing(Some(true), Some(2), &flock), Some(0));
    assert_eq!(board_on_landing(Some(true), Some(3), &flock), None);
    assert_eq!(board_on_landing(Some(false), Some(1), &flock), None);
    assert_eq!(board_on_landing(None, Some(1), &flock), None);
    assert_eq!(board_on_landing(Some(true), None, &flock), None);
}

#[test]
fn boarding_waits_while_someone_is_aboard() {
    let flock = vec![rec(1, 2, Phase::Waiting), rec(3, 2, Phase::Riding)];
    assert_eq!(board_on_landing(Some(true), Some(1), &flock), None);
    let flock = vec![rec(1, 2, Phase::Waiting), rec(3, 2, Phase::Boarding)];
    assert_eq!(board_on_landing(Some(true), Some(1), &flock), None);
    let flock = vec![rec(1, 2, Phase::Waiting), rec(3, 2, Phase::Unboarding { dropped_at: 2 })];
    assert_eq!(board_on_landing(Some(true), Some(1), &flock), Some(0));
}

#[test]
fn announcing_passenger_boards_after_its_timer() {
    let boarding = Some(Move { to: Phase::Boarding, walk: Some(WalkTarget::Copter) });
    assert_eq!(may_board(rec(1, 2, Phase::Waiting), false), boarding);
    assert_eq!(may_board(rec(1, 2, Phase::Announcing), false), None);
    assert_eq!(may_board(rec(1, 2, Phase::Announcing), true), boarding);
    assert_eq!(may_board(rec(1, 2, Phase::Riding), true), None);
}

#[test]
fn boarding_completes_or_is_called_off() {
    let r = rec(1, 2, Phase::Boarding);
    let reg = registry();
    assert_eq!(
        finish_boarding(r, Some((true, false)), true, &reg),
        Some(Move { to: Phase::Riding, walk: None })
    );
    assert_eq!(finish_boarding(r, Some((true, false)), false, &reg), None);
    let back = Some(Move { to: Phase::WalkingToSign, walk: Some(WalkTarget::OriginSign) });
    assert_eq!(finish_boarding(r, Some((false, false)), true, &reg), back);
    assert_eq!(finish_boarding(r, Some((true, true)), true, &reg), back);
    assert_eq!(finish_boarding(r, None, true, &reg), None);
    assert_eq!(
        finish_boarding(rec(7, 2, Phase::Boarding), Some((false, false)), false, &reg),
        Some(Move { to: Phase::WalkingToSign, walk: Some(WalkTarget::Here) })
    );
}

#[test]
fn unboards_anywhere_but_its_origin() {
    let r = rec(1, 2, Phase::Riding);
    assert_eq!(
        unboard_on_landing(r, Some(true), Some(3)),
        Some(Move { to: Phase::Unboarding { dropped_at: 3 }, walk: Some(WalkTarget::DropSign) })
    );
    assert_eq!(unboard_on_landing(r, Some(true), Some(1)), None);
    assert_eq!(unboard_on_landing(r, Some(false), Some(3)), None);
    assert_eq!(unboard_on_landing(r, None, Some(3)), None);
    assert_eq!(unboard_on_landing(r, Some(true), None), None);
}

#[test]
fn right_address_pays_wrong_address_is_rude() {
    let reg = registry();
    let paid = finish_unboarding(rec(1, 2, Phase::Unboarding { dropped_at: 2 }), true, &reg);
    assert_eq!(
        paid,
        Some((Move { to: Phase::Leaving, walk: Some(WalkTarget::NearestCave) }, true))
    );
    let rude = finish_unboarding(rec(1, 2, Phase::Unboarding { dropped_at: 3 }), true, &reg);
    assert_eq!(
        rude,
        Some((Move { to: Phase::Leaving, walk: Some(WalkTarget::NearestCave) }, false))
    );
    // with no stop in the level there is no cave to walk to
    let empty: TaxiRegistry<(i32, i32)> = TaxiRegistry(vec![]);
    let lost = finish_unboarding(rec(1, 9, Phase::Unboarding { dropped_at: 9 }), true, &empty);
    assert_eq!(lost, Some((Move { to: Phase::Leaving, walk: Some(WalkTarget::Here) }, true)));
    assert_eq!(
        finish_unboarding(rec(1, 2, Phase::Unboarding { dropped_at: 2 }), false, &reg),
        None
    );
}

#[test]
fn leaving_vanishes_at_the_cave() {
    assert!(vanish_into_cave(rec(1, 2, Phase::Leaving), true));
    assert!(!vanish_into_cave(rec(1, 2, Phase::Leaving), false));
    assert!(!vanish_into_cave(rec(1, 2, Phase::Riding), true));
}

#[test]
fn signs_are_numbered_from_one() {
    assert_eq!(sign_atlas_index(1), 0);
    assert_eq!(sign_atlas_index(5), 4);
    assert_eq!(sign_atlas_index(0), 0);
}

#[test]
fn full_trip_single_rider() {
    // one passenger from stop 1 to stop 3, with a second one waiting at 2
    let reg = registry();
    let mut flock = vec![rec(1, 3, Phase::Emerging), rec(2, 1, Phase::Waiting)];
    assert_eq!(finish_emerging(flock[0], false, &reg), None);
    let m = finish_emerging(flock[0], true, &reg).unwrap();
    flock[0].phase = m.to;
    flock[0].phase = arrive_at_sign(flock[0], true).unwrap().to;
    assert_eq!(announce_at_sign(flock[0], false), None);
    flock[0].phase = announce_at_sign(flock[0], true).unwrap().to;
    let i = board_on_landing(Some(true), Some(1), &flock).unwrap();
    assert_eq!(i, 0);
    flock[i].phase = may_board(flock[i], true).unwrap().to;
    // while passenger 0 is aboard, nobody else boards at stop 2
    assert_eq!(board_on_landing(Some(true), Some(2), &flock), None);
    flock[0].phase = finish_boarding(flock[0], Some((true, false)), true, &reg).unwrap().to;
    assert_eq!(flock[0].phase, Phase::Riding);
    flock[0].phase = unboard_on_landing(flock[0], Some(true), Some(3)).unwrap().to;
    let (m, paid) = finish_unboarding(flock[0], true, &reg).unwrap();
    assert!(paid);
    flock[0].phase = m.to;
    assert!(vanish_into_cave(flock[0], true));
}
