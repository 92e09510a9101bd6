use oogaxi::taxi_registry::{
    choose_spawn, destination_accepted, origin_from_draw, plan_spawn, sheet_from_coin,
    spawn_allowed, PassengerSheet, SpawnPlan, Stop, TaxiRegistry,
};
use rand::rngs::StdRng;
use rand::SeedableRng;

fn registry(addresses: &[u8]) -> TaxiRegistry<u32> {
    TaxiRegistry(
        addresses
            .iter()
            .enumerate()
            .map(|(i, a)| Stop { address: *a, place: i as u32 })
            .collect(),
    )
}

#[test]
fn by_address_finds_the_first_stop() {
    let reg = registry(&[4, 2, 4]);
    assert_eq!(reg.by_address(4).map(|s| s.place), Some(0));
    assert_eq!(reg.by_address(2).map(|s| s.place), Some(1));
    assert!(reg.by_address(7).is_none());
}

#[test]
fn free_stops_skip_occupied_origins() {
    let reg = registry(&[1, 2, 3, 2]);
    assert_eq!(reg.free_stops(&vec![2]), vec![0, 2]);
    assert_eq!(reg.free_stops(&vec![]), vec![0, 1, 2, 3]);
    assert_eq!(reg.free_stops(&vec![1, 2, 3]), Vec::<usize>::new());
}

#[test]
fn spawn_gate() {
    assert!(spawn_allowed(false, 0, 4, 2));
    assert!(spawn_allowed(false, 3, 4, 3));
    assert!(!spawn_allowed(false, 4, 4, 3)); // the cap is reached: no fifth passenger
    assert!(!spawn_allowed(false, 5, 4, 3));
    assert!(!spawn_allowed(true, 0, 4, 3));
    assert!(!spawn_allowed(false, 0, 4, 1));
}

#[test]
fn spawn_draw_helpers() {
    let free = vec![3, 5];
    assert_eq!(origin_from_draw(&free, 1), Some(5));
    assert_eq!(origin_from_draw(&free, 2), None);
    assert_eq!(origin_from_draw(&vec![], 0), None);
    assert!(destination_accepted(2, 1));
    assert!(!destination_accepted(1, 1));
    assert_eq!(sheet_from_coin(true), PassengerSheet::Passenger);
    assert_eq!(sheet_from_coin(false), PassengerSheet::Passenger2);
}

#[test]
fn spawned_passengers_go_somewhere_else() {
    let reg = registry(&[1, 2, 3, 4]);
    let mut rng = StdRng::seed_from_u64(0xB00);
    let mut seen_both_sheets = (false, false);
    for round in 0..200 {
        let occupied: Vec<u8> = if round % 2 == 0 { vec![1, 2] } else { vec![] };
        let plan = choose_spawn(&mut rng, &reg, &occupied).unwrap();
        assert!(!occupied.contains(&plan.origin));
        assert_eq!(reg.0[plan.origin_index].address, plan.origin);
        assert_ne!(plan.destination, plan.origin);
        assert!(reg.by_address(plan.destination).is_some());
        match plan.sheet {
            PassengerSheet::Passenger => seen_both_sheets.0 = true,
            PassengerSheet::Passenger2 => seen_both_sheets.1 = true,
        }
    }
    assert_eq!(seen_both_sheets, (true, true));
}

#[test]
fn no_spawn_when_every_stop_is_taken() {
    let reg = registry(&[1, 2]);
    let mut rng = StdRng::seed_from_u64(7);
    assert!(choose_spawn(&mut rng, &reg, &vec![1, 2]).is_none());
}

#[test]
fn no_spawn_when_no_other_address_exists() {
    let reg = registry(&[5, 5]);
    let mut rng = StdRng::seed_from_u64(7);
    assert!(choose_spawn(&mut rng, &reg, &vec![]).is_none());
}

#[test]
fn spawn_draws_vary() {
    // the generator really draws: origins and destinations are not stuck
    let reg = registry(&[1, 2, 3, 4]);
    let mut rng = StdRng::seed_from_u64(42);
    let mut origins = std::collections::HashSet::new();
    let mut destinations = std::collections::HashSet::new();
    for _ in 0..100 {
        let plan = choose_spawn(&mut rng, &reg, &vec![]).unwrap();
        origins.insert(plan.origin);
        destinations.insert(plan.destination);
    }
    assert_eq!(origins.len(), 4);
    assert_eq!(destinations.len(), 4);
}

#[test]
fn plan_from_given_draws() {
    let reg = registry(&[1, 2, 3, 2]);
    // free stops with 2 occupied: indices 0 and 2; draw 1 picks index 2 (address 3)
    let occupied = vec![2];
    assert_eq!(
        plan_spawn(&reg, &occupied, 1, &vec![2, 0], true),
        Some(SpawnPlan {
            origin_index: 2,
            origin: 3,
            destination: 1,
            sheet: PassengerSheet::Passenger,
        })
    );
    // draws that hit the origin's address are skipped
    assert_eq!(
        plan_spawn(&reg, &occupied, 0, &vec![0, 0, 3], false),
        Some(SpawnPlan {
            origin_index: 0,
            origin: 1,
            destination: 2,
            sheet: PassengerSheet::Passenger2,
        })
    );
    // no accepted draw: the first other address in level order
    assert_eq!(
        plan_spawn(&reg, &occupied, 1, &vec![2], false).map(|p| p.destination),
        Some(1)
    );
    // a draw past the free stops spawns nothing
    assert_eq!(plan_spawn(&reg, &occupied, 2, &vec![1], true), None);
    // every stop shares one address: nothing to head for
    assert_eq!(plan_spawn(&registry(&[5, 5]), &vec![], 0, &vec![1], true), None);
}
