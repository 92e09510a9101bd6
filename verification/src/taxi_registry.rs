use vstd::prelude::*;

use rand::rngs::StdRng;

use crate::game_rand::{random_index, random_ratio};

verus! {

/// A taxi stop: its address (the number on its sign) and where it stands in
/// the level. The library only reads the address; `place` is whatever the
/// engine keeps there (sign and cave positions).
pub struct Stop<P> {
    pub address: u8,
    pub place: P,
}

/// Every taxi stop of the level, in the order the level lists them.
pub struct TaxiRegistry<P>(pub Vec<Stop<P>>);

/// Does any stop before position `n` carry address `a`?
pub open spec fn has_address_before<P>(stops: Seq<Stop<P>>, a: u8, n: int) -> bool {
    exists|j: int| 0 <= j < n && #[trigger] stops[j].address == a
}

/// Is `a` the address of some stop?
pub open spec fn is_registered<P>(stops: Seq<Stop<P>>, a: u8) -> bool {
    has_address_before(stops, a, stops.len() as int)
}

/// Indices of the stops, among the first `n`, whose address is not in
/// `occupied`, in level order.
pub open spec fn free_prefix<P>(stops: Seq<Stop<P>>, occupied: Seq<u8>, n: int) -> Seq<usize>
    decreases n,
{
    if n <= 0 {
        Seq::empty()
    } else {
        let rest = free_prefix(stops, occupied, n - 1);
        if occupied.contains(stops[n - 1].address) {
            rest
        } else {
            rest.push((n - 1) as usize)
        }
    }
}

/// Indices of the stops whose address is not in `occupied`, in level order.
pub open spec fn spec_free_stops<P>(stops: Seq<Stop<P>>, occupied: Seq<u8>) -> Seq<usize> {
    free_prefix(stops, occupied, stops.len() as int)
}

/// Does `list` hold `a`?
fn contains_address(list: &Vec<u8>, a: u8) -> (r: bool)
    ensures
        r == list@.contains(a),
{
    let mut i: usize = 0;
    while i < list.len()
        invariant
            i <= list.len(),
            forall|j: int| 0 <= j < i ==> list@[j] != a,
        decreases list.len() - i,
    {
        if list[i] == a {
            assert(list@[i as int] == a);
            return true;
        }
        i = i + 1;
    }
    false
}

impl<P> TaxiRegistry<P> {
    /// The first stop (in level order) whose address is `a`, if any.
    pub fn by_address(&self, a: u8) -> (r: Option<&Stop<P>>)
        ensures
            r is None <==> !is_registered(self.0@, a),
            r matches Some(s) ==> exists|i: int|
                0 <= i < self.0@.len() && self.0@[i] == *s && s.address == a
                    && !has_address_before(self.0@, a, i),
    {
        let mut i: usize = 0;
        while i < self.0.len()
            invariant
                i <= self.0.len(),
                !has_address_before(self.0@, a, i as int),
            decreases self.0.len() - i,
        {
            if self.0[i].address == a {
                return Some(&self.0[i]);
            }
            i = i + 1;
        }
        None
    }

    /// The stops that no living passenger has as origin, in level order: a
    /// new passenger only appears at a stop with nobody already waiting
    /// there.
    pub fn free_stops(&self, occupied: &Vec<u8>) -> (r: Vec<usize>)
        ensures
            r@ == spec_free_stops(self.0@, occupied@),
    {
        let mut r: Vec<usize> = Vec::new();
        let mut i: usize = 0;
        while i < self.0.len()
            invariant
                i <= self.0.len(),
                r@ == free_prefix(self.0@, occupied@, i as int),
            decreases self.0.len() - i,
        {
            if !contains_address(occupied, self.0[i].address) {
                r.push(i);
            }
            i = i + 1;
        }
        r
    }
}

/// Every index that `spec_free_stops` lists names a stop whose address no
/// living passenger holds, and every such stop is listed.
pub proof fn lemma_free_stops_exact<P>(stops: Seq<Stop<P>>, occupied: Seq<u8>, n: int)
    requires
        0 <= n <= stops.len(),
        stops.len() <= usize::MAX,
    ensures
        forall|k: int|
            0 <= k < free_prefix(stops, occupied, n).len() ==> {
                let i = #[trigger] free_prefix(stops, occupied, n)[k] as int;
                0 <= i < n && !occupied.contains(stops[i].address)
            },
        forall|i: int|
            0 <= i < n && !occupied.contains(#[trigger] stops[i].address) ==> free_prefix(
                stops,
                occupied,
                n,
            ).contains(i as usize),
    decreases n,
{
    if n > 0 {
        lemma_free_stops_exact(stops, occupied, n - 1);
        let rest = free_prefix(stops, occupied, n - 1);
        if !occupied.contains(stops[n - 1].address) {
            assert(rest.push((n - 1) as usize)[rest.len() as int] as int == n - 1);
            assert forall|i: int|
                0 <= i < n && !occupied.contains(#[trigger] stops[i].address) implies rest.push(
                (n - 1) as usize,
            ).contains(i as usize) by {
                if i < n - 1 {
                    let k = choose|k: int| 0 <= k < rest.len() && rest[k] == i as usize;
                    assert(rest.push((n - 1) as usize)[k] == i as usize);
                }
            }
        }
    }
}

/// Which of the two passenger sprite sheets a new passenger wears.
#[derive(Debug, Clone, Copy, PartialEq, Eq, Structural)]
pub enum PassengerSheet {
    Passenger,
    Passenger2,
}

/// A decided spawn: the origin stop (its index and address), the address
/// the passenger wants to go to, and its look.
#[derive(Debug, Clone, Copy, PartialEq, Eq, Structural)]
pub struct SpawnPlan {
    pub origin_index: usize,
    pub origin: u8,
    pub destination: u8,
    pub sheet: PassengerSheet,
}

/// The spawner's gate, which keeps the number of living passengers within its
/// cap: it waits while its timer is pending, while `max_passengers` or more
/// passengers are alive, and while the level has fewer than two stops.
pub fn spawn_allowed(
    timer_pending: bool,
    living: usize,
    max_passengers: u32,
    stops: usize,
) -> (r: bool)
    ensures
        r == (!timer_pending && living < max_passengers && stops >= 2),
{
    !(timer_pending || living >= max_passengers as usize || stops < 2)
}

/// The origin picked by a draw in `0..max(free.len(), 1)`: the draw-th free
/// stop, or nothing when no stop is free.
pub fn origin_from_draw(free: &Vec<usize>, draw: usize) -> (r: Option<usize>)
    ensures
        r == (if draw < free.len() {
            Some(free@[draw as int])
        } else {
            None
        }),
{
    if draw < free.len() {
        Some(free[draw])
    } else {
        None
    }
}

/// A destination drawn at random is kept only when it differs from the
/// origin; otherwise the spawner draws again.
pub fn destination_accepted(candidate: u8, origin: u8) -> (r: bool)
    ensures
        r == (candidate != origin),
{
    candidate != origin
}

/// The look picked by a fair coin: heads gives the first passenger sheet.
pub fn sheet_from_coin(heads: bool) -> (s: PassengerSheet)
    ensures
        s == (if heads {
            PassengerSheet::Passenger
        } else {
            PassengerSheet::Passenger2
        }),
{
    if heads {
        PassengerSheet::Passenger
    } else {
        PassengerSheet::Passenger2
    }
}

/// Every stop carries the same address.
pub open spec fn single_address<P>(stops: Seq<Stop<P>>) -> bool {
    forall|i: int, j: int|
        0 <= i < stops.len() && 0 <= j < stops.len() ==> #[trigger] stops[i].address
            == #[trigger] stops[j].address
}

/// The address of the first stop at position `n` or later (in level order)
/// that differs from `a`, if any.
pub open spec fn other_address_from<P>(stops: Seq<Stop<P>>, a: u8, n: int) -> Option<u8>
    decreases stops.len() - n,
{
    if n < 0 || n >= stops.len() {
        None
    } else if stops[n].address != a {
        Some(stops[n].address)
    } else {
        other_address_from(stops, a, n + 1)
    }
}

/// The address of the first drawn stop (in draw order) that differs from
/// `a`, if any.
pub open spec fn first_accepted<P>(stops: Seq<Stop<P>>, a: u8, draws: Seq<usize>) -> Option<u8>
    decreases draws.len(),
{
    if draws.len() == 0 {
        None
    } else {
        match first_accepted(stops, a, draws.drop_last()) {
            Some(d) => Some(d),
            None => if stops[draws.last() as int].address != a {
                Some(stops[draws.last() as int].address)
            } else {
                None
            },
        }
    }
}

/// The spawn that an origin draw, a run of destination draws and a coin
/// decide: the origin is the `origin_draw`-th free stop; the destination is
/// the address of the first drawn stop whose address differs from the
/// origin's, or, when no draw does, the first such address in level order.
/// Nothing is spawned when the draw names no free stop or when no stop has
/// another address than the origin.
pub open spec fn spec_plan<P>(
    stops: Seq<Stop<P>>,
    occupied: Seq<u8>,
    origin_draw: usize,
    dest_draws: Seq<usize>,
    heads: bool,
) -> Option<SpawnPlan> {
    let free = spec_free_stops(stops, occupied);
    if origin_draw >= free.len() {
        None
    } else {
        let origin_index = free[origin_draw as int];
        let origin = stops[origin_index as int].address;
        match other_address_from(stops, origin, 0) {
            None => None,
            Some(fallback) => Some(
                SpawnPlan {
                    origin_index,
                    origin,
                    destination: match first_accepted(stops, origin, dest_draws) {
                        Some(d) => d,
                        None => fallback,
                    },
                    sheet: if heads {
                        PassengerSheet::Passenger
                    } else {
                        PassengerSheet::Passenger2
                    },
                },
            ),
        }
    }
}

/// `other_address_from` is empty exactly when every stop from `n` on has
/// address `a`; what it gives differs from `a` and is a stop's address.
proof fn lemma_other_address_from<P>(stops: Seq<Stop<P>>, a: u8, n: int)
    requires
        0 <= n <= stops.len(),
    ensures
        other_address_from(stops, a, n) is None <==> forall|j: int|
            n <= j < stops.len() ==> #[trigger] stops[j].address == a,
        other_address_from(stops, a, n) matches Some(d) ==> d != a && is_registered(stops, d),
    decreases stops.len() - n,
{
    if n < stops.len() {
        lemma_other_address_from(stops, a, n + 1);
        if stops[n].address != a {
            assert(stops[n].address == other_address_from(stops, a, n)->0);
        }
    }
}

/// What `first_accepted` gives differs from `a` and is the address of a
/// drawn stop.
proof fn lemma_first_accepted<P>(stops: Seq<Stop<P>>, a: u8, draws: Seq<usize>)
    requires
        forall|i: int| 0 <= i < draws.len() ==> #[trigger] draws[i] < stops.len(),
    ensures
        first_accepted(stops, a, draws) matches Some(d) ==> d != a && is_registered(stops, d),
    decreases draws.len(),
{
    if draws.len() > 0 {
        let rest = draws.drop_last();
        assert forall|i: int| 0 <= i < rest.len() implies #[trigger] rest[i] < stops.len() by {
            assert(rest[i] == draws[i]);
        }
        lemma_first_accepted(stops, a, rest);
        assert(draws[draws.len() - 1] < stops.len());
    }
}

/// With the origin being a stop's address, no other address exists exactly
/// when all stops share one address.
proof fn lemma_single_address_iff<P>(stops: Seq<Stop<P>>, origin_index: int)
    requires
        0 <= origin_index < stops.len(),
    ensures
        other_address_from(stops, stops[origin_index].address, 0) is None <==> single_address(
            stops,
        ),
{
    let a = stops[origin_index].address;
    lemma_other_address_from(stops, a, 0);
    if other_address_from(stops, a, 0) is None {
        assert forall|i: int, j: int|
            0 <= i < stops.len() && 0 <= j < stops.len() implies #[trigger] stops[i].address
            == #[trigger] stops[j].address by {
            assert(stops[i].address == a);
            assert(stops[j].address == a);
        }
    }
    if single_address(stops) {
        assert forall|j: int| 0 <= j < stops.len() implies #[trigger] stops[j].address == a by {
            assert(stops[j].address == stops[origin_index].address);
        }
    }
}

/// The first stop's address (in level order) that differs from `a`, if any.
fn first_other_address<P>(registry: &TaxiRegistry<P>, a: u8) -> (r: Option<u8>)
    ensures
        r == other_address_from(registry.0@, a, 0),
{
    let mut i: usize = 0;
    while i < registry.0.len()
        invariant
            i <= registry.0.len(),
            other_address_from(registry.0@, a, i as int) == other_address_from(registry.0@, a, 0),
        decreases registry.0.len() - i,
    {
        let d = registry.0[i].address;
        if d != a {
            return Some(d);
        }
        i = i + 1;
    }
    None
}

/// The address of the first drawn stop whose address differs from `a`.
fn first_accepted_draw<P>(registry: &TaxiRegistry<P>, a: u8, draws: &Vec<usize>) -> (r: Option<u8>)
    requires
        forall|i: int| 0 <= i < draws.len() ==> #[trigger] draws@[i] < registry.0.len(),
    ensures
        r == first_accepted(registry.0@, a, draws@),
{
    let mut i: usize = 0;
    while i < draws.len()
        invariant
            i <= draws.len(),
            forall|i: int| 0 <= i < draws.len() ==> #[trigger] draws@[i] < registry.0.len(),
            first_accepted(registry.0@, a, draws@.take(i as int)) is None,
        decreases draws.len() - i,
    {
        let candidate = registry.0[draws[i]].address;
        assert(draws@.take(i + 1).drop_last() =~= draws@.take(i as int));
        if destination_accepted(candidate, a) {
            assert(draws@.take(i + 1) =~= draws@.take(i as int).push(draws@[i as int]));
            assert(first_accepted(registry.0@, a, draws@.take(i + 1)) == Some(candidate));
            proof {
                lemma_first_accepted_prefix(registry.0@, a, draws@, i + 1);
            }
            return Some(candidate);
        }
        i = i + 1;
    }
    assert(draws@.take(draws.len() as int) =~= draws@);
    None
}

/// Once a prefix of the draws has an accepted one, the whole run gives the
/// same answer.
proof fn lemma_first_accepted_prefix<P>(stops: Seq<Stop<P>>, a: u8, draws: Seq<usize>, n: int)
    requires
        0 <= n <= draws.len(),
        first_accepted(stops, a, draws.take(n)) is Some,
    ensures
        first_accepted(stops, a, draws) == first_accepted(stops, a, draws.take(n)),
    decreases draws.len() - n,
{
    if n < draws.len() {
        assert(draws.take(n + 1).drop_last() =~= draws.take(n));
        lemma_first_accepted_prefix(stops, a, draws, n + 1);
    } else {
        assert(draws.take(n) =~= draws);
    }
}

/// The decision half of the passenger spawner, given what the generator
/// drew: `origin_draw` picks among the free stops, `dest_draws` are the stop
/// indices drawn for the destination in order, and `heads` is the coin.
pub fn plan_spawn<P>(
    registry: &TaxiRegistry<P>,
    occupied: &Vec<u8>,
    origin_draw: usize,
    dest_draws: &Vec<usize>,
    heads: bool,
) -> (plan: Option<SpawnPlan>)
    requires
        forall|i: int| 0 <= i < dest_draws.len() ==> #[trigger] dest_draws@[i] < registry.0.len(),
    ensures
        plan == spec_plan(registry.0@, occupied@, origin_draw, dest_draws@, heads),
        plan is None <==> (origin_draw >= spec_free_stops(registry.0@, occupied@).len()
            || single_address(registry.0@)),
        plan matches Some(p) ==> {
            &&& p.origin_index < registry.0@.len()
            &&& registry.0@[p.origin_index as int].address == p.origin
            &&& !occupied@.contains(p.origin)
            &&& p.destination != p.origin
            &&& is_registered(registry.0@, p.destination)
        },
{
    let free = registry.free_stops(occupied);
    let origin_index = match origin_from_draw(&free, origin_draw) {
        Some(i) => i,
        None => return None,
    };
    proof {
        lemma_free_stops_exact(registry.0@, occupied@, registry.0@.len() as int);
        assert(free@[origin_draw as int] == origin_index);
        lemma_single_address_iff(registry.0@, origin_index as int);
    }
    let origin = registry.0[origin_index].address;
    let fallback = match first_other_address(registry, origin) {
        Some(d) => d,
        None => return None,
    };
    proof {
        lemma_other_address_from(registry.0@, origin, 0);
        lemma_first_accepted(registry.0@, origin, dest_draws@);
    }
    let destination = match first_accepted_draw(registry, origin, dest_draws) {
        Some(d) => d,
        None => fallback,
    };
    Some(SpawnPlan { origin_index, origin, destination, sheet: sheet_from_coin(heads) })
}

/// The random half of the passenger spawner, once `spawn_allowed` has said
/// yes and the next spawn delay has been drawn: draw an origin among the free
/// stops, draw stops until one has another address than the origin, and toss
/// a coin for the look; `plan_spawn` turns those draws into the plan. Should
/// `u64::MAX` draws in a row all hit the origin's address, the first stop (in
/// level order) with another address is taken.
///
/// The origin draw lies in `0..max(free stops, 1)` and each destination draw
/// names a stop. Whatever the generator gives, a plan comes back exactly when
/// some stop is free and the stops do not all share one address (otherwise
/// drawing again could never succeed).
pub fn choose_spawn<P>(rng: &mut StdRng, registry: &TaxiRegistry<P>, occupied: &Vec<u8>) -> (plan:
    Option<SpawnPlan>)
    ensures
        exists|origin_draw: usize, dest_draws: Seq<usize>, heads: bool|
            {
                &&& origin_draw < (if spec_free_stops(registry.0@, occupied@).len() > 1 {
                    spec_free_stops(registry.0@, occupied@).len()
                } else {
                    1
                })
                &&& forall|i: int| 0 <= i < dest_draws.len() ==> #[trigger] dest_draws[i] < registry.0@.len()
                &&& plan == #[trigger] spec_plan(registry.0@, occupied@, origin_draw, dest_draws, heads)
            },
        plan is None <==> (spec_free_stops(registry.0@, occupied@).len() == 0 || single_address(
            registry.0@,
        )),
        plan matches Some(p) ==> {
            &&& p.origin_index < registry.0@.len()
            &&& registry.0@[p.origin_index as int].address == p.origin
            &&& !occupied@.contains(p.origin)
            &&& p.destination != p.origin
            &&& is_registered(registry.0@, p.destination)
        },
{
    let free = registry.free_stops(occupied);
    let bound = if free.len() > 1 {
        free.len()
    } else {
        1
    };
    let origin_draw = random_index(rng, 0, bound);
    let n_stops = registry.0.len();
    let mut dest_draws: Vec<usize> = Vec::new();
    let mut heads = false;
    if let Some(origin_index) = origin_from_draw(&free, origin_draw) {
        proof {
            lemma_free_stops_exact(registry.0@, occupied@, registry.0@.len() as int);
            assert(free@[origin_draw as int] == origin_index);
        }
        let origin = registry.0[origin_index].address;
        if first_other_address(registry, origin).is_some() {
            let mut draws_left: u64 = u64::MAX;
            while draws_left > 0
                invariant
                    n_stops == registry.0.len() >= 1,
                    forall|i: int| 0 <= i < dest_draws.len() ==> #[trigger] dest_draws@[i] < registry.0.len(),
                decreases draws_left,
            {
                let k = random_index(rng, 0, n_stops);
                dest_draws.push(k);
                if destination_accepted(registry.0[k].address, origin) {
                    break;
                }
                draws_left = draws_left - 1;
            }
            heads = random_ratio(rng, 1, 2);
        }
    }
    let plan = plan_spawn(registry, occupied, origin_draw, &dest_draws, heads);
    assert(plan == spec_plan(registry.0@, occupied@, origin_draw, dest_draws@, heads));
    plan
}

} // verus!
