use vstd::prelude::*;

verus! {

/// What a pterodactyl is doing.
///
/// Patrolling (flies its route) -> Telegraphing (spotted the player, shows
/// '!') -> Diving (charges at where the player will be) -> Recovering (flies
/// back to its route) -> Patrolling.
#[derive(Debug, Clone, Copy, PartialEq, Eq, Structural)]
pub enum PteroPhase {
    Patrolling,
    Telegraphing,
    Diving,
    Recovering,
}

/// The edges of the pterodactyl's behaviour cycle.
pub open spec fn ptero_step(from: PteroPhase, to: PteroPhase) -> bool {
    match (from, to) {
        (PteroPhase::Patrolling, PteroPhase::Telegraphing) => true,
        (PteroPhase::Telegraphing, PteroPhase::Diving) => true,
        (PteroPhase::Diving, PteroPhase::Recovering) => true,
        (PteroPhase::Recovering, PteroPhase::Patrolling) => true,
        _ => false,
    }
}

/// A patrol route: waypoints in tile coordinates, and the one the
/// pterodactyl is heading for.
#[derive(Debug)]
pub struct Route {
    pub points: Vec<(i32, i32)>,
    pub next: usize,
}

impl Route {
    /// A route's current waypoint is one of its points (an empty route has
    /// none to head for).
    pub open spec fn wf(&self) -> bool {
        self.points@.len() == 0 || self.next < self.points@.len()
    }

    /// A route that starts at its first waypoint.
    pub fn new(points: Vec<(i32, i32)>) -> (r: Route)
        ensures
            r.points@ == points@,
            r.next == 0,
            r.wf(),
    {
        Route { points, next: 0 }
    }

    /// The waypoint the route heads for, if the route has any.
    pub fn current(&self) -> (p: Option<(i32, i32)>)
        requires
            self.wf(),
        ensures
            p == (if self.points@.len() == 0 {
                None
            } else {
                Some(self.points@[self.next as int])
            }),
    {
        if self.points.len() == 0 {
            None
        } else {
            Some(self.points[self.next])
        }
    }
}

/// The waypoint after `next` on a route of `len` points, cycling back to
/// the first.
pub open spec fn spec_following(next: int, len: int) -> int {
    (next + 1) % len
}

/// Patrol bookkeeping: once the pterodactyl is close to its waypoint it
/// heads for the next one, cyclically. An empty route is left alone.
pub fn patrol_motion(route: &mut Route, near_waypoint: bool)
    requires
        old(route).wf(),
    ensures
        final(route).wf(),
        final(route).points@ == old(route).points@,
        final(route).next == (if old(route).points@.len() > 0 && near_waypoint {
            spec_following(old(route).next as int, old(route).points@.len() as int)
        } else {
            old(route).next as int
        }),
{
    if route.points.len() == 0 {
        return;
    }
    if near_waypoint {
        route.next = (route.next + 1) % route.points.len();
    }
}

/// Patrolling -> Telegraphing: the player is there, the dive cooldown has
/// run out, the player is within detection range and in line of sight.
pub fn start_attack(
    phase: PteroPhase,
    player_present: bool,
    cooldown_finished: bool,
    in_range: bool,
    in_sight: bool,
) -> (next: Option<PteroPhase>)
    ensures
        next == (if phase == PteroPhase::Patrolling && player_present && cooldown_finished
            && in_range && in_sight {
            Some(PteroPhase::Telegraphing)
        } else {
            None
        }),
        next matches Some(to) ==> ptero_step(phase, to),
{
    if phase == PteroPhase::Patrolling && player_present && cooldown_finished && in_range
        && in_sight {
        Some(PteroPhase::Telegraphing)
    } else {
        None
    }
}

/// Telegraphing -> Diving once the warning has been shown long enough (and
/// there is a player to dive at).
pub fn launch_dive(phase: PteroPhase, player_present: bool, telegraph_finished: bool) -> (next:
    Option<PteroPhase>)
    ensures
        next == (if phase == PteroPhase::Telegraphing && player_present && telegraph_finished {
            Some(PteroPhase::Diving)
        } else {
            None
        }),
        next matches Some(to) ==> ptero_step(phase, to),
{
    if phase == PteroPhase::Telegraphing && player_present && telegraph_finished {
        Some(PteroPhase::Diving)
    } else {
        None
    }
}

/// How a dive ended.
#[derive(Debug, Clone, Copy, PartialEq, Eq, Structural)]
pub struct DiveEnd {
    /// Missed (overshot the target or hit a wall): shows '?'.
    pub confused: bool,
}

/// Diving -> Recovering: the dive ends when the target is reached, when the
/// pterodactyl overshot it, or when it hit a wall; the dive cooldown starts
/// again. A miss (overshoot or wall) leaves it confused.
pub fn end_dive(phase: PteroPhase, arrived: bool, overshot: bool, wall_contact: bool) -> (end:
    Option<DiveEnd>)
    ensures
        end == (if phase == PteroPhase::Diving && (arrived || overshot || wall_contact) {
            Some(DiveEnd { confused: overshot || wall_contact })
        } else {
            None
        }),
        end is Some ==> ptero_step(phase, PteroPhase::Recovering),
{
    if phase == PteroPhase::Diving && (arrived || overshot || wall_contact) {
        Some(DiveEnd { confused: overshot || wall_contact })
    } else {
        None
    }
}

/// Recovering -> Patrolling once the recovery timer has run out: the patrol
/// resumes from the route point nearest to where the pterodactyl recovered
/// to (`nearest`, `None` for an empty route).
pub fn finish_recovering(
    phase: PteroPhase,
    timer_finished: bool,
    route: &mut Route,
    nearest: Option<usize>,
) -> (next: Option<PteroPhase>)
    requires
        old(route).wf(),
        nearest matches Some(i) ==> i < old(route).points@.len(),
    ensures
        final(route).wf(),
        final(route).points@ == old(route).points@,
        next == (if phase == PteroPhase::Recovering && timer_finished {
            Some(PteroPhase::Patrolling)
        } else {
            None
        }),
        final(route).next == (if next is Some && nearest is Some {
            nearest->0
        } else {
            old(route).next
        }),
        next matches Some(to) ==> ptero_step(phase, to),
{
    if phase == PteroPhase::Recovering && timer_finished {
        if let Some(i) = nearest {
            route.next = i;
        }
        Some(PteroPhase::Patrolling)
    } else {
        None
    }
}

/// The waypoint index after `n` waypoints have been reached.
pub open spec fn spec_waypoint_after(next: int, len: int, n: nat) -> int
    decreases n,
{
    if n == 0 {
        next
    } else {
        spec_following(spec_waypoint_after(next, len, (n - 1) as nat), len)
    }
}

/// A patrol visits its waypoints in order and cyclically: after reaching
/// `n` waypoints it heads for `(next + n) mod len`; after a full lap it is
/// back at the waypoint it started from.
pub proof fn lemma_patrol_cycles(next: int, len: int, n: nat)
    requires
        0 <= next < len,
    ensures
        spec_waypoint_after(next, len, n) == (next + n) % len,
        0 <= spec_waypoint_after(next, len, n) < len,
        spec_waypoint_after(next, len, len as nat) == next,
    decreases n,
{
    lemma_waypoint_steps(next, len, n);
    lemma_waypoint_steps(next, len, len as nat);
    assert(0 <= (next + n) % len < len) by (nonlinear_arith)
        requires
            0 <= next,
            0 < len,
    ;
    assert((next + len) % len == next) by (nonlinear_arith)
        requires
            0 <= next < len,
    ;
}

proof fn lemma_waypoint_steps(next: int, len: int, n: nat)
    requires
        0 <= next < len,
    ensures
        spec_waypoint_after(next, len, n) == (next + n) % len,
    decreases n,
{
    if n == 0 {
        assert(next % len == next) by (nonlinear_arith)
            requires
                0 <= next < len,
        ;
    } else {
        lemma_waypoint_steps(next, len, (n - 1) as nat);
        let p = (next + n - 1) % len;
        assert((p + 1) % len == (next + n) % len) by (nonlinear_arith)
            requires
                0 <= next,
                0 < len,
                n >= 1,
                p == (next + n - 1) % len,
        ;
    }
}

} // verus!
