use vstd::prelude::*;

verus! {

/// One step of a clip's playhead: move to the next frame; at the last frame
/// a looping clip starts over and a one-shot clip stays.
pub open spec fn spec_next_frame(frame: int, len: int, looped: bool) -> int {
    if frame < len - 1 {
        frame + 1
    } else if looped {
        0
    } else {
        frame
    }
}

/// The playhead after `n` steps.
pub open spec fn spec_frame_after(frame: int, len: int, looped: bool, n: nat) -> int
    decreases n,
{
    if n == 0 {
        frame
    } else {
        spec_next_frame(spec_frame_after(frame, len, looped, (n - 1) as nat), len, looped)
    }
}

/// Advance the playhead of a clip with `len` frames when its frame timer
/// runs out (see `spec_next_frame`).
pub fn advance_frame(frame: usize, len: usize, looped: bool) -> (next: usize)
    requires
        0 < len,
    ensures
        next == spec_next_frame(frame as int, len as int, looped),
        frame < len || looped ==> next < len,
        frame + 1 < len ==> next == frame + 1,
        frame + 1 >= len && looped ==> next == 0,
        frame + 1 >= len && !looped ==> next == frame,
{
    let last = len - 1;
    if frame < last {
        frame + 1
    } else if looped {
        0
    } else {
        frame
    }
}

/// The copter's three looks.
#[derive(Debug, Clone, Copy, PartialEq, Eq, Structural)]
pub enum CopterClip {
    Idle,
    Fly,
    Fall,
}

impl CopterClip {
    /// The animation tag of this look in the copter sheet.
    pub fn tag(self) -> (s: &'static str)
        ensures
            self == CopterClip::Idle ==> s@ == "idle"@,
            self == CopterClip::Fly ==> s@ == "fly"@,
            self == CopterClip::Fall ==> s@ == "fall"@,
    {
        match self {
            CopterClip::Idle => "idle",
            CopterClip::Fly => "fly",
            CopterClip::Fall => "fall",
        }
    }
}

/// The look follows the physics: on the ground it idles, with thrust held it
/// flies, otherwise it falls.
pub fn select_copter_clip(grounded: bool, thrusting: bool) -> (c: CopterClip)
    ensures
        c == (if grounded {
            CopterClip::Idle
        } else if thrusting {
            CopterClip::Fly
        } else {
            CopterClip::Fall
        }),
{
    if grounded {
        CopterClip::Idle
    } else if thrusting {
        CopterClip::Fly
    } else {
        CopterClip::Fall
    }
}

/// The playhead never leaves the clip.
pub proof fn lemma_frame_stays_in_clip(frame: int, len: int, looped: bool, n: nat)
    requires
        0 <= frame < len,
    ensures
        0 <= spec_frame_after(frame, len, looped, n) < len,
    decreases n,
{
    if n > 0 {
        lemma_frame_stays_in_clip(frame, len, looped, (n - 1) as nat);
    }
}

/// A looping clip is periodic: after `n` steps the playhead is at
/// `(frame + n) mod len`, so after `len` steps it is back where it started.
pub proof fn lemma_looping_clip_cycles(frame: int, len: int, n: nat)
    requires
        0 <= frame < len,
    ensures
        spec_frame_after(frame, len, true, n) == (frame + n) % len,
        spec_frame_after(frame, len, true, len as nat) == frame,
    decreases n,
{
    lemma_looping_steps(frame, len, n);
    lemma_looping_steps(frame, len, len as nat);
    assert((frame + len) % len == frame) by (nonlinear_arith)
        requires
            0 <= frame < len,
    ;
}

proof fn lemma_looping_steps(frame: int, len: int, n: nat)
    requires
        0 <= frame < len,
    ensures
        spec_frame_after(frame, len, true, n) == (frame + n) % len,
    decreases n,
{
    if n == 0 {
        assert(frame % len == frame) by (nonlinear_arith)
            requires
                0 <= frame < len,
        ;
    } else {
        lemma_looping_steps(frame, len, (n - 1) as nat);
        let p = (frame + n - 1) % len;
        assert(0 <= p < len) by (nonlinear_arith)
            requires
                0 < len,
                0 <= frame + n - 1,
                p == (frame + n - 1) % len,
        ;
        assert(spec_next_frame(p, len, true) == (frame + n) % len) by (nonlinear_arith)
            requires
                0 <= frame,
                0 < len,
                n >= 1,
                p == (frame + n - 1) % len,
                spec_next_frame(p, len, true) == (if p < len - 1 {
                    p + 1
                } else {
                    0
                }),
        ;
    }
}

/// A one-shot clip plays forward and then rests on its last frame.
pub proof fn lemma_one_shot_clip_rests(frame: int, len: int, n: nat)
    requires
        0 <= frame < len,
    ensures
        spec_frame_after(frame, len, false, n) == (if frame + n < len - 1 {
            frame + n
        } else {
            len - 1
        }),
    decreases n,
{
    if n > 0 {
        lemma_one_shot_clip_rests(frame, len, (n - 1) as nat);
    }
}

} // verus!
