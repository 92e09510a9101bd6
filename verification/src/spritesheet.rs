use vstd::prelude::*;

verus! {

/// A rectangle of a sprite sheet export: top-left corner and size.
#[derive(Debug, Clone, Copy, PartialEq, Eq, Structural)]
pub struct JsonRect {
    pub x: i32,
    pub y: i32,
    pub w: i32,
    pub h: i32,
}

/// A width and height in pixels.
#[derive(Debug, Clone, Copy, PartialEq, Eq, Structural)]
pub struct JsonSize {
    pub h: u32,
    pub w: u32,
}

/// A named animation of the export: frames `from..=to`.
#[derive(Debug)]
pub struct FrameTag {
    pub name: String,
    pub from: u32,
    pub to: u32,
}

/// One frame of the export: where it sits in the atlas and how long it is
/// shown, in milliseconds.
#[derive(Debug, Clone, Copy, PartialEq, Eq, Structural)]
pub struct FrameDescription {
    pub frame: JsonRect,
    pub duration: u32,
}

/// The export's metadata that the game reads: atlas size, image file and
/// animation tags.
#[derive(Debug)]
pub struct Meta {
    pub image: String,
    pub size: JsonSize,
    pub frame_tags: Vec<FrameTag>,
}

/// An Aseprite sprite sheet export.
#[derive(Debug)]
pub struct Spritesheet {
    pub frames: Vec<FrameDescription>,
    pub meta: Meta,
}

/// A rectangle of the atlas as a pair of corners: `min` is the top-left
/// corner, `max` the corner just past the bottom-right.
#[derive(Debug, Clone, Copy)]
pub struct PixelRect {
    pub min: (u32, u32),
    pub max: (u32, u32),
}

/// One animation: its name and its frames as (atlas index, duration in
/// milliseconds).
#[derive(Debug)]
pub struct Animation {
    pub name: String,
    pub frames: Vec<(usize, u32)>,
}

/// A frame rectangle fits `u32` corner arithmetic.
pub open spec fn rect_fits(r: JsonRect) -> bool {
    &&& (r.x as u32) + (r.w as u32) <= u32::MAX
    &&& (r.y as u32) + (r.h as u32) <= u32::MAX
}

/// The corner pair of a frame rectangle.
pub open spec fn spec_corners(r: JsonRect) -> PixelRect {
    PixelRect {
        min: (r.x as u32, r.y as u32),
        max: (((r.x as u32) + (r.w as u32)) as u32, ((r.y as u32) + (r.h as u32)) as u32),
    }
}

/// Number of frames a tag spans (`from..=to`, empty when `from > to`).
pub open spec fn tag_len(tag: FrameTag) -> nat {
    if tag.from <= tag.to {
        (tag.to - tag.from + 1) as nat
    } else {
        0
    }
}

/// The frames of a tag: each atlas index with that frame's duration.
pub open spec fn tag_frames(tag: FrameTag, frames: Seq<FrameDescription>) -> Seq<(usize, u32)> {
    Seq::new(tag_len(tag), |k: int| ((tag.from + k) as usize, frames[tag.from + k].duration))
}

/// Every tag names frames of the export.
pub open spec fn tags_in_range(sheet: Spritesheet) -> bool {
    forall|t: int|
        0 <= t < sheet.meta.frame_tags@.len() ==> {
            let tag = #[trigger] sheet.meta.frame_tags@[t];
            tag.from <= tag.to ==> tag.to < sheet.frames@.len()
        }
}

/// Tag `t` is the last of the first `n` tags that is called `name`.
pub open spec fn last_named(tags: Seq<FrameTag>, t: int, n: int, name: Seq<char>) -> bool {
    &&& 0 <= t < n
    &&& tags[t].name@ == name
    &&& forall|u: int| t < u < n ==> #[trigger] tags[u].name@ != name
}

/// `anim` carries the frames of the last of the first `n` tags with its
/// name.
pub open spec fn from_last_tag(
    anim: Animation,
    tags: Seq<FrameTag>,
    frames: Seq<FrameDescription>,
    n: int,
) -> bool {
    exists|t: int|
        #[trigger] last_named(tags, t, n, anim.name@) && anim.frames@ == tag_frames(tags[t], frames)
}

/// Some animation of `anims` is called `name`.
pub open spec fn has_animation(anims: Seq<Animation>, name: Seq<char>) -> bool {
    exists|i: int| 0 <= i < anims.len() && #[trigger] anims[i].name@ == name
}

/// `anims` is what reading the first `n` tags gives: one animation per tag
/// name, with the frames of the last tag of that name (a later tag replaces
/// an earlier one of the same name).
pub open spec fn animations_of(
    anims: Seq<Animation>,
    tags: Seq<FrameTag>,
    frames: Seq<FrameDescription>,
    n: int,
) -> bool {
    &&& forall|i: int, j: int|
        0 <= i < anims.len() && 0 <= j < anims.len() && i != j ==> #[trigger] anims[i].name@
            != #[trigger] anims[j].name@
    &&& forall|i: int| 0 <= i < anims.len() ==> from_last_tag(#[trigger] anims[i], tags, frames, n)
    &&& forall|t: int| 0 <= t < n ==> has_animation(anims, #[trigger] tags[t].name@)
}

/// The corner pair of a frame spans exactly the frame: `min` is its
/// top-left corner and `max - min` is its width and height.
pub proof fn lemma_corners_span_frame(r: JsonRect)
    requires
        rect_fits(r),
    ensures
        spec_corners(r).min == (r.x as u32, r.y as u32),
        spec_corners(r).max.0 - spec_corners(r).min.0 == r.w as u32,
        spec_corners(r).max.1 - spec_corners(r).min.1 == r.h as u32,
{
}

/// The frames of one tag, in order.
fn tag_frame_list(tag: &FrameTag, frames: &Vec<FrameDescription>) -> (r: Vec<(usize, u32)>)
    requires
        tag.from <= tag.to ==> tag.to < frames@.len(),
    ensures
        r@ == tag_frames(*tag, frames@),
{
    let mut r: Vec<(usize, u32)> = Vec::new();
    if tag.from > tag.to {
        assert(r@ == tag_frames(*tag, frames@));
        return r;
    }
    let from = tag.from as usize;
    let to = tag.to as usize;
    let n = frames.len();
    let mut i = from;
    while i <= to
        invariant
            n == frames@.len(),
            from == tag.from,
            to == tag.to,
            from <= i <= to + 1,
            to < frames@.len(),
            r@.len() == i - from,
            forall|k: int| 0 <= k < r@.len() ==> #[trigger] r@[k] == tag_frames(*tag, frames@)[k],
        decreases to + 1 - i,
    {
        r.push((i, frames[i].duration));
        i = i + 1;
    }
    assert(r@ == tag_frames(*tag, frames@));
    r
}

/// Position of the animation called `name`, if there is one.
fn find_animation(anims: &Vec<Animation>, name: &String) -> (r: Option<usize>)
    ensures
        r matches Some(j) ==> j < anims@.len() && anims@[j as int].name@ == name@,
        r is None ==> forall|i: int| 0 <= i < anims@.len() ==> #[trigger] anims@[i].name@ != name@,
{
    let mut i: usize = 0;
    while i < anims.len()
        invariant
            i <= anims@.len(),
            forall|k: int| 0 <= k < i ==> #[trigger] anims@[k].name@ != name@,
        decreases anims.len() - i,
    {
        if anims[i].name == *name {
            return Some(i);
        }
        i = i + 1;
    }
    None
}

/// Read a sprite sheet export: the atlas size, each frame's rectangle as a
/// corner pair (`max = min + size`), the image file name, and the animations
/// named by its tags, frame by frame with their durations.
pub fn convert(value: &Spritesheet) -> (r: ((u32, u32), Vec<PixelRect>, String, Vec<Animation>))
    requires
        forall|i: int| 0 <= i < value.frames@.len() ==> rect_fits(#[trigger] value.frames@[i].frame),
        tags_in_range(*value),
    ensures
        r.0 == (value.meta.size.w, value.meta.size.h),
        r.1@.len() == value.frames@.len(),
        forall|i: int| 0 <= i < r.1@.len() ==> #[trigger] r.1@[i] == spec_corners(value.frames@[i].frame),
        forall|i: int|
            0 <= i < r.1@.len() ==> {
                let f = value.frames@[i].frame;
                &&& (#[trigger] r.1@[i]).min == (f.x as u32, f.y as u32)
                &&& r.1@[i].max.0 - r.1@[i].min.0 == f.w as u32
                &&& r.1@[i].max.1 - r.1@[i].min.1 == f.h as u32
            },
        r.2@ == value.meta.image@,
        animations_of(r.3@, value.meta.frame_tags@, value.frames@, value.meta.frame_tags@.len() as int),
{
    let size = (value.meta.size.w, value.meta.size.h);
    let mut textures: Vec<PixelRect> = Vec::new();
    let mut i: usize = 0;
    while i < value.frames.len()
        invariant
            i <= value.frames@.len(),
            forall|k: int| 0 <= k < value.frames@.len() ==> rect_fits(#[trigger] value.frames@[k].frame),
            textures@.len() == i,
            forall|k: int| 0 <= k < i ==> #[trigger] textures@[k] == spec_corners(value.frames@[k].frame),
        decreases value.frames.len() - i,
    {
        let f = value.frames[i].frame;
        assert(rect_fits(value.frames@[i as int].frame));
        let min = (f.x as u32, f.y as u32);
        let max = (min.0 + f.w as u32, min.1 + f.h as u32);
        textures.push(PixelRect { min, max });
        i = i + 1;
    }

    let tags = &value.meta.frame_tags;
    let mut animations: Vec<Animation> = Vec::new();
    let mut t: usize = 0;
    while t < tags.len()
        invariant
            t <= tags@.len(),
            tags == &value.meta.frame_tags,
            tags_in_range(*value),
            animations_of(animations@, tags@, value.frames@, t as int),
        decreases tags.len() - t,
    {
        let tag = &tags[t];
        assert(tag.from <= tag.to ==> tag.to < value.frames@.len());
        let frames = tag_frame_list(tag, &value.frames);
        let ghost old_anims = animations@;
        match find_animation(&animations, &tag.name) {
            Some(j) => {
                animations[j] = Animation { name: tag.name.clone(), frames };
                proof {
                    lemma_replace_keeps_animations(
                        old_anims,
                        animations@,
                        j as int,
                        tags@,
                        value.frames@,
                        t as int,
                    );
                }
            },
            None => {
                animations.push(Animation { name: tag.name.clone(), frames });
                proof {
                    lemma_push_keeps_animations(old_anims, animations@, tags@, value.frames@, t as int);
                }
            },
        }
        t = t + 1;
    }
    (size, textures, value.meta.image.clone(), animations)
}

proof fn lemma_replace_keeps_animations(
    old_anims: Seq<Animation>,
    anims: Seq<Animation>,
    j: int,
    tags: Seq<FrameTag>,
    frames: Seq<FrameDescription>,
    t: int,
)
    requires
        0 <= t < tags.len(),
        0 <= j < old_anims.len(),
        old_anims[j].name@ == tags[t].name@,
        anims == old_anims.update(j, anims[j]),
        anims[j].name@ == tags[t].name@,
        anims[j].frames@ == tag_frames(tags[t], frames),
        animations_of(old_anims, tags, frames, t),
    ensures
        animations_of(anims, tags, frames, t + 1),
{
    assert forall|i: int| 0 <= i < anims.len() implies from_last_tag(
        #[trigger] anims[i],
        tags,
        frames,
        t + 1,
    ) by {
        if i == j {
            assert(last_named(tags, t, t + 1, anims[i].name@));
        } else {
            assert(anims[i] == old_anims[i]);
            assert(from_last_tag(old_anims[i], tags, frames, t));
            let w = choose|w: int|
                #[trigger] last_named(tags, w, t, old_anims[i].name@) && old_anims[i].frames@
                    == tag_frames(tags[w], frames);
            assert(old_anims[i].name@ != old_anims[j].name@);
            assert(last_named(tags, w, t + 1, anims[i].name@));
        }
    }
    assert forall|w: int| 0 <= w < t + 1 implies has_animation(anims, #[trigger] tags[w].name@) by {
        if w == t {
            assert(anims[j].name@ == tags[w].name@);
        } else {
            assert(has_animation(old_anims, tags[w].name@));
            let i = choose|i: int| 0 <= i < old_anims.len() && #[trigger] old_anims[i].name@ == tags[w].name@;
            if i == j {
                assert(anims[j].name@ == tags[w].name@);
            } else {
                assert(anims[i] == old_anims[i]);
            }
        }
    }
    assert forall|a: int, b: int|
        0 <= a < anims.len() && 0 <= b < anims.len() && a != b implies #[trigger] anims[a].name@
        != #[trigger] anims[b].name@ by {
        if a != j && b != j {
            assert(anims[a] == old_anims[a] && anims[b] == old_anims[b]);
        } else if a == j {
            assert(anims[b] == old_anims[b]);
            assert(old_anims[j].name@ != old_anims[b].name@);
        } else {
            assert(anims[a] == old_anims[a]);
            assert(old_anims[a].name@ != old_anims[j].name@);
        }
    }
}

proof fn lemma_push_keeps_animations(
    old_anims: Seq<Animation>,
    anims: Seq<Animation>,
    tags: Seq<FrameTag>,
    frames: Seq<FrameDescription>,
    t: int,
)
    requires
        0 <= t < tags.len(),
        forall|i: int| 0 <= i < old_anims.len() ==> #[trigger] old_anims[i].name@ != tags[t].name@,
        anims.len() == old_anims.len() + 1,
        forall|i: int| 0 <= i < old_anims.len() ==> anims[i] == old_anims[i],
        anims[old_anims.len() as int].name@ == tags[t].name@,
        anims[old_anims.len() as int].frames@ == tag_frames(tags[t], frames),
        animations_of(old_anims, tags, frames, t),
    ensures
        animations_of(anims, tags, frames, t + 1),
{
    let n = old_anims.len() as int;
    assert forall|i: int| 0 <= i < anims.len() implies from_last_tag(
        #[trigger] anims[i],
        tags,
        frames,
        t + 1,
    ) by {
        if i == n {
            assert(last_named(tags, t, t + 1, anims[i].name@));
        } else {
            assert(anims[i] == old_anims[i]);
            assert(from_last_tag(old_anims[i], tags, frames, t));
            let w = choose|w: int|
                #[trigger] last_named(tags, w, t, old_anims[i].name@) && old_anims[i].frames@
                    == tag_frames(tags[w], frames);
            assert(last_named(tags, w, t + 1, anims[i].name@));
        }
    }
    assert forall|w: int| 0 <= w < t + 1 implies has_animation(anims, #[trigger] tags[w].name@) by {
        if w == t {
            assert(anims[n].name@ == tags[w].name@);
        } else {
            assert(has_animation(old_anims, tags[w].name@));
            let i = choose|i: int| 0 <= i < old_anims.len() && #[trigger] old_anims[i].name@ == tags[w].name@;
            assert(anims[i] == old_anims[i]);
        }
    }
    assert forall|a: int, b: int|
        0 <= a < anims.len() && 0 <= b < anims.len() && a != b implies #[trigger] anims[a].name@
        != #[trigger] anims[b].name@ by {
        if a < n && b < n {
            assert(anims[a] == old_anims[a] && anims[b] == old_anims[b]);
        } else if a == n {
            assert(anims[b] == old_anims[b]);
        } else {
            assert(anims[a] == old_anims[a]);
        }
    }
}

} // verus!
