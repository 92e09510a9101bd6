use oogaxi::spritesheet::{
    convert, FrameDescription, FrameTag, JsonRect, JsonSize, Meta, Spritesheet,
};

fn frame(x: i32, y: i32, w: i32, h: i32, duration: u32) -> FrameDescription {
    FrameDescription { frame: JsonRect { x, y, w, h }, duration }
}

fn tag(name: &str, from: u32, to: u32) -> FrameTag {
    FrameTag { name: name.to_string(), from, to }
}

fn sheet(frames: Vec<FrameDescription>, tags: Vec<FrameTag>) -> Spritesheet {
    Spritesheet {
        frames,
        meta: Meta {
            image: "a.png".to_string(),
            size: JsonSize { w: 133, h: 133 },
            frame_tags: tags,
        },
    }
}

#[test]
fn rects_are_corner_pairs_not_sizes() {
    let sheet = sheet(vec![frame(34, 1, 32, 32, 80)], vec![tag("idle", 0, 0)]);
    let (_, rects, _, anims) = convert(&sheet);
    assert_eq!(rects[0].min, (34, 1));
    assert_eq!(rects[0].max, (66, 33)); // min + size
    let idle = anims.iter().find(|a| a.name == "idle").unwrap();
    let (index, millis) = idle.frames[0];
    assert_eq!((index, millis as f32 / 1000.0), (0, 0.08)); // durations survive, in seconds
}

#[test]
fn convert_keeps_size_and_image() {
    let sheet = sheet(vec![frame(0, 0, 16, 16, 100)], vec![]);
    let (size, rects, image, anims) = convert(&sheet);
    assert_eq!(size, (133, 133));
    assert_eq!(rects.len(), 1);
    assert_eq!(image, "a.png");
    assert!(anims.is_empty());
}

#[test]
fn convert_tag_spans_inclusive_range() {
    let frames = vec![
        frame(0, 0, 8, 8, 10),
        frame(8, 0, 8, 8, 20),
        frame(16, 0, 8, 8, 30),
        frame(24, 0, 8, 8, 40),
    ];
    let sheet = sheet(frames, vec![tag("fly", 1, 3), tag("idle", 0, 0)]);
    let (_, rects, _, anims) = convert(&sheet);
    assert_eq!(rects[3].min, (24, 0));
    assert_eq!(rects[3].max, (32, 8));
    let fly = anims.iter().find(|a| a.name == "fly").unwrap();
    assert_eq!(fly.frames, vec![(1, 20), (2, 30), (3, 40)]);
    let idle = anims.iter().find(|a| a.name == "idle").unwrap();
    assert_eq!(idle.frames, vec![(0, 10)]);
}

#[test]
fn convert_later_tag_replaces_same_name() {
    let frames = vec![frame(0, 0, 8, 8, 10), frame(8, 0, 8, 8, 20)];
    let sheet = sheet(frames, vec![tag("a", 0, 0), tag("a", 1, 1)]);
    let (_, _, _, anims) = convert(&sheet);
    assert_eq!(anims.len(), 1);
    assert_eq!(anims[0].frames, vec![(1, 20)]);
}

#[test]
fn convert_reversed_tag_is_empty() {
    let frames = vec![frame(0, 0, 8, 8, 10)];
    let sheet = sheet(frames, vec![tag("none", 5, 2)]);
    let (_, _, _, anims) = convert(&sheet);
    assert_eq!(anims.len(), 1);
    assert!(anims[0].frames.is_empty());
}

#[test]
fn convert_negative_corner_wraps_like_a_cast() {
    let sheet = sheet(vec![frame(-1, 0, 1, 1, 10)], vec![]);
    let (_, rects, _, _) = convert(&sheet);
    assert_eq!(rects[0].min, (u32::MAX, 0));
}
