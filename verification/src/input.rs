use vstd::prelude::*;

verus! {

/// The verbs a player can perform.
#[derive(Debug, Clone, Copy, PartialEq, Eq, Hash, Structural)]
pub enum Action {
    /// Held: upward thrust.
    Thrust,
    /// Axis: horizontal steer, -1 ..= 1.
    Move,
    Honk,
    Pause,
}

/// The physical controls an action can be bound to.
#[derive(Debug, Clone, Copy, PartialEq, Eq, Hash, Structural)]
pub enum Control {
    ArrowUp,
    Space,
    Enter,
    Escape,
    KeyW,
    KeyQ,
    /// Left and right arrow keys as one axis.
    ArrowKeysHorizontal,
    /// A and D keys as one axis.
    KeysAD,
    PadSouth,
    PadRightTrigger2,
    PadWest,
    PadStart,
    /// The gamepad's left stick, horizontally, with a small dead zone.
    PadLeftStickX,
}

/// The keyboard half of a player's bindings: player 1 plays on the arrows,
/// everybody else on W/A/D.
pub open spec fn spec_keyboard(player: u8) -> Seq<(Action, Control)> {
    if player == 1 {
        seq![
            (Action::Thrust, Control::ArrowUp),
            (Action::Thrust, Control::Space),
            (Action::Move, Control::ArrowKeysHorizontal),
            (Action::Honk, Control::Enter),
            (Action::Pause, Control::Escape),
        ]
    } else {
        seq![
            (Action::Thrust, Control::KeyW),
            (Action::Move, Control::KeysAD),
            (Action::Honk, Control::KeyQ),
            (Action::Pause, Control::Escape),
        ]
    }
}

/// The gamepad half, the same for every player: separate pads, not
/// separate schemes.
pub open spec fn spec_gamepad() -> Seq<(Action, Control)> {
    seq![
        (Action::Thrust, Control::PadSouth),
        (Action::Thrust, Control::PadRightTrigger2),
        (Action::Move, Control::PadLeftStickX),
        (Action::Honk, Control::PadWest),
        (Action::Pause, Control::PadStart),
    ]
}

/// Is `action` bound to some control in `bindings`?
pub open spec fn binds(bindings: Seq<(Action, Control)>, action: Action) -> bool {
    exists|i: int| 0 <= i < bindings.len() && #[trigger] bindings[i].0 == action
}

/// One player's bindings: keyboard and gamepad in a single list.
pub fn input_map_for(player: u8) -> (m: Vec<(Action, Control)>)
    ensures
        m@ == spec_keyboard(player) + spec_gamepad(),
{
    let mut m: Vec<(Action, Control)> = Vec::new();
    if player == 1 {
        m.push((Action::Thrust, Control::ArrowUp));
        m.push((Action::Thrust, Control::Space));
        m.push((Action::Move, Control::ArrowKeysHorizontal));
        m.push((Action::Honk, Control::Enter));
        m.push((Action::Pause, Control::Escape));
    } else {
        m.push((Action::Thrust, Control::KeyW));
        m.push((Action::Move, Control::KeysAD));
        m.push((Action::Honk, Control::KeyQ));
        m.push((Action::Pause, Control::Escape));
    }
    m.push((Action::Thrust, Control::PadSouth));
    m.push((Action::Thrust, Control::PadRightTrigger2));
    m.push((Action::Move, Control::PadLeftStickX));
    m.push((Action::Honk, Control::PadWest));
    m.push((Action::Pause, Control::PadStart));
    assert(m@ == spec_keyboard(player) + spec_gamepad());
    m
}

/// Every player can perform every action from the keyboard and from a
/// gamepad, and Escape pauses for everybody.
pub proof fn lemma_every_action_bound(player: u8, action: Action)
    ensures
        binds(spec_keyboard(player), action),
        binds(spec_gamepad(), action),
        spec_keyboard(player).contains((Action::Pause, Control::Escape)),
{
    let k = spec_keyboard(player);
    let g = spec_gamepad();
    if player == 1 {
        match action {
            Action::Thrust => assert(k[0].0 == action),
            Action::Move => assert(k[2].0 == action),
            Action::Honk => assert(k[3].0 == action),
            Action::Pause => assert(k[4].0 == action),
        }
        assert(k[4] == (Action::Pause, Control::Escape));
    } else {
        match action {
            Action::Thrust => assert(k[0].0 == action),
            Action::Move => assert(k[1].0 == action),
            Action::Honk => assert(k[2].0 == action),
            Action::Pause => assert(k[3].0 == action),
        }
        assert(k[3] == (Action::Pause, Control::Escape));
    }
    match action {
        Action::Thrust => assert(g[0].0 == action),
        Action::Move => assert(g[2].0 == action),
        Action::Honk => assert(g[3].0 == action),
        Action::Pause => assert(g[4].0 == action),
    }
}

/// What one fixed-clock tick does with the honk buffer.
#[derive(Debug, Clone, Copy, PartialEq, Eq, Structural)]
pub struct HonkStep {
    /// Whether a honk goes out this tick.
    pub fires: bool,
    /// Whether the buffer is still armed afterwards.
    pub armed: bool,
}

/// Fixed clock: an armed buffer (a press not yet consumed, whose buffer
/// window has not run out) fires one honk and is spent; an unarmed one does
/// nothing.
pub fn consume_honk(armed: bool) -> (r: HonkStep)
    ensures
        r == (HonkStep { fires: armed, armed: false }),
{
    if armed {
        HonkStep { fires: true, armed: false }
    } else {
        HonkStep { fires: false, armed: false }
    }
}

/// One press gives at most one honk: after a tick has consumed the buffer,
/// the next tick fires nothing until the buffer is armed again.
pub proof fn lemma_one_honk_per_press(armed: bool)
    ensures
        !(HonkStep { fires: armed, armed: false }).armed,
        ({
            let after = HonkStep { fires: armed, armed: false };
            !(HonkStep { fires: after.armed, armed: false }).fires
        }),
{
}

} // verus!
