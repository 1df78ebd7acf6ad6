use vstd::prelude::*;

verus! {

/// Name reported for both controller ports when they are connected.
pub const DEVICE_NAME: &'static str = "Sony PlayStation DualShock";

/// Vendor id reported for both controller ports.
pub const VENDOR_ID: u16 = 0x054C;

/// One of the two controller ports.
#[derive(Clone, Copy, PartialEq, Eq, Debug, Structural)]
pub enum Port {
    One,
    Two,
}

/// Marker of the player 1 gamepad.
#[derive(Clone, Copy, PartialEq, Eq, Debug, Default, Structural)]
#[non_exhaustive]
pub struct P1 {}

/// Marker of the player 2 gamepad.
#[derive(Clone, Copy, PartialEq, Eq, Debug, Default, Structural)]
#[non_exhaustive]
pub struct P2 {}

impl P1 {
    pub fn new() -> (r: P1) {
        P1 {}
    }

    /// The port this player's pad is read from.
    pub fn port(&self) -> (r: Port)
        ensures
            r == Port::One,
    {
        Port::One
    }
}

impl P2 {
    pub fn new() -> (r: P2) {
        P2 {}
    }

    /// The port this player's pad is read from.
    pub fn port(&self) -> (r: Port)
        ensures
            r == Port::Two,
    {
        Port::Two
    }
}

/// Physical pad buttons, each named after its bit in the pad's button word.
#[derive(Clone, Copy, PartialEq, Eq, Debug, Structural)]
pub enum Button {
    Select,
    L3,
    R3,
    Start,
    Up,
    Right,
    Down,
    Left,
    L2,
    R2,
    L1,
    R1,
    Triangle,
    Circle,
    Cross,
    Square,
}

/// Logical gamepad buttons, independent of the pad's own labels.
#[derive(Clone, Copy, PartialEq, Eq, Debug, Structural)]
pub enum GamepadButton {
    Select,
    LeftThumb,
    RightThumb,
    Start,
    DPadUp,
    DPadRight,
    DPadDown,
    DPadLeft,
    LeftTrigger2,
    RightTrigger2,
    LeftTrigger,
    RightTrigger,
    North,
    East,
    South,
    West,
}

/// The four analog stick components.
#[derive(Clone, Copy, PartialEq, Eq, Debug, Structural)]
pub enum GamepadAxis {
    LeftStickX,
    LeftStickY,
    RightStickX,
    RightStickY,
}

/// The fixed order in which buttons are examined; button `i` of it owns bit
/// `i` of the button word.
pub open spec fn button_order() -> Seq<Button> {
    seq![
        Button::Select, Button::L3, Button::R3, Button::Start,
        Button::Up, Button::Right, Button::Down, Button::Left,
        Button::L2, Button::R2, Button::L1, Button::R1,
        Button::Triangle, Button::Circle, Button::Cross, Button::Square,
    ]
}

/// The fixed order in which stick components are examined.
pub open spec fn axis_order() -> Seq<GamepadAxis> {
    seq![
        GamepadAxis::LeftStickX, GamepadAxis::LeftStickY,
        GamepadAxis::RightStickX, GamepadAxis::RightStickY,
    ]
}

impl Button {
    pub open spec fn spec_bit(self) -> u16 {
        match self {
            Button::Select => 0,
            Button::L3 => 1,
            Button::R3 => 2,
            Button::Start => 3,
            Button::Up => 4,
            Button::Right => 5,
            Button::Down => 6,
            Button::Left => 7,
            Button::L2 => 8,
            Button::R2 => 9,
            Button::L1 => 10,
            Button::R1 => 11,
            Button::Triangle => 12,
            Button::Circle => 13,
            Button::Cross => 14,
            Button::Square => 15,
        }
    }

    /// Position of this button's bit in the button word.
    pub fn bit(self) -> (r: u16)
        ensures
            r == self.spec_bit(),
            r < 16,
    {
        match self {
            Button::Select => 0,
            Button::L3 => 1,
            Button::R3 => 2,
            Button::Start => 3,
            Button::Up => 4,
            Button::Right => 5,
            Button::Down => 6,
            Button::Left => 7,
            Button::L2 => 8,
            Button::R2 => 9,
            Button::L1 => 10,
            Button::R1 => 11,
            Button::Triangle => 12,
            Button::Circle => 13,
            Button::Cross => 14,
            Button::Square => 15,
        }
    }
}

pub open spec fn spec_logical_button(b: Button) -> GamepadButton {
    match b {
        Button::Select => GamepadButton::Select,
        Button::L3 => GamepadButton::LeftThumb,
        Button::R3 => GamepadButton::RightThumb,
        Button::Start => GamepadButton::Start,
        Button::Up => GamepadButton::DPadUp,
        Button::Right => GamepadButton::DPadRight,
        Button::Down => GamepadButton::DPadDown,
        Button::Left => GamepadButton::DPadLeft,
        Button::L2 => GamepadButton::LeftTrigger2,
        Button::R2 => GamepadButton::RightTrigger2,
        Button::L1 => GamepadButton::LeftTrigger,
        Button::R1 => GamepadButton::RightTrigger,
        Button::Triangle => GamepadButton::North,
        Button::Circle => GamepadButton::East,
        Button::Cross => GamepadButton::South,
        Button::Square => GamepadButton::West,
    }
}

/// The logical button that a pad button reports as.
pub fn logical_button(b: Button) -> (r: GamepadButton)
    ensures
        r == spec_logical_button(b),
{
    match b {
        Button::Select => GamepadButton::Select,
        Button::L3 => GamepadButton::LeftThumb,
        Button::R3 => GamepadButton::RightThumb,
        Button::Start => GamepadButton::Start,
        Button::Up => GamepadButton::DPadUp,
        Button::Right => GamepadButton::DPadRight,
        Button::Down => GamepadButton::DPadDown,
        Button::Left => GamepadButton::DPadLeft,
        Button::L2 => GamepadButton::LeftTrigger2,
        Button::R2 => GamepadButton::RightTrigger2,
        Button::L1 => GamepadButton::LeftTrigger,
        Button::R1 => GamepadButton::RightTrigger,
        Button::Triangle => GamepadButton::North,
        Button::Circle => GamepadButton::East,
        Button::Cross => GamepadButton::South,
        Button::Square => GamepadButton::West,
    }
}

/// All sixteen pad buttons in their fixed order.
pub fn all_buttons() -> (r: [Button; 16])
    ensures
        r@ == button_order(),
{
    let r = [
        Button::Select, Button::L3, Button::R3, Button::Start,
        Button::Up, Button::Right, Button::Down, Button::Left,
        Button::L2, Button::R2, Button::L1, Button::R1,
        Button::Triangle, Button::Circle, Button::Cross, Button::Square,
    ];
    assert(r@ =~= button_order());
    r
}

/// One analog stick reading, each component 0 to 255 with 128 at rest.
#[derive(Clone, Copy, PartialEq, Eq, Debug, Structural)]
pub struct Stick {
    pub x: u8,
    pub y: u8,
}

/// Signed offset of a raw stick component from its rest position.
pub open spec fn spec_offset(raw: u8) -> i8 {
    (raw as int - 128) as i8
}

impl Stick {
    /// Horizontal offset from rest, -128 to 127.
    pub fn horizontal(&self) -> (r: i8)
        ensures
            r == spec_offset(self.x),
            r as int == self.x as int - 128,
    {
        (self.x as i16 - 128) as i8
    }

    /// Vertical offset from rest, -128 to 127.
    pub fn vertical(&self) -> (r: i8)
        ensures
            r == spec_offset(self.y),
            r as int == self.y as int - 128,
    {
        (self.y as i16 - 128) as i8
    }
}

/// One frame's reading of a controller port. In `buttons`, the bit of each
/// button (see `Button::bit`) is clear while the button is held down, as
/// the pad reports it.
#[derive(Clone, Copy, PartialEq, Eq, Debug, Structural)]
pub struct ControllerSample {
    pub buttons: u16,
    pub left: Stick,
    pub right: Stick,
}

/// Whether `b` is held down according to the button word `word`.
pub open spec fn spec_pressed(word: u16, b: Button) -> bool {
    (word >> b.spec_bit()) & 1u16 == 0u16
}

/// The raw value of one stick component of a sample.
pub open spec fn spec_component(s: ControllerSample, a: GamepadAxis) -> u8 {
    match a {
        GamepadAxis::LeftStickX => s.left.x,
        GamepadAxis::LeftStickY => s.left.y,
        GamepadAxis::RightStickX => s.right.x,
        GamepadAxis::RightStickY => s.right.y,
    }
}

impl ControllerSample {
    /// A sample with every button up and both sticks at rest.
    pub fn released() -> (r: ControllerSample)
        ensures
            r.buttons == 0xFFFFu16,
            r.left == (Stick { x: 128, y: 128 }),
            r.right == (Stick { x: 128, y: 128 }),
    {
        ControllerSample {
            buttons: 0xFFFF,
            left: Stick { x: 128, y: 128 },
            right: Stick { x: 128, y: 128 },
        }
    }

    /// Whether `b` is held down in this sample.
    pub fn pressed(&self, b: Button) -> (r: bool)
        ensures
            r == spec_pressed(self.buttons, b),
    {
        (self.buttons >> b.bit()) & 1 == 0
    }

    /// The raw value of stick component `a`.
    pub fn component(&self, a: GamepadAxis) -> (r: u8)
        ensures
            r == spec_component(*self, a),
    {
        match a {
            GamepadAxis::LeftStickX => self.left.x,
            GamepadAxis::LeftStickY => self.left.y,
            GamepadAxis::RightStickX => self.right.x,
            GamepadAxis::RightStickY => self.right.y,
        }
    }
}

/// A change reported by the controller poller.
#[derive(Clone, Copy, PartialEq, Eq, Debug)]
pub enum InputEvent {
    /// A pad was found on `port`.
    Connection { port: Port, name: &'static str, vendor_id: u16, product_id: Option<u16> },
    /// A button went down (`pressed`) or up.
    ButtonChanged { port: Port, button: GamepadButton, pressed: bool },
    /// A stick component moved; `value` is its offset from rest, so the
    /// normalized position in [-1, 1] is `value / 128`.
    AxisChanged { port: Port, axis: GamepadAxis, value: i8 },
}

/// The event announcing the pad on `port`.
pub open spec fn connection_event(port: Port) -> InputEvent {
    InputEvent::Connection { port, name: DEVICE_NAME, vendor_id: VENDOR_ID, product_id: None }
}

/// The event for stick component `a`, if it moved between the samples.
pub open spec fn axis_event(port: Port, old: ControllerSample, new: ControllerSample, a: GamepadAxis) -> Seq<InputEvent> {
    if spec_component(old, a) != spec_component(new, a) {
        seq![InputEvent::AxisChanged { port, axis: a, value: spec_offset(spec_component(new, a)) }]
    } else {
        Seq::empty()
    }
}

/// The event for button `b`, if its state changed between the samples.
pub open spec fn button_event(port: Port, old: ControllerSample, new: ControllerSample, b: Button) -> Seq<InputEvent> {
    if spec_pressed(old.buttons, b) != spec_pressed(new.buttons, b) {
        seq![InputEvent::ButtonChanged {
            port,
            button: spec_logical_button(b),
            pressed: spec_pressed(new.buttons, b),
        }]
    } else {
        Seq::empty()
    }
}

/// Events of the first `n` stick components, in their fixed order.
pub open spec fn axis_events(port: Port, old: ControllerSample, new: ControllerSample, n: nat) -> Seq<InputEvent>
    decreases n,
{
    if n == 0 {
        Seq::empty()
    } else {
        axis_events(port, old, new, (n - 1) as nat) + axis_event(port, old, new, axis_order()[n - 1])
    }
}

/// Events of the first `n` buttons, in their fixed order.
pub open spec fn button_events(port: Port, old: ControllerSample, new: ControllerSample, n: nat) -> Seq<InputEvent>
    decreases n,
{
    if n == 0 {
        Seq::empty()
    } else {
        button_events(port, old, new, (n - 1) as nat) + button_event(port, old, new, button_order()[n - 1])
    }
}

/// Every change from `old` to `new` on `port`: stick events first, then
/// button events.
pub open spec fn spec_diff(port: Port, old: ControllerSample, new: ControllerSample) -> Seq<InputEvent> {
    axis_events(port, old, new, 4) + button_events(port, old, new, 16)
}

fn axis_at(i: usize) -> (r: GamepadAxis)
    requires
        i < 4,
    ensures
        r == axis_order()[i as int],
{
    if i == 0 {
        GamepadAxis::LeftStickX
    } else if i == 1 {
        GamepadAxis::LeftStickY
    } else if i == 2 {
        GamepadAxis::RightStickX
    } else {
        GamepadAxis::RightStickY
    }
}

/// The events that take a port from sample `old` to sample `new`: one
/// `AxisChanged` for each stick component that differs, then one
/// `ButtonChanged` for each button whose state differs, in the fixed button
/// order.
pub fn diff(port: Port, old: &ControllerSample, new: &ControllerSample) -> (r: Vec<InputEvent>)
    ensures
        r@ == spec_diff(port, *old, *new),
{
    let mut events: Vec<InputEvent> = Vec::new();
    let mut i: usize = 0;
    while i < 4
        invariant
            i <= 4,
            events@ == axis_events(port, *old, *new, i as nat),
        decreases 4 - i,
    {
        let a = axis_at(i);
        let before = old.component(a);
        let after = new.component(a);
        if before != after {
            let value = match a {
                GamepadAxis::LeftStickX => new.left.horizontal(),
                GamepadAxis::LeftStickY => new.left.vertical(),
                GamepadAxis::RightStickX => new.right.horizontal(),
                GamepadAxis::RightStickY => new.right.vertical(),
            };
            events.push(InputEvent::AxisChanged { port, axis: a, value });
        }
        proof {
            assert(events@ =~= axis_events(port, *old, *new, (i + 1) as nat));
        }
        i += 1;
    }
    let buttons = all_buttons();
    let ghost n_axis = events@;
    let mut j: usize = 0;
    while j < 16
        invariant
            j <= 16,
            buttons@ == button_order(),
            n_axis == axis_events(port, *old, *new, 4),
            events@ == n_axis + button_events(port, *old, *new, j as nat),
        decreases 16 - j,
    {
        let b = buttons[j];
        let value = new.pressed(b);
        if old.pressed(b) != value {
            events.push(InputEvent::ButtonChanged { port, button: logical_button(b), pressed: value });
        }
        proof {
            assert(events@ =~= n_axis + button_events(port, *old, *new, (j + 1) as nat));
        }
        j += 1;
    }
    events
}

/// The controller poller: the last sample of each port. Each frame's new
/// samples are diffed against the stored ones and then replace them.
pub struct PSXInputPlugin {
    p1: ControllerSample,
    p2: ControllerSample,
}

impl PSXInputPlugin {
    pub closed spec fn spec_p1(&self) -> ControllerSample {
        self.p1
    }

    pub closed spec fn spec_p2(&self) -> ControllerSample {
        self.p2
    }

    /// Starts from the first samples read from the two ports.
    pub fn new(p1: ControllerSample, p2: ControllerSample) -> (r: PSXInputPlugin)
        ensures
            r.spec_p1() == p1,
            r.spec_p2() == p2,
    {
        PSXInputPlugin { p1, p2 }
    }

    /// The last sample of port 1.
    pub fn p1(&self) -> (r: ControllerSample)
        ensures
            r == self.spec_p1(),
    {
        self.p1
    }

    /// The last sample of port 2.
    pub fn p2(&self) -> (r: ControllerSample)
        ensures
            r == self.spec_p2(),
    {
        self.p2
    }

    /// The connection events sent once at the end of setup: both ports are
    /// taken as connected for good, since pad removal cannot be detected.
    pub fn finish(&self) -> (r: Vec<InputEvent>)
        ensures
            r@ == seq![connection_event(Port::One), connection_event(Port::Two)],
    {
        let mut events: Vec<InputEvent> = Vec::new();
        events.push(InputEvent::Connection {
            port: Port::One,
            name: DEVICE_NAME,
            vendor_id: VENDOR_ID,
            product_id: None,
        });
        events.push(InputEvent::Connection {
            port: Port::Two,
            name: DEVICE_NAME,
            vendor_id: VENDOR_ID,
            product_id: None,
        });
        assert(events@ =~= seq![connection_event(Port::One), connection_event(Port::Two)]);
        events
    }

    /// Takes this frame's samples: returns the events of port 1, then those
    /// of port 2, and stores the new samples.
    pub fn update_gamepads(&mut self, p1: ControllerSample, p2: ControllerSample) -> (r: Vec<InputEvent>)
        ensures
            r@ == spec_diff(Port::One, old(self).spec_p1(), p1) + spec_diff(Port::Two, old(self).spec_p2(), p2),
            final(self).spec_p1() == p1,
            final(self).spec_p2() == p2,
    {
        let mut events = diff(Port::One, &self.p1, &p1);
        let mut second = diff(Port::Two, &self.p2, &p2);
        events.append(&mut second);
        self.p1 = p1;
        self.p2 = p2;
        events
    }
}

proof fn lemma_no_button_events(port: Port, old: ControllerSample, new: ControllerSample, n: nat)
    requires
        old.buttons == new.buttons,
    ensures
        button_events(port, old, new, n) == Seq::<InputEvent>::empty(),
    decreases n,
{
    if n > 0 {
        lemma_no_button_events(port, old, new, (n - 1) as nat);
        assert(button_events(port, old, new, n) =~= Seq::<InputEvent>::empty());
    }
}

/// Two equal samples produce no event.
pub proof fn lemma_diff_unchanged(port: Port, s: ControllerSample)
    ensures
        spec_diff(port, s, s) == Seq::<InputEvent>::empty(),
{
    lemma_no_button_events(port, s, s, 16);
    reveal_with_fuel(axis_events, 5);
    assert(spec_diff(port, s, s) =~= Seq::<InputEvent>::empty());
}

/// Samples that differ in one stick component `a` alone produce exactly one
/// event: the `AxisChanged` of `a`, carrying the new offset, and no button
/// event.
pub proof fn lemma_diff_single_axis(port: Port, old: ControllerSample, new: ControllerSample, a: GamepadAxis)
    requires
        old.buttons == new.buttons,
        spec_component(old, a) != spec_component(new, a),
        forall|b: GamepadAxis| b != a ==> spec_component(old, b) == spec_component(new, b),
    ensures
        spec_diff(port, old, new) == seq![
            InputEvent::AxisChanged { port, axis: a, value: spec_offset(spec_component(new, a)) },
        ],
{
    lemma_no_button_events(port, old, new, 16);
    reveal_with_fuel(axis_events, 5);
    assert(forall|b: GamepadAxis| b != a ==> axis_event(port, old, new, b) == Seq::<InputEvent>::empty());
    assert(spec_diff(port, old, new) =~= seq![
        InputEvent::AxisChanged { port, axis: a, value: spec_offset(spec_component(new, a)) },
    ]);
}

/// The release of button `i` of the fixed order.
pub open spec fn release_event(port: Port, i: int) -> InputEvent {
    InputEvent::ButtonChanged { port, button: spec_logical_button(button_order()[i]), pressed: false }
}

proof fn lemma_release_events(port: Port, old: ControllerSample, new: ControllerSample, n: nat)
    requires
        n <= 16,
        forall|b: Button| spec_pressed(old.buttons, b),
        forall|b: Button| !spec_pressed(new.buttons, b),
    ensures
        button_events(port, old, new, n) == Seq::new(n, |i: int| release_event(port, i)),
    decreases n,
{
    if n > 0 {
        lemma_release_events(port, old, new, (n - 1) as nat);
        let b = button_order()[n - 1];
        assert(spec_pressed(old.buttons, b));
        assert(!spec_pressed(new.buttons, b));
        assert(button_events(port, old, new, n) =~= Seq::new(n, |i: int| release_event(port, i)));
    }
}

/// From a sample with every button down to one with every button up, the
/// button events are sixteen releases, one per button in the fixed order,
/// after whatever stick events there are.
pub proof fn lemma_diff_all_released(port: Port, old: ControllerSample, new: ControllerSample)
    requires
        forall|b: Button| spec_pressed(old.buttons, b),
        forall|b: Button| !spec_pressed(new.buttons, b),
    ensures
        spec_diff(port, old, new) == axis_events(port, old, new, 4) + Seq::new(16, |i: int| release_event(port, i)),
        old.left == new.left && old.right == new.right ==> spec_diff(port, old, new) == Seq::new(
            16,
            |i: int| release_event(port, i),
        ),
{
    lemma_release_events(port, old, new, 16);
    reveal_with_fuel(axis_events, 5);
    if old.left == new.left && old.right == new.right {
        assert(axis_events(port, old, new, 4) =~= Seq::<InputEvent>::empty());
        assert(spec_diff(port, old, new) =~= Seq::new(16, |i: int| release_event(port, i)));
    }
}

} // verus!
