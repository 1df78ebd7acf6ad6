use bevy_psx::{
    all_buttons, diff, logical_button, Button, ControllerSample, GamepadAxis, GamepadButton,
    InputEvent, PSXInputPlugin, Port, Stick, VirtualClock, VideoMode, DEVICE_NAME, P1, P2,
    VENDOR_ID,
};

fn rest() -> ControllerSample {
    ControllerSample::released()
}

#[test]
fn single_axis_change_gives_one_axis_event() {
    let old = rest();
    let mut new = rest();
    new.right.y = 10;
    let events = diff(Port::Two, &old, &new);
    assert_eq!(
        events,
        vec![InputEvent::AxisChanged { port: Port::Two, axis: GamepadAxis::RightStickY, value: -118 }]
    );
}

#[test]
fn identical_samples_give_no_event() {
    let mut s = rest();
    s.buttons = 0b1010_0000_1111_0101;
    s.left = Stick { x: 3, y: 250 };
    assert!(diff(Port::One, &s, &s).is_empty());
    assert!(diff(Port::Two, &rest(), &rest()).is_empty());
}

#[test]
fn all_pressed_to_all_released_gives_sixteen_releases() {
    let mut old = rest();
    old.buttons = 0x0000;
    let new = rest();
    for b in all_buttons() {
        assert!(old.pressed(b));
        assert!(!new.pressed(b));
    }
    let events = diff(Port::One, &old, &new);
    let expected: Vec<InputEvent> = all_buttons()
        .iter()
        .map(|b| InputEvent::ButtonChanged { port: Port::One, button: logical_button(*b), pressed: false })
        .collect();
    assert_eq!(events.len(), 16);
    assert_eq!(events, expected);
    assert_eq!(events[0], InputEvent::ButtonChanged { port: Port::One, button: GamepadButton::Select, pressed: false });
    assert_eq!(events[15], InputEvent::ButtonChanged { port: Port::One, button: GamepadButton::West, pressed: false });
}

#[test]
fn axis_events_come_before_button_events() {
    let old = rest();
    let mut new = rest();
    new.buttons = 0xFFFF & !(1 << Button::Start.bit());
    new.left.y = 0;
    new.right.x = 255;
    let events = diff(Port::One, &old, &new);
    assert_eq!(
        events,
        vec![
            InputEvent::AxisChanged { port: Port::One, axis: GamepadAxis::LeftStickY, value: -128 },
            InputEvent::AxisChanged { port: Port::One, axis: GamepadAxis::RightStickX, value: 127 },
            InputEvent::ButtonChanged { port: Port::One, button: GamepadButton::Start, pressed: true },
        ]
    );
}

#[test]
fn port_one_events_come_before_port_two_events() {
    let mut poller = PSXInputPlugin::new(rest(), rest());
    let mut p1 = rest();
    p1.buttons &= !(1 << Button::Triangle.bit());
    let mut p2 = rest();
    p2.buttons &= !(1 << Button::Up.bit());
    let events = poller.update_gamepads(p1, p2);
    assert_eq!(
        events,
        vec![
            InputEvent::ButtonChanged { port: Port::One, button: GamepadButton::North, pressed: true },
            InputEvent::ButtonChanged { port: Port::Two, button: GamepadButton::DPadUp, pressed: true },
        ]
    );
    assert_eq!(poller.p1(), p1);
    assert_eq!(poller.p2(), p2);
    assert!(poller.update_gamepads(p1, p2).is_empty());
}

#[test]
fn release_reports_value_zero() {
    let mut poller = PSXInputPlugin::new(rest(), rest());
    let mut down = rest();
    down.buttons &= !(1 << Button::Circle.bit());
    poller.update_gamepads(down, rest());
    let events = poller.update_gamepads(rest(), rest());
    assert_eq!(
        events,
        vec![InputEvent::ButtonChanged { port: Port::One, button: GamepadButton::East, pressed: false }]
    );
}

#[test]
fn connection_events_name_both_ports() {
    let poller = PSXInputPlugin::new(rest(), rest());
    let events = poller.finish();
    assert_eq!(events.len(), 2);
    assert_eq!(
        events[0],
        InputEvent::Connection {
            port: Port::One,
            name: "Sony PlayStation DualShock",
            vendor_id: 0x054C,
            product_id: None
        }
    );
    assert_eq!(
        events[1],
        InputEvent::Connection { port: Port::Two, name: DEVICE_NAME, vendor_id: VENDOR_ID, product_id: None }
    );
}

#[test]
fn button_table_order_and_mapping() {
    let buttons = all_buttons();
    for (i, b) in buttons.iter().enumerate() {
        assert_eq!(b.bit() as usize, i);
    }
    assert_eq!(logical_button(Button::Cross), GamepadButton::South);
    assert_eq!(logical_button(Button::Square), GamepadButton::West);
    assert_eq!(logical_button(Button::L3), GamepadButton::LeftThumb);
    assert_eq!(logical_button(Button::R2), GamepadButton::RightTrigger2);
    assert_eq!(logical_button(Button::L1), GamepadButton::LeftTrigger);
}

#[test]
fn stick_offsets() {
    let s = Stick { x: 200, y: 128 };
    assert_eq!(s.horizontal(), 72);
    assert_eq!(s.vertical(), 0);
    let t = Stick { x: 0, y: 255 };
    assert_eq!(t.horizontal(), -128);
    assert_eq!(t.vertical(), 127);
}

#[test]
fn player_markers_name_their_ports() {
    assert_eq!(P1::new().port(), Port::One);
    assert_eq!(P2::new().port(), Port::Two);
}

#[test]
fn south_press_and_stick_move_end_to_end() {
    let mut poller = PSXInputPlugin::new(rest(), rest());
    let mut clock = VirtualClock::new(VideoMode::NTSC);
    let mut p1 = rest();
    p1.buttons &= !(1 << Button::Cross.bit());
    p1.left.x = 200;
    let events = poller.update_gamepads(p1, rest());
    assert_eq!(
        events,
        vec![
            InputEvent::AxisChanged { port: Port::One, axis: GamepadAxis::LeftStickX, value: 72 },
            InputEvent::ButtonChanged { port: Port::One, button: GamepadButton::South, pressed: true },
        ]
    );
    clock.update(1);
    for frame in 2..=6u32 {
        assert!(poller.update_gamepads(p1, rest()).is_empty());
        clock.update(frame);
    }
    assert_eq!(clock.elapsed(), 100);
}
