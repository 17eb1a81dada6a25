use ao3reader::action::HubEvent;
use ao3reader::canvas::{invert_region, is_held, set_rotation, shift_region, Pixel};
use ao3reader::keys::{
    code_from_key, device_event, interpret, is_turnable, Input, Modifiers, Scancode, WindowEvent,
};
use ao3reader::vocabulary::{
    ButtonCode, ButtonStatus, DeviceEvent, FingerStatus, IntermKind, Point, Rectangle,
};

fn rect(x0: i32, y0: i32, x1: i32, y1: i32) -> Rectangle {
    Rectangle { min: Point { x: x0, y: y0 }, max: Point { x: x1, y: y1 } }
}

fn gray(shades: &[u8]) -> Vec<u8> {
    let mut data = Vec::new();
    for shade in shades {
        data.push(*shade);
        data.push(1);
        data.push(2);
    }
    data
}

fn key_down(scancode: Scancode, modifiers: Modifiers, repeat: bool) -> WindowEvent {
    WindowEvent::KeyDown { escape: false, scancode: Some(scancode), modifiers, timestamp: 5, repeat }
}

fn plain(scancode: Scancode) -> WindowEvent {
    key_down(scancode, Modifiers::Nothing, false)
}

#[test]
fn a_region_is_inverted_row_by_row() {
    let area = rect(10, 20, 12, 22);
    let data = gray(&[0, 255, 100, 7]);
    assert!(is_held(&area, data.len()));
    assert_eq!(
        invert_region(&area, &data),
        vec![
            Pixel { x: 10, y: 20, color: 255 },
            Pixel { x: 11, y: 20, color: 0 },
            Pixel { x: 10, y: 21, color: 155 },
            Pixel { x: 11, y: 21, color: 248 },
        ],
    );
}

#[test]
fn inverting_twice_gives_the_colors_back() {
    let area = rect(0, 0, 3, 1);
    let shades = [12u8, 0, 201];
    let once: Vec<u8> = invert_region(&area, &gray(&shades)).iter().map(|p| p.color).collect();
    let twice: Vec<u8> = invert_region(&area, &gray(&once)).iter().map(|p| p.color).collect();
    assert_eq!(twice, shades.to_vec());
}

#[test]
fn a_region_is_shifted_down_to_black() {
    let area = rect(0, 5, 3, 6);
    let data = gray(&[200, 50, 49]);
    let colors = |drift| -> Vec<u8> {
        shift_region(&area, &data, drift).iter().map(|p| p.color).collect()
    };
    assert_eq!(colors(0), vec![200, 50, 49]);
    assert_eq!(colors(50), vec![150, 0, 0]);
    assert_eq!(colors(255), vec![0, 0, 0]);
    assert_eq!(shift_region(&area, &data, 1)[2], Pixel { x: 2, y: 5, color: 48 });
}

#[test]
fn empty_regions_have_no_pixels() {
    let data: Vec<u8> = Vec::new();
    for area in [rect(3, 3, 3, 9), rect(3, 9, 8, 9), rect(5, 5, 2, 9)] {
        assert!(is_held(&area, 0));
        assert!(invert_region(&area, &data).is_empty());
        assert!(shift_region(&area, &data, 3).is_empty());
    }
}

#[test]
fn regions_must_be_held_by_the_data() {
    assert!(is_held(&rect(0, 0, 2, 2), 12));
    assert!(is_held(&rect(0, 0, 2, 2), 10));
    assert!(!is_held(&rect(0, 0, 2, 2), 9));
    assert!(!is_held(&rect(i32::MIN, 0, i32::MAX, 1), usize::MAX));
    assert!(!is_held(&rect(0, 0, 100_000, 100_000), usize::MAX));
}

#[test]
fn the_window_lies_down_and_stands_up() {
    assert_eq!(set_rotation(600, 800, 0), (800, 600));
    assert_eq!(set_rotation(600, 800, 2), (800, 600));
    assert_eq!(set_rotation(600, 800, 1), (600, 800));
    assert_eq!(set_rotation(800, 600, 1), (600, 800));
    assert_eq!(set_rotation(800, 600, 3), (600, 800));
    assert_eq!(set_rotation(800, 600, 0), (800, 600));
    assert_eq!(set_rotation(700, 700, 1), (700, 700));
    assert_eq!(set_rotation(800, 600, -1), (800, 600));
}

#[test]
fn the_mouse_is_a_finger() {
    let finger = |status| {
        Some(DeviceEvent::Finger { id: 0, status, position: Point { x: 3, y: 4 }, time: 9 })
    };
    assert_eq!(
        device_event(WindowEvent::MouseButtonDown { timestamp: 9, x: 3, y: 4 }),
        finger(FingerStatus::Down),
    );
    assert_eq!(
        device_event(WindowEvent::MouseButtonUp { timestamp: 9, x: 3, y: 4 }),
        finger(FingerStatus::Up),
    );
    assert_eq!(
        device_event(WindowEvent::MouseMotion { timestamp: 9, x: 3, y: 4 }),
        finger(FingerStatus::Motion),
    );
    assert_eq!(device_event(WindowEvent::Quit), None);
    assert_eq!(device_event(plain(Scancode::B)), None);
}

#[test]
fn letters_stand_for_buttons() {
    assert_eq!(code_from_key(Scancode::B), Some(ButtonCode::Backward));
    assert_eq!(code_from_key(Scancode::F), Some(ButtonCode::Forward));
    assert_eq!(code_from_key(Scancode::P), Some(ButtonCode::Power));
    assert_eq!(code_from_key(Scancode::L), Some(ButtonCode::Light));
    assert_eq!(code_from_key(Scancode::H), Some(ButtonCode::Home));
    assert_eq!(code_from_key(Scancode::E), Some(ButtonCode::Erase));
    assert_eq!(code_from_key(Scancode::G), Some(ButtonCode::Highlight));
    for key in [Scancode::C, Scancode::I, Scancode::O, Scancode::S, Scancode::Other] {
        assert_eq!(code_from_key(key), None);
    }
}

#[test]
fn keys_press_repeat_and_release() {
    let button = |status| {
        Input::Device(DeviceEvent::Button { time: 5, code: ButtonCode::Home, status })
    };
    assert_eq!(interpret(plain(Scancode::H), 1), button(ButtonStatus::Pressed));
    assert_eq!(
        interpret(key_down(Scancode::H, Modifiers::Nothing, true), 1),
        button(ButtonStatus::Repeated),
    );
    let up = |scancode, modifiers| WindowEvent::KeyUp { scancode, modifiers, timestamp: 5 };
    assert_eq!(
        interpret(up(Some(Scancode::H), Modifiers::Nothing), 1),
        button(ButtonStatus::Released),
    );
    assert_eq!(interpret(up(Some(Scancode::H), Modifiers::LeftShift), 1), Input::Nothing);
    assert_eq!(interpret(up(Some(Scancode::S), Modifiers::Nothing), 1), Input::Nothing);
    assert_eq!(interpret(up(None, Modifiers::Nothing), 1), Input::Nothing);
}

#[test]
fn brackets_turn_and_come_round() {
    let turned = |key, rotation| match interpret(plain(key), rotation) {
        Input::Device(DeviceEvent::RotateScreen(n)) => n,
        _ => panic!("a bracket turns the screen"),
    };
    for rotation in 0..4 {
        let left = turned(Scancode::LeftBracket, rotation);
        assert_eq!(turned(Scancode::RightBracket, left), rotation);
    }
    assert_eq!(turned(Scancode::LeftBracket, 1), 0);
    assert_eq!(turned(Scancode::LeftBracket, 0), 3);
    assert_eq!(turned(Scancode::RightBracket, 3), 0);
    assert_eq!(turned(Scancode::RightBracket, 1), 2);
    assert_eq!(turned(Scancode::LeftBracket, -6), -3);
}

#[test]
fn only_brackets_need_room_to_turn() {
    assert!(is_turnable(plain(Scancode::LeftBracket), 124));
    assert!(!is_turnable(plain(Scancode::LeftBracket), 125));
    assert!(is_turnable(plain(Scancode::RightBracket), 122));
    assert!(!is_turnable(plain(Scancode::RightBracket), 123));
    assert!(is_turnable(plain(Scancode::B), 127));
    assert!(is_turnable(key_down(Scancode::LeftBracket, Modifiers::LeftShift, false), 127));
    assert!(is_turnable(WindowEvent::Quit, 127));
}

#[test]
fn other_keys_do_other_things() {
    assert_eq!(interpret(plain(Scancode::S), 1), Input::Hub(HubEvent::TakeScreenshot));
    assert_eq!(interpret(plain(Scancode::I), 1), Input::Spread);
    assert_eq!(interpret(plain(Scancode::O), 1), Input::Pinch);
    assert_eq!(interpret(plain(Scancode::C), 1), Input::Nothing);
    assert_eq!(interpret(plain(Scancode::Other), 1), Input::Nothing);
    let shifted = |key| interpret(key_down(key, Modifiers::RightShift, false), 1);
    assert_eq!(shifted(Scancode::S), Input::Intermission(IntermKind::Suspend));
    assert_eq!(shifted(Scancode::P), Input::Intermission(IntermKind::PowerOff));
    assert_eq!(shifted(Scancode::C), Input::Intermission(IntermKind::Share));
    assert_eq!(shifted(Scancode::B), Input::Nothing);
    assert_eq!(
        interpret(key_down(Scancode::S, Modifiers::LeftShift, false), 1),
        Input::Intermission(IntermKind::Suspend),
    );
    assert_eq!(interpret(key_down(Scancode::S, Modifiers::Other, false), 1), Input::Nothing);
}

#[test]
fn escape_and_the_window_quit() {
    let escape = |modifiers| WindowEvent::KeyDown {
        escape: true,
        scancode: Some(Scancode::Other),
        modifiers,
        timestamp: 0,
        repeat: false,
    };
    assert_eq!(interpret(WindowEvent::Quit, 1), Input::Quit);
    assert_eq!(interpret(escape(Modifiers::Nothing), 1), Input::Quit);
    assert_eq!(interpret(escape(Modifiers::LeftShift), 1), Input::Nothing);
    assert_eq!(interpret(WindowEvent::Other, 1), Input::Nothing);
    assert_eq!(
        interpret(WindowEvent::MouseMotion { timestamp: 1, x: 2, y: 3 }, 1),
        Input::Device(DeviceEvent::Finger {
            id: 0,
            status: FingerStatus::Motion,
            position: Point { x: 2, y: 3 },
            time: 1,
        }),
    );
}
