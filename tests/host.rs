use taskbar_flash::attention::{AttentionRequest, FlashStyle, NativeHandle};
use taskbar_flash::geometry::{Point, Rect};
use taskbar_flash::host::{Action, FlashSettings, Host, Lifecycle, Trigger};
use taskbar_flash::input::{InputEvent, Key, MouseButton};

const HWND: isize = 0x1234;

fn settings() -> FlashSettings {
    FlashSettings { style: FlashStyle::TaskbarOnly, count: 5, timeout_ms: 0 }
}

fn expected_flash() -> Action {
    Action::Flash(AttentionRequest {
        target: NativeHandle::Win32 { hwnd: HWND },
        style: FlashStyle::TaskbarOnly,
        count: 5,
        timeout_ms: 0,
    })
}

fn started(trigger: Trigger) -> Host {
    let mut host = Host::new(trigger, settings());
    assert_eq!(host.dispatch(InputEvent::Resumed), Action::CreateWindow);
    assert!(host.window_created(NativeHandle::Win32 { hwnd: HWND }));
    host.dispatch(InputEvent::Resumed);
    host
}

fn click_trigger() -> Trigger {
    Trigger::Click { region: Rect { x: 150, y: 130, width: 100, height: 40 } }
}

fn left_click(x: i32, y: i32) -> InputEvent {
    InputEvent::MouseButtonPressed { button: MouseButton::Left, position: Point { x, y } }
}

fn space_trigger() -> Trigger {
    Trigger::KeyPress { key: Key::Space }
}

#[test]
fn click_inside_region_flashes_once() {
    let mut host = started(click_trigger());
    let actions = host.run(&vec![left_click(180, 150)]);
    assert_eq!(actions, vec![expected_flash()]);
}

#[test]
fn click_outside_region_does_not_flash() {
    let mut host = started(click_trigger());
    assert_eq!(host.dispatch(left_click(10, 10)), Action::Nothing);
}

#[test]
fn click_region_edges() {
    let mut host = started(click_trigger());
    assert_eq!(host.dispatch(left_click(150, 130)), expected_flash());
    assert_eq!(host.dispatch(left_click(249, 169)), expected_flash());
    assert_eq!(host.dispatch(left_click(250, 150)), Action::Nothing);
    assert_eq!(host.dispatch(left_click(180, 170)), Action::Nothing);
    assert_eq!(host.dispatch(left_click(149, 150)), Action::Nothing);
    assert_eq!(host.dispatch(left_click(180, 129)), Action::Nothing);
}

#[test]
fn right_click_inside_region_does_not_flash() {
    let mut host = started(click_trigger());
    let e = InputEvent::MouseButtonPressed {
        button: MouseButton::Right,
        position: Point { x: 180, y: 150 },
    };
    assert_eq!(host.dispatch(e), Action::Nothing);
}

#[test]
fn key_press_flashes_and_release_does_not() {
    let mut host = started(space_trigger());
    let actions = host.run(&vec![
        InputEvent::KeyPressed { key: Key::Space },
        InputEvent::KeyReleased { key: Key::Space },
    ]);
    assert_eq!(actions, vec![expected_flash(), Action::Nothing]);
}

#[test]
fn other_key_does_not_flash() {
    let mut host = started(space_trigger());
    assert_eq!(host.dispatch(InputEvent::KeyPressed { key: Key::Enter }), Action::Nothing);
    assert_eq!(
        host.dispatch(InputEvent::KeyPressed { key: Key::Character(' ') }),
        Action::Nothing
    );
}

#[test]
fn resume_trigger_flashes_on_each_resume() {
    let mut host = Host::new(Trigger::Resume, settings());
    assert_eq!(host.dispatch(InputEvent::Resumed), Action::CreateWindow);
    assert!(host.window_created(NativeHandle::Win32 { hwnd: HWND }));
    assert_eq!(host.lifecycle(), Lifecycle::Created);
    assert_eq!(host.dispatch(InputEvent::Resumed), expected_flash());
    assert_eq!(host.lifecycle(), Lifecycle::Resumed);
    assert_eq!(host.dispatch(InputEvent::Resumed), Action::Nothing);
    assert_eq!(host.dispatch(InputEvent::Suspended), Action::Nothing);
    assert_eq!(host.lifecycle(), Lifecycle::Suspended);
    assert_eq!(host.dispatch(InputEvent::Resumed), expected_flash());
}

#[test]
fn close_ends_dispatch() {
    let mut host = started(space_trigger());
    let events = vec![
        InputEvent::KeyPressed { key: Key::Space },
        InputEvent::Resized { width: 640, height: 480 },
        InputEvent::WindowClosed,
        InputEvent::KeyPressed { key: Key::Space },
        InputEvent::Resumed,
    ];
    let actions = host.run(&events);
    assert_eq!(actions, vec![expected_flash(), Action::Nothing, Action::Exit]);
    assert!(host.is_closed());
    assert_eq!(host.window(), None);
}

#[test]
fn run_dispatches_every_event_without_close() {
    let mut host = started(space_trigger());
    let events = vec![
        InputEvent::KeyPressed { key: Key::Space },
        InputEvent::KeyPressed { key: Key::Space },
        InputEvent::KeyReleased { key: Key::Space },
    ];
    let actions = host.run(&events);
    assert_eq!(actions, vec![expected_flash(), expected_flash(), Action::Nothing]);
    assert!(!host.is_closed());
}

#[test]
fn run_on_closed_host_dispatches_nothing() {
    let mut host = started(space_trigger());
    assert_eq!(host.dispatch(InputEvent::WindowClosed), Action::Exit);
    let actions = host.run(&vec![InputEvent::KeyPressed { key: Key::Space }]);
    assert!(actions.is_empty());
}

#[test]
fn no_flash_after_close() {
    let mut host = started(space_trigger());
    assert_eq!(host.dispatch(InputEvent::WindowClosed), Action::Exit);
    assert_eq!(host.dispatch(InputEvent::KeyPressed { key: Key::Space }), Action::Nothing);
    assert_eq!(host.dispatch(InputEvent::Resumed), Action::Nothing);
    assert_eq!(host.dispatch(InputEvent::WindowClosed), Action::Nothing);
    assert!(!host.window_created(NativeHandle::Win32 { hwnd: HWND }));
    assert_eq!(host.window(), None);
}

#[test]
fn no_flash_without_window() {
    let mut host = Host::new(space_trigger(), settings());
    assert_eq!(host.dispatch(InputEvent::KeyPressed { key: Key::Space }), Action::Nothing);
    assert_eq!(host.lifecycle(), Lifecycle::Uninitialized);
}

#[test]
fn window_is_taken_once() {
    let mut host = Host::new(space_trigger(), settings());
    assert!(host.window_created(NativeHandle::Win32 { hwnd: HWND }));
    assert!(!host.window_created(NativeHandle::Win32 { hwnd: 99 }));
    assert_eq!(host.window(), Some(NativeHandle::Win32 { hwnd: HWND }));
}

#[test]
fn failed_startup_closes_host() {
    let mut host = Host::new(space_trigger(), settings());
    assert_eq!(host.fail_startup(), Action::Exit);
    assert!(host.is_closed());
    assert_eq!(host.dispatch(InputEvent::Resumed), Action::Nothing);
    assert!(!host.window_created(NativeHandle::Win32 { hwnd: HWND }));
}
