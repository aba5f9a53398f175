use evdev::{AttributeSet, EventType, InputEvent, Key, RelativeAxisType};
use nicotine::config::{CharacterHotkeys, Config, MouseCycleMode};
use nicotine::cycle::{
    contains_id, window_at, CycleDirection, CycleReply, CycleRun, CycleStep, CycleTarget, EveWindow,
};
use nicotine::device_search::{
    DeviceInfo, DeviceSearch, SearchError, SearchPass, SearchReply, SearchStep,
};
use nicotine::evdev_input::{has_side_buttons, BTN_EXTRA, BTN_SIDE, REL_WHEEL};
use nicotine::linux_input_state::{
    modifier_held, modifier_vk_for_evdev, set_modifier_state, ModifierState,
};
use nicotine::mouse_listener::{
    ends_listener, EventFilter, ListenerError, ListenerFailure, MouseInput, MouseListener, MouseStep, WHEEL_DEBOUNCE_NS,
};

fn config(mode: MouseCycleMode) -> Config {
    Config {
        display_width: 1920,
        display_height: 1080,
        panel_height: 0,
        eve_width: 1000,
        forward_button: 0x114,
        backward_button: 0x113,
        mouse_cycle_mode: mode,
        enable_wheel_cycle: true,
        wheel_cycle_modifier: 0x10,
        mouse_device_name: Some("Rodent".to_string()),
        mouse_device_path: None,
        enable_keyboard_buttons: false,
        forward_key: 0,
        backward_key: 0,
        modifier_key: None,
        preview_toggle_key: 0,
        preview_toggle_modifier: None,
        characters: vec![],
        character_hotkeys: CharacterHotkeys::new(),
        minimize_inactive: true,
    }
}

fn filter(mode: MouseCycleMode) -> EventFilter {
    MouseListener::new(config(mode)).settings().unwrap().events
}

fn step(filter: &EventFilter, event: InputEvent, modifiers: &ModifierState) -> MouseStep {
    filter.on_event(event.event_type().0, event.code(), event.value(), modifiers)
}

fn key(code: u16, value: i32) -> InputEvent {
    InputEvent::new(EventType::KEY, code, value)
}

fn wheel(value: i32) -> InputEvent {
    InputEvent::new(EventType::RELATIVE, RelativeAxisType::REL_WHEEL.0, value)
}

fn shift() -> ModifierState {
    let mut state = ModifierState::new();
    set_modifier_state(&mut state, 42, true);
    state
}

#[test]
fn codes_are_those_of_evdev() {
    assert_eq!(REL_WHEEL, RelativeAxisType::REL_WHEEL.0);
    assert_eq!(BTN_SIDE, Key::BTN_SIDE.code());
    assert_eq!(BTN_EXTRA, Key::BTN_EXTRA.code());
    assert_eq!(modifier_vk_for_evdev(Key::KEY_LEFTSHIFT.code()), Some(0x10));
    assert_eq!(modifier_vk_for_evdev(Key::KEY_RIGHTSHIFT.code()), Some(0x10));
    assert_eq!(modifier_vk_for_evdev(Key::KEY_LEFTCTRL.code()), Some(0x11));
    assert_eq!(modifier_vk_for_evdev(Key::KEY_RIGHTCTRL.code()), Some(0x11));
    assert_eq!(modifier_vk_for_evdev(Key::KEY_LEFTALT.code()), Some(0x12));
    assert_eq!(modifier_vk_for_evdev(Key::KEY_RIGHTALT.code()), Some(0x12));
    assert_eq!(modifier_vk_for_evdev(Key::KEY_A.code()), None);
}

#[test]
fn key_events_set_their_modifier_only() {
    let mut state = ModifierState::new();
    set_modifier_state(&mut state, 97, true);
    assert!(modifier_held(&state, 0x11));
    assert!(!modifier_held(&state, 0x10));
    assert!(!modifier_held(&state, 0x12));
    assert!(!modifier_held(&state, 0x41));
    set_modifier_state(&mut state, 30, false);
    assert!(modifier_held(&state, 0x11));
    // The other side of the keyboard clears it too.
    set_modifier_state(&mut state, 29, false);
    assert!(!modifier_held(&state, 0x11));
    set_modifier_state(&mut state, 100, true);
    assert!(modifier_held(&state, 0x12));
}

#[test]
fn listener_does_not_start_in_never_mode() {
    let listener = MouseListener::new(config(MouseCycleMode::Never));
    assert_eq!(listener.settings().err(), Some(ListenerError::CyclingDisabled));
    let settings = MouseListener::new(config(MouseCycleMode::Always)).settings().unwrap();
    assert_eq!(settings.mouse_device_name.as_deref(), Some("Rodent"));
    assert_eq!(settings.mouse_device_path, None);
    assert!(settings.minimize_inactive);
    assert_eq!(settings.events.last_wheel, None);
}

#[test]
fn presses_cycle_and_releases_do_not() {
    let f = filter(MouseCycleMode::Always);
    let none = ModifierState::new();
    assert_eq!(step(&f, key(0x114, 1), &none), MouseStep::Cycle(CycleDirection::Forward));
    assert_eq!(step(&f, key(0x113, 1), &none), MouseStep::Cycle(CycleDirection::Backward));
    assert_eq!(step(&f, key(0x114, 0), &none), MouseStep::Ignore);
    assert_eq!(step(&f, key(0x114, 2), &none), MouseStep::Ignore);
    assert_eq!(step(&f, key(0x110, 1), &none), MouseStep::Ignore);
    let abs = InputEvent::new(EventType::ABSOLUTE, 0x114, 1);
    assert_eq!(step(&f, abs, &none), MouseStep::Ignore);
}

#[test]
fn focus_is_asked_for_in_its_mode() {
    let f = filter(MouseCycleMode::OnlyWhenEveFocused);
    let asked = MouseInput::Button(CycleDirection::Forward);
    assert_eq!(step(&f, key(0x114, 1), &shift()), MouseStep::AskForeground(asked));
    assert_eq!(f.foreground_answer(asked, false, &shift()), MouseStep::Ignore);
    assert_eq!(
        f.foreground_answer(asked, true, &shift()),
        MouseStep::Cycle(CycleDirection::Forward)
    );
    assert_eq!(
        f.foreground_answer(MouseInput::Wheel(1), true, &shift()),
        MouseStep::AskClock { delta: 1 }
    );
}

#[test]
fn wheel_needs_modifier_and_setting() {
    let mut f = filter(MouseCycleMode::Always);
    assert_eq!(step(&f, wheel(1), &ModifierState::new()), MouseStep::Ignore);
    assert_eq!(step(&f, wheel(1), &shift()), MouseStep::AskClock { delta: 1 });
    let tilt = InputEvent::new(EventType::RELATIVE, RelativeAxisType::REL_HWHEEL.0, 1);
    assert_eq!(step(&f, tilt, &shift()), MouseStep::Ignore);
    f.wheel_enabled = false;
    assert_eq!(step(&f, wheel(1), &shift()), MouseStep::Ignore);
    f.wheel_enabled = true;
    f.mode = MouseCycleMode::Never;
    assert_eq!(step(&f, wheel(1), &shift()), MouseStep::Ignore);
}

#[test]
fn turns_of_the_wheel_are_spaced() {
    let mut f = filter(MouseCycleMode::Always);
    assert_eq!(f.clock_answer(1, 5), MouseStep::Cycle(CycleDirection::Forward));
    assert_eq!(f.clock_answer(1, 5 + WHEEL_DEBOUNCE_NS - 1), MouseStep::Ignore);
    assert_eq!(f.last_wheel, Some(5));
    assert_eq!(
        f.clock_answer(-1, 5 + WHEEL_DEBOUNCE_NS),
        MouseStep::Cycle(CycleDirection::Backward)
    );
    // No movement does nothing but counts as a turn.
    assert_eq!(f.clock_answer(0, 5 + 3 * WHEEL_DEBOUNCE_NS), MouseStep::Ignore);
    assert_eq!(f.last_wheel, Some(5 + 3 * WHEEL_DEBOUNCE_NS));
}

#[test]
fn foreground_is_a_client() {
    let windows = vec![
        EveWindow { id: 3, title: "Ann".to_string() },
        EveWindow { id: 9, title: "Bob".to_string() },
    ];
    assert!(MouseListener::foreground_is_eve(Some(9), Some(&windows)));
    assert!(!MouseListener::foreground_is_eve(Some(4), Some(&windows)));
    assert!(!MouseListener::foreground_is_eve(None, Some(&windows)));
    assert!(!MouseListener::foreground_is_eve(Some(9), None));
    assert!(contains_id(&windows, 3));
    assert_eq!(window_at(&windows, 1), Some(9));
    assert_eq!(window_at(&windows, 2), None);
}

#[test]
fn mouse_cycle_announces_nothing() {
    let mut run = MouseListener::cycle_forward(false);
    assert!(matches!(run.target, CycleTarget::Neighbor(CycleDirection::Forward)));
    run.advance(CycleReply::Active(None));
    assert_eq!(run.step, CycleStep::Move);
    run.advance(CycleReply::Moved(true));
    assert_eq!(run.step, CycleStep::Finished);
    let run = MouseListener::cycle_backward(true);
    assert!(run.minimize_inactive);
    assert!(matches!(run.target, CycleTarget::Neighbor(CycleDirection::Backward)));
}

#[test]
fn failed_step_fails_and_failed_jump_announces() {
    let mut run = CycleRun::to_neighbor(CycleDirection::Forward, false, true);
    run.advance(CycleReply::Active(None));
    run.advance(CycleReply::Moved(false));
    assert_eq!(run.step, CycleStep::Failed);
    let mut run = CycleRun::to_character("Ann".to_string(), false);
    assert!(matches!(&run.target, CycleTarget::Character(n) if n == "Ann"));
    run.advance(CycleReply::Active(None));
    run.advance(CycleReply::Moved(false));
    assert_eq!(run.step, CycleStep::AskPosition);
    run.advance(CycleReply::Position(None));
    assert_eq!(run.step, CycleStep::Finished);
}

#[test]
fn side_buttons_are_found_among_the_keys() {
    let mut keys = AttributeSet::<Key>::new();
    assert!(!has_side_buttons(Some(&keys)));
    keys.insert(Key::BTN_LEFT);
    assert!(!has_side_buttons(Some(&keys)));
    keys.insert(Key::BTN_EXTRA);
    assert!(has_side_buttons(Some(&keys)));
    keys.remove(Key::BTN_EXTRA);
    keys.insert(Key::BTN_SIDE);
    assert!(has_side_buttons(Some(&keys)));
    assert!(!has_side_buttons(None));
}

type Device = (Option<&'static str>, bool);

/// Runs a search over a directory; the result is the index of the entry, or
/// `None` for the configured path.
fn search(
    name: Option<&str>,
    path: Option<&str>,
    entries: &[(Option<&str>, Option<Device>)],
    at_path: Option<Device>,
) -> Result<Option<usize>, SearchError> {
    fn opened(device: &Option<Device>) -> SearchReply {
        match device {
            Some((name, side_buttons)) => SearchReply::Opened(DeviceInfo {
                name: name.map(|n| n.to_string()),
                side_buttons: *side_buttons,
            }),
            None => SearchReply::OpenFailed,
        }
    }
    let mut search =
        DeviceSearch::find_mouse_device(name.map(|n| n.to_string()), path.map(|p| p.to_string()));
    let mut pos = 0;
    loop {
        let reply = match search.step {
            SearchStep::ListDevices => {
                pos = 0;
                SearchReply::Listed(true)
            }
            SearchStep::NextEntry if pos < entries.len() => {
                pos += 1;
                SearchReply::Entry(entries[pos - 1].0.map(|f| f.to_string()))
            }
            SearchStep::NextEntry => SearchReply::EndOfList,
            SearchStep::OpenEntry => opened(&entries[pos - 1].1),
            SearchStep::OpenPath => opened(&at_path),
            SearchStep::UseDevice if search.pass == SearchPass::ByPath => return Ok(None),
            SearchStep::UseDevice => return Ok(Some(pos - 1)),
            SearchStep::Fail(e) => return Err(e),
        };
        search.advance(&reply);
    }
}

#[test]
fn search_prefers_name_then_path_then_buttons() {
    let entries = [
        (Some("mouse0"), Some((Some("Rodent"), true))),
        (None, Some((Some("Rodent"), true))),
        (Some("event0"), None),
        (Some("event1"), Some((Some("Keys"), false))),
        (Some("event2"), Some((None, true))),
        (Some("event3"), Some((Some("Rodent"), false))),
        (Some("event4"), Some((Some("Rodent"), true))),
    ];
    let path: Option<Device> = Some((None, false));
    assert_eq!(search(Some("Rodent"), Some("/dev/x"), &entries, path), Ok(Some(5)));
    assert_eq!(search(Some("Other"), Some("/dev/x"), &entries, path), Ok(None));
    assert_eq!(search(None, Some("/dev/x"), &entries, path), Ok(None));
    assert_eq!(search(Some("Other"), Some("/dev/x"), &entries, None), Ok(Some(4)));
    assert_eq!(search(None, None, &entries, path), Ok(Some(4)));
    assert_eq!(search(None, None, &entries[..4], path), Err(SearchError::NoMouseDevice));
}

#[test]
fn unreadable_directory_ends_the_search() {
    let mut search = DeviceSearch::find_mouse_device(None, None);
    search.advance(&SearchReply::Listed(false));
    assert_eq!(search.step, SearchStep::Fail(SearchError::DirectoryUnreadable));
    let mut search = DeviceSearch::find_mouse_device(Some("a".to_string()), None);
    search.advance(&SearchReply::Listed(true));
    search.advance(&SearchReply::EntryFailed);
    assert_eq!(search.step, SearchStep::Fail(SearchError::EntryUnreadable));
}

#[test]
fn failed_focus_changes_do_not_end_the_listener() {
    assert!(ends_listener(ListenerFailure::FindDevice));
    assert!(ends_listener(ListenerFailure::ReadEvents));
    assert!(!ends_listener(ListenerFailure::Cycle(CycleDirection::Forward)));
    assert!(!ends_listener(ListenerFailure::Cycle(CycleDirection::Backward)));
}
