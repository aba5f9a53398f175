use nicotine::config::{CharacterHotkey, CharacterHotkeys, Config, MouseCycleMode};
use nicotine::cycle::{CycleDirection, CycleReply, CycleStep, CycleTarget};
use nicotine::hotkeys::{
    is_in_id_range, message_loop_goes_on, minimize_inactive_lookup, pause_hotkeys, perform_cycle, register_hotkeys, resume_hotkeys, vk_to_modifier, HotkeyListener,
    HotkeyRegistration, ListenerAction, MOD_ALT, MOD_CONTROL, MOD_SHIFT, WM_HOTKEY, WM_USER_PAUSE,
    WM_USER_RESUME,
};
use nicotine::windows_input::{ThreadMessage, WM_USER_BACKWARD, WM_USER_FORWARD};

fn config() -> Config {
    Config {
        display_width: 1920,
        display_height: 1080,
        panel_height: 0,
        eve_width: 1000,
        forward_button: 2,
        backward_button: 1,
        mouse_cycle_mode: MouseCycleMode::Never,
        enable_wheel_cycle: false,
        wheel_cycle_modifier: 0x10,
        mouse_device_name: None,
        mouse_device_path: None,
        enable_keyboard_buttons: true,
        forward_key: 0x70,
        backward_key: 0x71,
        modifier_key: None,
        preview_toggle_key: 0,
        preview_toggle_modifier: None,
        characters: vec![],
        character_hotkeys: CharacterHotkeys::new(),
        minimize_inactive: false,
    }
}

fn entry(r: &HotkeyRegistration) -> (i32, u32, u32, Option<&str>) {
    (r.id, r.modifiers, r.vk, r.character.as_deref())
}

fn entries(plan: &Vec<HotkeyRegistration>) -> Vec<(i32, u32, u32, Option<&str>)> {
    plan.iter().map(entry).collect()
}

fn three_characters() -> Config {
    let mut c = config();
    c.enable_keyboard_buttons = false;
    c.characters = vec!["Ann".to_string(), "Bob".to_string(), "Cid".to_string(), "Dee".to_string()];
    c.character_hotkeys.insert("Ann".to_string(), CharacterHotkey { vk: 0x31, modifier: Some(0xA2) });
    c.character_hotkeys.insert("Bob".to_string(), CharacterHotkey { vk: 0, modifier: Some(0x10) });
    c.character_hotkeys.insert("Dee".to_string(), CharacterHotkey { vk: 0x33, modifier: None });
    c
}

#[test]
fn modifiers_are_those_of_the_system() {
    assert_eq!(MOD_SHIFT, 0x0004);
    assert_eq!(MOD_CONTROL, 0x0002);
    assert_eq!(MOD_ALT, 0x0001);
    assert_eq!(WM_HOTKEY, 0x0312);
    for vk in [0x10, 0xA0, 0xA1] {
        assert_eq!(vk_to_modifier(vk), MOD_SHIFT);
    }
    for vk in [0x11, 0xA2, 0xA3] {
        assert_eq!(vk_to_modifier(vk), MOD_CONTROL);
    }
    for vk in [0x12, 0xA4, 0xA5] {
        assert_eq!(vk_to_modifier(vk), MOD_ALT);
    }
    assert_eq!(vk_to_modifier(0x41), 0);
}

#[test]
fn different_cycle_keys_need_no_modifier() {
    let mut c = config();
    c.modifier_key = Some(0x10);
    let plan = register_hotkeys(&c);
    assert_eq!(entries(&plan), vec![(1001, 0, 0x70, None), (1002, 0, 0x71, None)]);
}

#[test]
fn same_cycle_key_goes_back_with_the_modifier() {
    let mut c = config();
    c.backward_key = 0x70;
    c.modifier_key = Some(0x10);
    let plan = register_hotkeys(&c);
    assert_eq!(entries(&plan), vec![(1001, 0, 0x70, None), (1002, 4, 0x70, None)]);
}

#[test]
fn same_cycle_key_without_modifier_only_goes_forward() {
    let mut c = config();
    c.backward_key = 0x70;
    assert_eq!(entries(&register_hotkeys(&c)), vec![(1001, 0, 0x70, None)]);
    c.modifier_key = Some(0x41);
    assert_eq!(entries(&register_hotkeys(&c)), vec![(1001, 0, 0x70, None)]);
}

#[test]
fn preview_toggle_is_independent_of_the_cycle_keys() {
    let mut c = config();
    c.enable_keyboard_buttons = false;
    c.preview_toggle_key = 0x7B;
    c.preview_toggle_modifier = Some(0x12);
    assert_eq!(entries(&register_hotkeys(&c)), vec![(1003, 1, 0x7B, None)]);
}

#[test]
fn bound_characters_are_numbered_in_order() {
    let plan = register_hotkeys(&three_characters());
    assert_eq!(
        entries(&plan),
        vec![(2000, 2, 0x31, Some("Ann")), (2001, 0, 0x33, Some("Dee"))]
    );
}

#[test]
fn rebinding_replaces_a_hotkey() {
    let mut hotkeys = CharacterHotkeys::new();
    hotkeys.insert("Ann".to_string(), CharacterHotkey { vk: 1, modifier: None });
    hotkeys.insert("Bob".to_string(), CharacterHotkey { vk: 2, modifier: None });
    hotkeys.insert("Ann".to_string(), CharacterHotkey { vk: 3, modifier: None });
    assert_eq!(hotkeys.get(&"Ann".to_string()).map(|h| h.vk), Some(3));
    assert_eq!(hotkeys.get(&"Bob".to_string()).map(|h| h.vk), Some(2));
    assert_eq!(hotkeys.get(&"Cid".to_string()), None);
}

#[test]
fn character_hotkeys_switch_when_registered() {
    let plan = register_hotkeys(&three_characters());
    let mut listener = HotkeyListener::new();
    listener.record_registrations(&plan, &vec![false, true]);
    assert!(matches!(listener.on_message(WM_HOTKEY, 2000), ListenerAction::Ignore));
    match listener.on_message(WM_HOTKEY, 2001) {
        ListenerAction::SwitchTo(name) => assert_eq!(name, "Dee"),
        other => panic!("{:?}", other),
    }
    // Recording anew forgets what was there.
    listener.record_registrations(&plan, &vec![true, false]);
    assert!(matches!(listener.on_message(WM_HOTKEY, 2001), ListenerAction::Ignore));
    assert!(matches!(listener.on_message(WM_HOTKEY, 2000), ListenerAction::SwitchTo(_)));
}

#[test]
fn hotkey_ids_are_read_from_the_low_bits() {
    let mut listener = HotkeyListener::new();
    assert!(matches!(
        listener.on_message(WM_HOTKEY, 0x1_0000_03E9usize),
        ListenerAction::Cycle(CycleDirection::Forward)
    ));
    assert!(matches!(listener.on_message(WM_HOTKEY, 0xFFFF_FFFFusize), ListenerAction::Ignore));
}

#[test]
fn messages_cycle_and_toggle() {
    let mut listener = HotkeyListener::new();
    assert!(matches!(
        listener.on_message(WM_USER_FORWARD, 0),
        ListenerAction::Cycle(CycleDirection::Forward)
    ));
    assert!(matches!(
        listener.on_message(WM_USER_BACKWARD, 0),
        ListenerAction::Cycle(CycleDirection::Backward)
    ));
    assert!(matches!(
        listener.on_message(WM_HOTKEY, 1002),
        ListenerAction::Cycle(CycleDirection::Backward)
    ));
    assert!(matches!(listener.on_message(WM_HOTKEY, 1003), ListenerAction::TogglePreview));
    assert!(matches!(listener.on_message(0x0F, 1001), ListenerAction::Ignore));
}

#[test]
fn paused_listener_is_idle_and_unregisters_all() {
    let plan = register_hotkeys(&three_characters());
    let mut listener = HotkeyListener::new();
    listener.record_registrations(&plan, &vec![true, true]);
    match listener.on_message(WM_USER_PAUSE, 0) {
        ListenerAction::Unregister(mut ids) => {
            assert_eq!(ids[..3], [1001, 1002, 1003]);
            ids.sort();
            assert_eq!(ids, vec![1001, 1002, 1003, 2000, 2001]);
        }
        other => panic!("{:?}", other),
    }
    assert!(matches!(listener.on_message(WM_HOTKEY, 1001), ListenerAction::Ignore));
    assert!(matches!(listener.on_message(WM_USER_FORWARD, 0), ListenerAction::Ignore));
    match listener.on_message(WM_USER_RESUME, 0) {
        ListenerAction::Rebind(ids) => assert_eq!(ids, vec![1001, 1002, 1003]),
        other => panic!("{:?}", other),
    }
    assert!(matches!(listener.on_message(WM_HOTKEY, 1001), ListenerAction::Cycle(_)));
}

#[test]
fn pausing_needs_a_running_listener() {
    let mut listener = HotkeyListener::new();
    assert_eq!(pause_hotkeys(&listener), None);
    assert_eq!(resume_hotkeys(&listener), None);
    listener.start(5, true);
    assert_eq!(
        pause_hotkeys(&listener),
        Some(ThreadMessage { thread_id: 5, message: 0x403 })
    );
    assert_eq!(
        resume_hotkeys(&listener),
        Some(ThreadMessage { thread_id: 5, message: 0x404 })
    );
}

#[test]
fn hotkey_cycle_syncs_moves_and_announces() {
    let mut run = perform_cycle(CycleDirection::Backward, true);
    assert!(matches!(run.target, CycleTarget::Neighbor(CycleDirection::Backward)));
    assert!(run.minimize_inactive);
    assert_eq!(run.step, CycleStep::AskActive);
    run.advance(CycleReply::Active(Some(3)));
    assert_eq!(run.step, CycleStep::Sync(3));
    run.advance(CycleReply::Done);
    assert_eq!(run.step, CycleStep::Move);
    run.advance(CycleReply::Moved(true));
    assert_eq!(run.step, CycleStep::AskPosition);
    run.advance(CycleReply::Position(Some(8)));
    assert_eq!(run.step, CycleStep::Announce(8));
    run.advance(CycleReply::Done);
    assert_eq!(run.step, CycleStep::Finished);
}

#[test]
fn configuration_that_cannot_be_read_minimizes_nothing() {
    let mut c = config();
    assert!(!minimize_inactive_lookup(Some(&c)));
    c.minimize_inactive = true;
    assert!(minimize_inactive_lookup(Some(&c)));
    assert!(!minimize_inactive_lookup(None));
}

#[test]
fn ids_suffice_for_few_characters() {
    assert!(is_in_id_range(&three_characters()));
}

#[test]
fn quitting_and_errors_end_the_message_loop() {
    assert!(message_loop_goes_on(1));
    assert!(message_loop_goes_on(7));
    assert!(!message_loop_goes_on(0));
    assert!(!message_loop_goes_on(-1));
}

#[test]
fn listener_without_a_hook_does_not_run() {
    let mut listener = HotkeyListener::new();
    listener.start(5, false);
    assert_eq!(listener.thread_id, 0);
    assert_eq!(pause_hotkeys(&listener), None);
    listener.start(5, true);
    assert_eq!(listener.thread_id, 5);
    listener.start(6, false);
    assert_eq!(listener.thread_id, 0);
    listener.start(6, true);
    listener.stop();
    assert_eq!(resume_hotkeys(&listener), None);
}
