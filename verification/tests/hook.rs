use nicotine::bits::{high_word, high_word_signed, low_bits, low_bits_signed, reinterpret_signed, sign_bit};
use nicotine::config::{CharacterHotkeys, Config, MouseCycleMode};
use nicotine::keys::{
    VK_CONTROL, VK_LCONTROL, VK_LMENU, VK_LSHIFT, VK_MENU, VK_RCONTROL, VK_RMENU, VK_RSHIFT, VK_SHIFT,
};
use nicotine::windows_input::{
    set_mouse_cycle_mode, set_wheel_cycle_enabled, set_wheel_cycle_modifier, HookContext, HookInput,
    HookStep, HookVerdict, MouseHook, ThreadMessage, WM_MOUSEWHEEL, WM_USER, WM_USER_BACKWARD,
    WM_USER_FORWARD, WM_XBUTTONDOWN,
};

const PASS: HookStep = HookStep::Finish(HookVerdict { post: None, swallow: false });

fn config(mode: MouseCycleMode) -> Config {
    Config {
        display_width: 1920,
        display_height: 1080,
        panel_height: 0,
        eve_width: 1000,
        forward_button: 2,
        backward_button: 1,
        mouse_cycle_mode: mode,
        enable_wheel_cycle: true,
        wheel_cycle_modifier: 0x11,
        mouse_device_name: None,
        mouse_device_path: None,
        enable_keyboard_buttons: false,
        forward_key: 0,
        backward_key: 0,
        modifier_key: None,
        preview_toggle_key: 0,
        preview_toggle_modifier: None,
        characters: vec![],
        character_hotkeys: CharacterHotkeys::new(),
        minimize_inactive: false,
    }
}

fn hook(mode: MouseCycleMode) -> MouseHook {
    let mut hook = MouseHook::new();
    hook.configure(&config(mode), 42);
    hook
}

fn posts(message: u32, swallow: bool) -> HookVerdict {
    HookVerdict { post: Some(ThreadMessage { thread_id: 42, message }), swallow }
}

#[test]
fn constants_are_those_of_the_system() {
    assert_eq!(WM_XBUTTONDOWN, 0x020B);
    assert_eq!(WM_MOUSEWHEEL, 0x020A);
    assert_eq!(WM_USER, 0x0400);
    assert_eq!(VK_SHIFT, 0x10);
    assert_eq!(VK_CONTROL, 0x11);
    assert_eq!(VK_MENU, 0x12);
    assert_eq!(VK_LSHIFT, 0xA0);
    assert_eq!(VK_RSHIFT, 0xA1);
    assert_eq!(VK_LCONTROL, 0xA2);
    assert_eq!(VK_RCONTROL, 0xA3);
    assert_eq!(VK_LMENU, 0xA4);
    assert_eq!(VK_RMENU, 0xA5);
}

#[test]
fn conversions() {
    assert_eq!(low_bits(0x1_0000_020Busize), 0x20B);
    assert_eq!(low_bits_signed(0xFFFF_FFFFusize), -1);
    assert_eq!(reinterpret_signed(0x8000_0000), i32::MIN);
    assert_eq!(high_word(0x0002_FFFF), 2);
    assert_eq!(high_word_signed(0xFF88_0000), -120);
    assert!(sign_bit(i16::MIN));
    assert!(!sign_bit(1));
}

#[test]
fn fresh_hook_passes_everything_on() {
    let hook = MouseHook::new();
    assert_eq!(hook.wheel_modifier, VK_SHIFT);
    assert_eq!(hook.mouse_hook_proc(0, 0x20B, 0x0002_0000), PASS);
    assert_eq!(hook.mouse_hook_proc(0, 0x20A, 0x0078_0000), PASS);
}

#[test]
fn negative_code_passes_on() {
    assert_eq!(hook(MouseCycleMode::Always).mouse_hook_proc(-1, 0x20B, 0x0002_0000), PASS);
}

#[test]
fn side_buttons_post_and_pass_on() {
    let hook = hook(MouseCycleMode::Always);
    assert_eq!(
        hook.mouse_hook_proc(0, 0x20B, 0x0002_0000),
        HookStep::Finish(posts(WM_USER_FORWARD, false))
    );
    assert_eq!(
        hook.mouse_hook_proc(0, 0x20B, 0x0001_0000),
        HookStep::Finish(posts(WM_USER_BACKWARD, false))
    );
    assert_eq!(hook.mouse_hook_proc(0, 0x20B, 0x0003_0000), PASS);
    assert_eq!(hook.mouse_hook_proc(0, 0x200, 0x0002_0000), PASS);
}

#[test]
fn focus_is_asked_for_only_in_its_mode() {
    let hook = hook(MouseCycleMode::OnlyWhenEveFocused);
    let step = hook.mouse_hook_proc(0, 0x20B, 0x0002_0000);
    assert_eq!(step, HookStep::AskForeground(HookInput::XButton(2)));
    assert_eq!(
        hook.foreground_answer(HookInput::XButton(2), true),
        HookStep::Finish(posts(WM_USER_FORWARD, false))
    );
    assert_eq!(hook.foreground_answer(HookInput::XButton(2), false), PASS);
    assert_eq!(
        hook.foreground_answer(HookInput::Wheel(120), true),
        HookStep::AskKey { vk: 0x11, delta: 120 }
    );
}

#[test]
fn wheel_needs_its_modifier() {
    let mut hook = hook(MouseCycleMode::Always);
    assert_eq!(
        hook.mouse_hook_proc(0, 0x20A, 0xFF88_0000),
        HookStep::AskKey { vk: 0x11, delta: -120 }
    );
    assert_eq!(hook.key_answer(-120, 1), PASS);
    assert_eq!(hook.key_answer(-120, i16::MIN), HookStep::AskClock { delta: -120 });
    set_wheel_cycle_modifier(&mut hook, 0x12);
    assert_eq!(
        hook.mouse_hook_proc(0, 0x20A, 0x0078_0000),
        HookStep::AskKey { vk: 0x12, delta: 120 }
    );
    set_wheel_cycle_enabled(&mut hook, false);
    assert_eq!(hook.mouse_hook_proc(0, 0x20A, 0x0078_0000), PASS);
}

#[test]
fn wheel_steps_are_spaced() {
    let mut hook = hook(MouseCycleMode::Always);
    assert_eq!(hook.clock_answer(120, 1000), posts(WM_USER_FORWARD, true));
    assert_eq!(hook.clock_answer(120, 1079), HookVerdict { post: None, swallow: true });
    assert_eq!(hook.clock_answer(-120, 1080), posts(WM_USER_BACKWARD, true));
    // A clock that was set back keeps the wheel quiet.
    assert_eq!(hook.clock_answer(120, 500), HookVerdict { post: None, swallow: true });
    assert_eq!(hook.last_fire_ms, 1080);
    // No movement counts as down.
    assert_eq!(hook.clock_answer(0, 2000), posts(WM_USER_BACKWARD, true));
}

#[test]
fn never_mode_is_inert() {
    let mut hook = hook(MouseCycleMode::Always);
    set_mouse_cycle_mode(&mut hook, MouseCycleMode::Never);
    assert_eq!(hook.mouse_hook_proc(0, 0x20B, 0x0002_0000), PASS);
    assert_eq!(hook.mouse_hook_proc(0, 0x20A, 0x0078_0000), PASS);
}

#[test]
fn context_stays_that_of_the_first_listener() {
    let mut hook = hook(MouseCycleMode::Always);
    let mut other = config(MouseCycleMode::Never);
    other.forward_button = 9;
    hook.configure(&other, 77);
    assert_eq!(
        hook.context,
        Some(HookContext { forward_button: 2, backward_button: 1, listener_thread_id: 42 })
    );
    assert_eq!(hook.mode, MouseCycleMode::Never);
}

#[test]
fn wheel_without_context_is_still_swallowed() {
    let mut hook = MouseHook::new();
    assert_eq!(hook.clock_answer(120, 1000), HookVerdict { post: None, swallow: true });
    assert_eq!(hook.last_fire_ms, 1000);
}

#[test]
fn posts_of_many_wheel_events_are_spaced() {
    let mut hook = hook(MouseCycleMode::Always);
    let mut posted: Vec<u64> = Vec::new();
    for now in (1000..1500).step_by(7) {
        if hook.clock_answer(120, now).post.is_some() {
            posted.push(now);
        }
    }
    assert_eq!(posted, vec![1000, 1084, 1168, 1252, 1336, 1420]);
}
