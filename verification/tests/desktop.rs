use nicotine::activation::{Activation, ActivationReply, ActivationStep};
use nicotine::autostart::{
    desktop_entry, run_value, set_enabled, AutostartChange, AutostartError, DesktopEdit, DesktopStep,
    RegistryStep, RunKeyEdit,
};
use nicotine::config::{CharacterHotkeys, Config, MouseCycleMode};
use nicotine::cycle::EveWindow;
use nicotine::text::{chars_of, contains, starts_with, trim_start_matches};
use nicotine::tray::{
    decode_icon, find_window, menu_action, require_icon, restores_window, window_title, IconPixels,
    MenuAction, TrayButton, TrayError, TrayEvent,
};
use nicotine::wide::{little_endian, wide_z};
use nicotine::windows_manager::{
    enum_collect_eve, hwnd_to_id, id_to_hwnd, is_foreground_eve, read_window_title,
    title_buffer_len, ManagerError, Placement, TitleSearch, WindowsManager,
};
use std::collections::HashMap;

fn units(text: &str) -> Vec<u16> {
    text.encode_utf16().collect()
}

#[test]
fn text_search() {
    assert_eq!(chars_of("aß𝄞"), vec!['a', 'ß', '𝄞']);
    assert!(starts_with("event7", "event"));
    assert!(!starts_with("even", "event"));
    assert!(starts_with("x", ""));
    assert!(contains("EVE Launcher", "Launcher"));
    assert!(contains("Launcher", "Launcher"));
    assert!(!contains("EVE launcher", "Launcher"));
    assert!(contains("", ""));
    assert_eq!(trim_start_matches("ababc", "ab"), "c");
    assert_eq!(trim_start_matches("cab", "ab"), "cab");
    assert_eq!(trim_start_matches("abab", "ab"), "");
}

#[test]
fn clients_by_title() {
    assert!(is_foreground_eve(Some("EVE - Ann")));
    assert!(!is_foreground_eve(Some("EVE - Launcher")));
    assert!(!is_foreground_eve(Some("EVE Ann")));
    assert!(!is_foreground_eve(Some("My EVE - Ann")));
    assert!(!is_foreground_eve(None));
}

#[test]
fn collecting_keeps_visible_clients_in_order() {
    let mut windows = Vec::new();
    enum_collect_eve(&mut windows, 0x1_0000_0005, true, "EVE - Ann");
    enum_collect_eve(&mut windows, 6, false, "EVE - Bob");
    enum_collect_eve(&mut windows, 7, true, "EVE - Launcher");
    enum_collect_eve(&mut windows, 8, true, "EVE - EVE - Cid");
    let listed: Vec<(u32, &str)> = windows.iter().map(|w| (w.id, w.title.as_str())).collect();
    assert_eq!(listed, vec![(5, "Ann"), (8, "Cid")]);
    let manager = WindowsManager::new().unwrap();
    assert_eq!(
        manager.get_eve_windows(false, vec![]).err(),
        Some(ManagerError::EnumWindowsFailed)
    );
    assert_eq!(manager.get_eve_windows(true, windows).unwrap().len(), 2);
}

#[test]
fn titles_are_read_from_their_buffer() {
    assert_eq!(title_buffer_len(0), None);
    assert_eq!(title_buffer_len(-1), None);
    assert_eq!(title_buffer_len(9), Some(10));
    let mut buffer = units("EVE - Zoë");
    buffer.push(0);
    assert_eq!(read_window_title(&buffer, 9), "EVE - Zoë");
    assert_eq!(read_window_title(&buffer, 3), "EVE");
    assert_eq!(read_window_title(&buffer, 0), "");
    assert_eq!(read_window_title(&vec![0x41, 0xD800, 0x42], 3), "A\u{FFFD}B");
    assert_eq!(read_window_title(&vec![0xD834, 0xDD1E], 2), "𝄞");
    assert_eq!(read_window_title(&vec![0xD834, 0xD834, 0xDD1E], 3), "\u{FFFD}𝄞");
    assert_eq!(read_window_title(&vec![0xD800, 0xD800], 2), "\u{FFFD}\u{FFFD}");
    assert_eq!(read_window_title(&vec![0xDC00, 0xD800, 0xE000], 3), "\u{FFFD}\u{FFFD}\u{E000}");
    assert_eq!(read_window_title(&vec![0xD800], 1), "\u{FFFD}");
    assert_eq!(read_window_title(&vec![0xDBFF, 0xDFFF], 2), "\u{10FFFF}");
}

#[test]
fn ids_name_handles() {
    assert_eq!(hwnd_to_id(0x7_0000_0009), 9);
    assert_eq!(hwnd_to_id(id_to_hwnd(u32::MAX)), u32::MAX);
    assert_eq!(WindowsManager::new().unwrap().get_active_window(12), 12);
}

#[test]
fn search_finds_the_first_visible_title() {
    let mut search = TitleSearch::new("Nicotine");
    assert!(search.visit(1, false, &"Nicotine".to_string()));
    assert!(search.visit(2, true, &"Nicotine 2".to_string()));
    assert!(!search.visit(3, true, &"Nicotine".to_string()));
    assert!(!search.visit(4, true, &"Nicotine".to_string()));
    assert_eq!(search.found, Some(3));
}

fn config() -> Config {
    Config {
        display_width: 1921,
        display_height: 1080,
        panel_height: 30,
        eve_width: 1000,
        forward_button: 0,
        backward_button: 0,
        mouse_cycle_mode: MouseCycleMode::Never,
        enable_wheel_cycle: false,
        wheel_cycle_modifier: 0,
        mouse_device_name: None,
        mouse_device_path: None,
        enable_keyboard_buttons: false,
        forward_key: 0,
        backward_key: 0,
        modifier_key: None,
        preview_toggle_key: 0,
        preview_toggle_modifier: None,
        characters: vec![],
        character_hotkeys: CharacterHotkeys::new(),
        minimize_inactive: false,
    }
}

#[test]
fn clients_are_stacked_in_the_middle() {
    let manager = WindowsManager::new().unwrap();
    let windows = vec![
        EveWindow { id: 4, title: String::new() },
        EveWindow { id: 2, title: String::new() },
    ];
    let place = |hwnd| Placement { hwnd, x: 460, y: 0, width: 1000, height: 1050 };
    assert_eq!(manager.stack_windows(&windows, &config()), vec![place(4), place(2)]);
    let mut huge = config();
    huge.display_width = u32::MAX;
    huge.eve_width = u32::MAX;
    assert_eq!(manager.stack_windows(&windows, &huge)[0].width, -1);
    assert_eq!(manager.stack_windows(&windows, &huge)[0].x, 0);
}

fn refused(target: usize, foreground: usize) -> Activation {
    let mut a = Activation::force_activate(target, foreground);
    a.advance(ActivationReply::Answer(false));
    a.advance(ActivationReply::Answer(false));
    assert_eq!(a.step, ActivationStep::QueryThreads);
    a
}

#[test]
fn active_window_needs_no_activation() {
    assert_eq!(Activation::force_activate(5, 5).step, ActivationStep::Finished);
}

#[test]
fn minimized_window_is_restored_first() {
    let mut a = Activation::force_activate(5, 6);
    assert_eq!(a.step, ActivationStep::CheckIconic);
    a.advance(ActivationReply::Answer(true));
    assert_eq!(a.step, ActivationStep::Restore);
    a.advance(ActivationReply::Done);
    assert_eq!(a.step, ActivationStep::TryForeground);
    a.advance(ActivationReply::Answer(true));
    assert_eq!(a.step, ActivationStep::Finished);
}

#[test]
fn attached_threads_are_detached() {
    let mut a = refused(5, 6);
    a.advance(ActivationReply::Threads { current: 1, target: 2, foreground: 3 });
    assert_eq!(a.step, ActivationStep::AttachTarget);
    a.advance(ActivationReply::Answer(true));
    assert_eq!(a.step, ActivationStep::AttachForeground);
    a.advance(ActivationReply::Answer(true));
    assert_eq!(a.step, ActivationStep::Force);
    a.advance(ActivationReply::Done);
    assert_eq!(a.step, ActivationStep::DetachTarget);
    a.advance(ActivationReply::Done);
    assert_eq!(a.step, ActivationStep::DetachForeground);
    a.advance(ActivationReply::Done);
    assert_eq!(a.step, ActivationStep::Finished);
    assert!(!a.attached_target && !a.attached_foreground);
}

#[test]
fn threads_that_were_not_attached_are_left_alone() {
    let mut a = refused(5, 6);
    a.advance(ActivationReply::Threads { current: 1, target: 1, foreground: 3 });
    assert_eq!(a.step, ActivationStep::AttachForeground);
    a.advance(ActivationReply::Answer(false));
    a.advance(ActivationReply::Done);
    assert_eq!(a.step, ActivationStep::Finished);

    // Without a foreground window its thread does not count.
    let mut a = refused(5, 0);
    a.advance(ActivationReply::Threads { current: 1, target: 0, foreground: 3 });
    assert_eq!(a.step, ActivationStep::Force);

    // The thread of the target is attached once.
    let mut a = refused(5, 6);
    a.advance(ActivationReply::Threads { current: 1, target: 2, foreground: 2 });
    a.advance(ActivationReply::Answer(true));
    assert_eq!(a.step, ActivationStep::Force);
}

#[test]
fn wide_text_is_utf16_with_a_zero() {
    let mut expected = units("Aß€𝄞\u{10FFFF}");
    expected.push(0);
    assert_eq!(wide_z("Aß€𝄞\u{10FFFF}"), expected);
    assert_eq!(wide_z(""), vec![0]);
    assert_ne!(wide_z("\u{10000}"), wide_z("\u{10400}"));
    assert_eq!(little_endian(&vec![0x1234, 0x00FF]), vec![0x34, 0x12, 0xFF, 0x00]);
}

#[test]
fn switching_on_needs_the_executable() {
    match set_enabled(true, Some("/bin/n")) {
        Ok(AutostartChange::Write(exe)) => assert_eq!(exe, "/bin/n"),
        other => panic!("{:?}", other),
    }
    assert_eq!(set_enabled(true, None).err(), Some(AutostartError::LocateExe));
    assert!(matches!(set_enabled(false, None), Ok(AutostartChange::Clear)));
}

#[test]
fn texts_of_the_autostart_entries() {
    assert_eq!(run_value("C:\\n.exe"), "\"C:\\n.exe\" start --autostart");
    assert_eq!(
        desktop_entry("/opt/n"),
        "[Desktop Entry]\nType=Application\nName=Nicotine\nExec=/opt/n start --autostart\n\
         Terminal=false\nX-GNOME-Autostart-enabled=true\n"
    );
}

#[test]
fn run_value_is_written_and_the_key_closed() {
    let mut edit = RunKeyEdit::write("n");
    assert_eq!(edit.subkey, wide_z("Software\\Microsoft\\Windows\\CurrentVersion\\Run"));
    assert_eq!(edit.name, wide_z("Nicotine"));
    assert_eq!(edit.value, little_endian(&wide_z("\"n\" start --autostart")));
    assert_eq!(edit.step, RegistryStep::CreateKey);
    edit.advance(true);
    assert_eq!(edit.step, RegistryStep::SetValue);
    edit.advance(false);
    assert_eq!(edit.step, RegistryStep::CloseKey);
    edit.advance(true);
    assert_eq!(edit.step, RegistryStep::Failed(AutostartError::WriteRunValue));
    let mut edit = RunKeyEdit::write("n");
    edit.advance(false);
    assert_eq!(edit.step, RegistryStep::Failed(AutostartError::OpenRunKey));
}

#[test]
fn clearing_never_fails() {
    let mut edit = RunKeyEdit::clear();
    assert!(edit.value.is_empty());
    assert_eq!(edit.step, RegistryStep::OpenKey);
    edit.advance(false);
    assert_eq!(edit.step, RegistryStep::Done);
    let mut edit = RunKeyEdit::clear();
    edit.advance(true);
    assert_eq!(edit.step, RegistryStep::DeleteValue);
    edit.advance(false);
    assert_eq!(edit.step, RegistryStep::CloseKey);
    edit.advance(true);
    assert_eq!(edit.step, RegistryStep::Done);
}

/// The Run key as a map: makes the calls that an edit asks for.
fn apply(key: &mut HashMap<Vec<u16>, Vec<u8>>, mut edit: RunKeyEdit) -> RegistryStep {
    loop {
        match edit.step {
            RegistryStep::SetValue => {
                key.insert(edit.name.clone(), edit.value.clone());
            }
            RegistryStep::DeleteValue => {
                key.remove(&edit.name);
            }
            RegistryStep::Done | RegistryStep::Failed(_) => return edit.step,
            _ => {}
        }
        edit.advance(true);
    }
}

#[test]
fn switching_off_undoes_switching_on() {
    let mut key = HashMap::new();
    key.insert(wide_z("Other"), vec![1, 0]);
    let before = key.clone();
    assert_eq!(apply(&mut key, RunKeyEdit::write("n")), RegistryStep::Done);
    assert_eq!(key[&wide_z("Nicotine")], little_endian(&wide_z("\"n\" start --autostart")));
    assert_eq!(apply(&mut key, RunKeyEdit::clear()), RegistryStep::Done);
    assert_eq!(key, before);
    assert_eq!(apply(&mut key, RunKeyEdit::clear()), RegistryStep::Done);
    assert_eq!(key, before);
}

#[test]
fn desktop_entry_is_written_step_by_step() {
    let mut edit = DesktopEdit::write("/opt/n");
    assert_eq!(edit.body.as_deref(), Some(desktop_entry("/opt/n").as_str()));
    assert_eq!(edit.step, DesktopStep::LocateDir);
    edit.advance(true);
    assert_eq!(edit.step, DesktopStep::CreateDir);
    edit.advance(true);
    assert_eq!(edit.step, DesktopStep::WriteFile);
    edit.advance(true);
    assert_eq!(edit.step, DesktopStep::Done);
    let errors = [
        AutostartError::LocateConfigDir,
        AutostartError::CreateAutostartDir,
        AutostartError::WriteDesktopEntry,
    ];
    for (at, error) in errors.iter().enumerate() {
        let mut edit = DesktopEdit::write("/opt/n");
        for _ in 0..at {
            edit.advance(true);
        }
        edit.advance(false);
        assert_eq!(edit.step, DesktopStep::Failed(*error));
    }
}

#[test]
fn removing_the_desktop_entry_needs_only_the_directory() {
    let mut edit = DesktopEdit::clear();
    assert_eq!(edit.body, None);
    edit.advance(true);
    assert_eq!(edit.step, DesktopStep::RemoveFile);
    edit.advance(false);
    assert_eq!(edit.step, DesktopStep::Done);
    let mut edit = DesktopEdit::clear();
    edit.advance(false);
    assert_eq!(edit.step, DesktopStep::Failed(AutostartError::LocateConfigDir));
}

/// A picture of two pixels: opaque red, and a half-transparent dark one.
const PNG: [u8; 74] = [
    137, 80, 78, 71, 13, 10, 26, 10, 0, 0, 0, 13, 73, 72, 68, 82, 0, 0, 0, 2, 0, 0, 0, 1, 8, 6, 0, 0,
    0, 244, 34, 127, 138, 0, 0, 0, 17, 73, 68, 65, 84, 120, 156, 99, 248, 207, 192, 240, 159, 145,
    137, 185, 1, 0, 13, 140, 2, 133, 110, 52, 1, 72, 0, 0, 0, 0, 73, 69, 78, 68, 174, 66, 96, 130,
];

#[test]
fn icon_is_decoded() {
    let icon = decode_icon(&PNG).unwrap();
    assert_eq!((icon.width, icon.height), (2, 1));
    assert_eq!(icon.rgba, vec![255, 0, 0, 255, 1, 2, 3, 128]);
    assert_eq!(decode_icon(&[1, 2, 3]).err(), Some(TrayError::DecodeIcon));
    assert_eq!(require_icon(None).err(), Some(TrayError::DecodeIcon));
    let pixel = IconPixels { rgba: vec![1, 2, 3, 4], width: 1, height: 1 };
    assert_eq!(require_icon(Some(pixel)).unwrap().rgba, vec![1, 2, 3, 4]);
}

#[test]
fn left_clicks_restore_the_window() {
    let click = |button, up| restores_window(&TrayEvent::Click { button, up });
    assert!(click(TrayButton::Left, true));
    assert!(!click(TrayButton::Left, false));
    assert!(!click(TrayButton::Right, true));
    assert!(!click(TrayButton::Middle, true));
    assert!(restores_window(&TrayEvent::DoubleClick { button: TrayButton::Left }));
    assert!(!restores_window(&TrayEvent::DoubleClick { button: TrayButton::Right }));
    assert!(!restores_window(&TrayEvent::Other));
}

#[test]
fn menu_choices() {
    let show = "1001".to_string();
    let exit = "1002".to_string();
    assert_eq!(menu_action(&show, &show, &exit), MenuAction::ShowWindow);
    assert_eq!(menu_action(&exit, &show, &exit), MenuAction::Exit);
    assert_eq!(menu_action(&"7".to_string(), &show, &exit), MenuAction::Ignore);
    assert_eq!(window_title(), wide_z("Nicotine"));
    assert_eq!(find_window(Some(0)), None);
    assert_eq!(find_window(Some(3)), Some(3));
    assert_eq!(find_window(None), None);
}
