use tray_timer::dispatch::{dispatch, Notification, Payload, TrayAction, MAIN_WINDOW};
use tray_timer::menu::{startup_tray_menu, tray_menu, MenuEntry, SubmenuEntry};
use tray_timer::preset::{preset_identifier, preset_index, PresetTime};
use tray_timer::theme::Theme;

fn selected(index: usize) -> TrayAction {
    TrayAction::Notify(Notification::PresetSelected(index))
}

fn identifiers(menu: &[MenuEntry]) -> Vec<String> {
    let mut ids: Vec<String> = Vec::new();
    for entry in menu.iter() {
        match entry {
            MenuEntry::Item(item) => ids.push(item.id.clone()),
            MenuEntry::Separator => {}
            MenuEntry::Submenu { entries, .. } => {
                for inner in entries.iter() {
                    if let SubmenuEntry::Item(item) = inner {
                        ids.push(item.id.clone());
                    }
                }
            }
        }
    }
    ids
}

#[test]
fn notifications_go_to_the_main_window() {
    assert_eq!(MAIN_WINDOW, "main");
}

#[test]
fn preset_2_selects_preset_2() {
    assert_eq!(dispatch("preset_2"), selected(2));
}

#[test]
fn preset_abc_is_ignored() {
    assert_eq!(dispatch("preset_abc"), TrayAction::Ignore);
}

#[test]
fn preset_identifiers_carry_any_index() {
    assert_eq!(dispatch("preset_0"), selected(0));
    assert_eq!(dispatch("preset_1"), selected(1));
    assert_eq!(dispatch("preset_10"), selected(10));
    assert_eq!(dispatch("preset_123456"), selected(123456));
    assert_eq!(dispatch("preset_007"), selected(7));
    assert_eq!(dispatch("preset_+2"), selected(2));
}

#[test]
fn preset_identifier_at_the_limit_of_usize() {
    let id = format!("preset_{}", usize::MAX);
    assert_eq!(dispatch(&id), selected(usize::MAX));
    let over = format!("preset_{}", usize::MAX as u128 + 1);
    assert_eq!(dispatch(&over), TrayAction::Ignore);
}

#[test]
fn malformed_preset_identifiers_are_ignored() {
    let malformed = [
        "preset_", "preset_-1", "preset_ 1", "preset_1 ", "preset_1.5", "preset_one", "preset_١",
        "preset_+", "preset_++1", "preset__1", "preset_1_", "preset", "preset1", "Preset_1",
        "PRESET_1", " preset_1", "preset_1\n", "preset_0x1",
    ];
    for id in malformed.iter() {
        assert_eq!(dispatch(id), TrayAction::Ignore, "{:?}", id);
    }
}

#[test]
fn preset_index_agrees_with_std() {
    let tails = ["", "0", "5", "05", "+5", "-5", "5a", "a5", " 5", "18446744073709551616", "٥"];
    for tail in tails.iter() {
        let id: Vec<char> = format!("preset_{}", tail).chars().collect();
        assert_eq!(preset_index(&id), tail.parse::<usize>().ok(), "{:?}", tail);
    }
    let other: Vec<char> = "theme_5".chars().collect();
    assert_eq!(preset_index(&other), None);
}

#[test]
fn show_shows_the_main_window() {
    assert_eq!(dispatch("show"), TrayAction::ShowMainWindow);
}

#[test]
fn fixed_preset_entries_select_the_first_three_presets() {
    assert_eq!(dispatch("set_3min"), selected(0));
    assert_eq!(dispatch("set_5min"), selected(1));
    assert_eq!(dispatch("set_25min"), selected(2));
}

#[test]
fn toggle_mode_notifies() {
    assert_eq!(dispatch("toggle_mode"), TrayAction::Notify(Notification::ToggleMode));
}

#[test]
fn settings_notifies() {
    assert_eq!(dispatch("settings"), TrayAction::Notify(Notification::OpenSettings));
}

#[test]
fn customize_presets_opens_the_settings_window() {
    assert_eq!(dispatch("customize_presets"), TrayAction::OpenPresetSettings);
}

#[test]
fn quit_exits_with_code_0() {
    assert_eq!(dispatch("quit"), TrayAction::Exit(0));
}

#[test]
fn theme_entries_change_the_theme() {
    let change = |theme: Theme| TrayAction::Notify(Notification::ChangeTheme(theme));
    assert_eq!(dispatch("theme_blue"), change(Theme::Blue));
    assert_eq!(dispatch("theme_green"), change(Theme::Green));
    assert_eq!(dispatch("theme_purple"), change(Theme::Purple));
    assert_eq!(dispatch("theme_orange"), change(Theme::Orange));
    assert_eq!(dispatch("theme_red"), change(Theme::Red));
    assert_eq!(dispatch("theme_dark"), change(Theme::Dark));
    assert_eq!(dispatch("theme_light"), change(Theme::Light));
    assert_eq!(dispatch("theme_dynamic"), change(Theme::Dynamic));
    assert_eq!(dispatch("theme_transparent"), change(Theme::Transparent));
}

#[test]
fn unknown_themes_are_ignored() {
    let unknown = ["theme_", "theme_pink", "theme_Blue", "theme_blue ", "theme_bluegreen", "theme"];
    for id in unknown.iter() {
        assert_eq!(dispatch(id), TrayAction::Ignore, "{:?}", id);
    }
}

#[test]
fn foo_is_ignored() {
    assert_eq!(dispatch("foo"), TrayAction::Ignore);
}

#[test]
fn unrecognized_identifiers_are_ignored() {
    let unknown = [
        "", " ", "Show", "SHOW", "show ", " show", "quit!", "exit", "set_10min", "set_3min ",
        "toggle-mode", "toggle_mod", "open-settings", "customize_preset", "main-tray", "\u{0}",
        "↔", "preset-selected", "change-theme",
    ];
    for id in unknown.iter() {
        assert_eq!(dispatch(id), TrayAction::Ignore, "{:?}", id);
    }
}

#[test]
fn event_names_are_those_the_frontend_listens_for() {
    assert_eq!(Notification::PresetSelected(0).event_name(), "preset-selected");
    assert_eq!(Notification::PresetSelected(99).event_name(), "preset-selected");
    assert_eq!(Notification::ToggleMode.event_name(), "toggle-mode");
    assert_eq!(Notification::OpenSettings.event_name(), "open-settings");
    assert_eq!(Notification::ChangeTheme(Theme::Blue).event_name(), "change-theme");
    assert_eq!(Notification::ChangeTheme(Theme::Transparent).event_name(), "change-theme");
}

#[test]
fn payloads_are_index_name_or_nothing() {
    assert_eq!(Notification::PresetSelected(0).payload(), Payload::Index(0));
    assert_eq!(Notification::PresetSelected(17).payload(), Payload::Index(17));
    assert_eq!(Notification::ToggleMode.payload(), Payload::Empty);
    assert_eq!(Notification::OpenSettings.payload(), Payload::Empty);
    assert_eq!(Notification::ChangeTheme(Theme::Blue).payload(), Payload::Name("blue"));
    assert_eq!(Notification::ChangeTheme(Theme::Dynamic).payload(), Payload::Name("dynamic"));
    for theme in Theme::all() {
        assert_eq!(Notification::ChangeTheme(theme).payload(), Payload::Name(theme.name()));
    }
}

#[test]
fn preset_2_is_sent_as_preset_selected_with_2() {
    match dispatch("preset_2") {
        TrayAction::Notify(notification) => {
            assert_eq!(notification.event_name(), "preset-selected");
            assert_eq!(notification.payload(), Payload::Index(2));
        }
        other => panic!("not a notification: {:?}", other),
    }
}

#[test]
fn preset_identifier_selects_its_preset() {
    let indexes = [0usize, 1, 2, 9, 10, 11, 99, 100, 4096, usize::MAX - 1, usize::MAX];
    for &index in indexes.iter() {
        assert_eq!(dispatch(&preset_identifier(index)), selected(index));
    }
}

#[test]
fn theme_identifier_changes_to_its_theme() {
    for theme in Theme::all() {
        assert_eq!(
            dispatch(&theme.identifier()),
            TrayAction::Notify(Notification::ChangeTheme(theme))
        );
    }
}

#[test]
fn every_entry_of_the_tray_menu_is_answered() {
    let mut presets: Vec<PresetTime> = Vec::new();
    for index in 0..12 {
        presets.push(PresetTime { seconds: 60 * (index + 1), label: format!("Preset {}", index) });
    }
    let menu = tray_menu(&presets);
    let ids = identifiers(&menu);
    assert_eq!(ids.len(), 5 + 12 + 9);
    for id in ids.iter() {
        assert_ne!(dispatch(id), TrayAction::Ignore, "{:?}", id);
    }
}

#[test]
fn every_entry_of_the_startup_menu_is_answered() {
    let menu = startup_tray_menu();
    let ids = identifiers(&menu);
    assert_eq!(ids.len(), 5 + 3 + 9);
    for id in ids.iter() {
        assert_ne!(dispatch(id), TrayAction::Ignore, "{:?}", id);
    }
}

#[test]
fn preset_entries_of_the_tray_menu_select_their_presets() {
    let presets = vec![
        PresetTime { seconds: 180, label: String::from("Tea") },
        PresetTime { seconds: 300, label: String::from("Break") },
        PresetTime { seconds: 1500, label: String::from("Focus") },
        PresetTime { seconds: 3000, label: String::from("Deep work") },
    ];
    let menu = tray_menu(&presets);
    for index in 0..presets.len() {
        match &menu[2 + index] {
            MenuEntry::Item(item) => assert_eq!(dispatch(&item.id), selected(index)),
            other => panic!("entry {} is {:?}", index, other),
        }
    }
}
