use ghostify_dpi::console_command::ConsoleCommand;
use ghostify_dpi::icons::{icon_file_name, tray_icon_theme, IconTheme};
use ghostify_dpi::launch_stages::LaunchStages;
use ghostify_dpi::tray::{
    click_shows_window, get_status, get_tooltip, menu_action, menu_item_states, tray_menu, MenuAction,
    MenuEntry, MenuStates, PointerButton,
};
use ghostify_dpi::util::{
    command_line, conversion_message, kill_ghostifydpi, kill_goodbyedpi, needs_update,
    open_url_command, recolor_svg, sized_icon_path, stop_goodbyedpi_service, ICON_SIZES,
};

fn strings(words: &[&str]) -> Vec<String> {
    words.iter().map(|w| w.to_string()).collect()
}

#[test]
fn status_payload_loses_its_quotes() {
    assert_eq!(get_status("\"Started\""), "Started");
    assert_eq!(get_status("Stopped"), "Stopped");
    assert_eq!(get_status("\"a\"b\""), "ab");
    for stage in [LaunchStages::Stopped, LaunchStages::Stopping, LaunchStages::Started, LaunchStages::Starting] {
        let payload = format!("\"{}\"", stage.to_string());
        assert_eq!(LaunchStages::from_str(&get_status(&payload)), Ok(stage));
    }
}

#[test]
fn tooltip_names_status() {
    assert_eq!(get_tooltip("Stopped"), "Ghostify DPI\r\nStatus: Stopped");
}

#[test]
fn menu_items_follow_stage() {
    assert_eq!(menu_item_states(LaunchStages::Stopped), MenuStates { start_enabled: true, stop_enabled: false });
    assert_eq!(menu_item_states(LaunchStages::Started), MenuStates { start_enabled: false, stop_enabled: true });
    assert_eq!(menu_item_states(LaunchStages::Starting), MenuStates { start_enabled: false, stop_enabled: false });
    assert_eq!(menu_item_states(LaunchStages::Stopping), MenuStates { start_enabled: false, stop_enabled: false });
}

#[test]
fn menu_ids_map_to_actions() {
    assert_eq!(menu_action("start"), Some(MenuAction::Start));
    assert_eq!(menu_action("stop"), Some(MenuAction::Stop));
    assert_eq!(menu_action("hide"), Some(MenuAction::Hide));
    assert_eq!(menu_action("quit"), Some(MenuAction::Quit));
    assert_eq!(menu_action("settings"), None);
}

#[test]
fn tray_menu_layout() {
    let menu = tray_menu();
    assert_eq!(menu.len(), 5);
    let mut ids = Vec::new();
    for entry in &menu {
        match entry {
            MenuEntry::Item { id, label, enabled } => {
                ids.push(id.clone());
                assert_eq!(*enabled, id != "stop");
                assert_eq!(label.to_lowercase(), *id);
                assert!(menu_action(id).is_some());
            }
            MenuEntry::Separator => ids.push("-".to_string()),
        }
    }
    assert_eq!(ids, strings(&["start", "stop", "-", "hide", "quit"]));
}

#[test]
fn only_left_release_shows_window() {
    assert!(click_shows_window(PointerButton::Left, true));
    assert!(!click_shows_window(PointerButton::Left, false));
    assert!(!click_shows_window(PointerButton::Right, true));
    assert!(!click_shows_window(PointerButton::Middle, true));
}

#[test]
fn icon_names_match_build_paths() {
    assert_eq!(icon_file_name(IconTheme::IconLight, 16), "icon_light_16x16.png");
    assert_eq!(icon_file_name(IconTheme::Icon, 256), "icon_256x256.png");
    assert_eq!(sized_icon_path("icon_dark", 20), "./icons/generated/icon_dark_20x20.png");
    for size in ICON_SIZES {
        for theme in [IconTheme::Icon, IconTheme::IconDark, IconTheme::IconLight] {
            assert_eq!(
                sized_icon_path(theme.name(), size),
                format!("./icons/generated/{}", icon_file_name(theme, size))
            );
        }
    }
}

#[test]
fn tray_theme_choice() {
    assert_eq!(tray_icon_theme(true), IconTheme::IconLight);
    assert_eq!(tray_icon_theme(false), IconTheme::IconDark);
}

#[test]
fn icon_sizes_listed() {
    assert_eq!(ICON_SIZES, [16, 20, 24, 30, 32, 36, 40, 48, 60, 64, 72, 80, 96, 256]);
}

#[test]
fn kill_commands_in_order() {
    assert_eq!(
        kill_goodbyedpi(),
        vec![
            strings(&["taskkill.exe", "/f", "/t", "/im", "goodbyedpi.exe"]),
            strings(&["sc.exe", "stop", "windivert14"]),
            strings(&["sc.exe", "delete", "windivert14"]),
            strings(&["sc.exe", "stop", "windivert"]),
            strings(&["sc.exe", "delete", "windivert"]),
        ]
    );
    assert_eq!(kill_ghostifydpi(), vec![strings(&["taskkill.exe", "/f", "/t", "/im", "ghostifydpi.exe"])]);
    assert_eq!(
        stop_goodbyedpi_service(),
        vec![strings(&["sc.exe", "stop", "goodbyedpi"]), strings(&["sc.exe", "delete", "goodbyedpi"])]
    );
}

#[test]
fn open_url_uses_start() {
    assert_eq!(open_url_command("https://example.org"), strings(&["cmd.exe", "/C", "start", "https://example.org"]));
}

#[test]
fn logged_command_line() {
    assert_eq!(command_line(&strings(&["taskkill.exe", "/f", "/t"])), "taskkill.exe /f /t");
}

#[test]
fn recolor_replaces_current_color() {
    let svg = "<path stroke=\"currentColor\" fill=\"currentColor\"/>";
    assert_eq!(recolor_svg(svg, "black"), "<path stroke=\"black\" fill=\"black\"/>");
    assert_eq!(recolor_svg(svg, ""), svg);
}

#[test]
fn update_only_when_bytes_differ() {
    assert!(!needs_update(&[1, 2, 3], &[1, 2, 3]));
    assert!(needs_update(&[1, 2, 3], &[1, 2, 4]));
    assert!(needs_update(&[1, 2, 3], &[]));
    assert!(!needs_update(&[], &[]));
}

#[test]
fn conversion_message_text() {
    assert_eq!(
        conversion_message("../src/assets/icon.svg", "./icons/generated/icon_16x16.png", 16, 16),
        "Converting from ../src/assets/icon.svg to ./icons/generated/icon_16x16.png, size 16x16"
    );
}

#[test]
fn console_command_builder() {
    let mut command = ConsoleCommand::new("goodbyedpi.exe");
    assert_eq!(command.program(), "goodbyedpi.exe");
    assert!(command.args().is_empty());
    assert_eq!(command.process_id(), 0);
    command.arg("-9");
    command.arg("--blacklist");
    command.with_process_id(3);
    assert_eq!(command.args(), &strings(&["-9", "--blacklist"]));
    assert_eq!(command.process_id(), 3);
}
