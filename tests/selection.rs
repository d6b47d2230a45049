use waysted::{get_current_compositor, CompositorKind, ConfigError, Daemon, Hyprland, Selector};

#[test]
fn niri_is_selected() {
    assert!(matches!(get_current_compositor(Selector::Name("niri".to_string())), Ok(CompositorKind::Niri)));
}

#[test]
fn hyprland_is_selected() {
    assert!(matches!(
        get_current_compositor(Selector::Name("Hyprland".to_string())),
        Ok(CompositorKind::Hyprland)
    ));
    let _backend = Hyprland::new();
}

#[test]
fn missing_selector_is_not_found() {
    assert!(matches!(get_current_compositor(Selector::Absent), Err(ConfigError::NotFound)));
}

#[test]
fn undecodable_selector_is_invalid_encoding() {
    assert!(matches!(get_current_compositor(Selector::NotUnicode), Err(ConfigError::InvalidEncoding)));
}

#[test]
fn other_compositor_is_unsupported_with_its_name() {
    match get_current_compositor(Selector::Name("sway".to_string())) {
        Err(ConfigError::Unsupported(name)) => assert_eq!(name, "sway"),
        other => panic!("unexpected {:?}", other),
    }
    assert!(matches!(
        get_current_compositor(Selector::Name("Niri".to_string())),
        Err(ConfigError::Unsupported(_))
    ));
}

#[test]
fn daemon_keeps_selected_compositor() {
    let daemon = Daemon::new(Selector::Name("niri".to_string())).unwrap();
    assert_eq!(daemon.compositor_kind(), CompositorKind::Niri);
    assert!(matches!(Daemon::new(Selector::Absent), Err(ConfigError::NotFound)));
}

#[test]
fn hyprland_active_window_line_gives_window() {
    let w = Hyprland::parse_event_line("activewindow>>kitty,~/src: vim").unwrap();
    assert_eq!(w.app_name, "kitty");
    assert_eq!(w.title, "~/src: vim");
}

#[test]
fn hyprland_title_keeps_later_commas() {
    let w = Hyprland::parse_event_line("activewindow>>firefox,Search, results, more").unwrap();
    assert_eq!(w.app_name, "firefox");
    assert_eq!(w.title, "Search, results, more");
}

#[test]
fn hyprland_empty_title_or_class_is_kept() {
    let w = Hyprland::parse_event_line("activewindow>>firefox,").unwrap();
    assert_eq!((w.app_name.as_str(), w.title.as_str()), ("firefox", ""));
    let w = Hyprland::parse_event_line("activewindow>>,Untitled").unwrap();
    assert_eq!((w.app_name.as_str(), w.title.as_str()), ("", "Untitled"));
}

#[test]
fn hyprland_line_without_window_gives_nothing() {
    assert!(Hyprland::parse_event_line("activewindow>>,").is_none());
    assert!(Hyprland::parse_event_line("activewindow>>nocomma").is_none());
}

#[test]
fn hyprland_other_lines_give_nothing() {
    assert!(Hyprland::parse_event_line("workspace>>2").is_none());
    assert!(Hyprland::parse_event_line("activewindowv2>>5612a0b0").is_none());
    assert!(Hyprland::parse_event_line("").is_none());
    assert!(Hyprland::parse_event_line("activewindow>").is_none());
}

#[test]
fn hyprland_non_ascii_text() {
    let w = Hyprland::parse_event_line("activewindow>>Ünïcode,日本語のタイトル").unwrap();
    assert_eq!(w.app_name, "Ünïcode");
    assert_eq!(w.title, "日本語のタイトル");
}
