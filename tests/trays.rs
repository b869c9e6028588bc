use tray_bridge::{AboutMetadataBuilder, Icon, Menu, TrayError, TrayIcon, TrayIconBuilder};

#[test]
fn tray_build_carries_settings() {
    let icon = Icon::from_rgba(vec![1, 2, 3, 4], 1, 1).unwrap();
    let menu = Menu::new();
    let mut b = TrayIconBuilder::new();
    b.with_icon(&icon);
    b.with_tooltip("tip".to_string());
    let snapshot = b.with_title("title".to_string());
    b.with_menu(&menu);
    assert!(!snapshot.has_menu);
    let tray = b.build(true).ok().unwrap();
    let s = tray.state.as_ref().unwrap();
    assert_eq!(s.tooltip, Some("tip".to_string()));
    assert_eq!(s.title, Some("title".to_string()));
    assert!(s.has_menu);
    assert!(s.visible);
    assert_eq!(s.icon.as_ref().unwrap().rgba(), &vec![1, 2, 3, 4]);
}

#[test]
fn tray_build_reports_platform_failure() {
    let b = TrayIconBuilder::new();
    assert_eq!(b.build(false).err(), Some(TrayError::NativeTrayCreationFailure));
}

#[test]
fn tray_setters_update_live_tray() {
    let mut tray = TrayIconBuilder::new().build(true).ok().unwrap();
    tray.set_tooltip(Some("t".to_string()));
    tray.set_title(Some("x".to_string()));
    tray.set_visible(false);
    let icon = Icon::from_rgba(vec![9; 8], 2, 1).unwrap();
    tray.set_icon(Some(&icon));
    let s = tray.state.as_ref().unwrap();
    assert_eq!(s.tooltip, Some("t".to_string()));
    assert_eq!(s.title, Some("x".to_string()));
    assert!(!s.visible);
    assert_eq!(s.icon.as_ref().unwrap().width(), 2);
    tray.set_icon(None);
    assert!(tray.state.as_ref().unwrap().icon.is_none());
}

#[test]
fn tray_setters_on_missing_tray_do_nothing() {
    let mut tray = TrayIcon { state: None };
    tray.set_tooltip(Some("t".to_string()));
    tray.set_title(None);
    tray.set_visible(true);
    tray.set_icon(None);
    assert!(tray.state.is_none());
}

#[test]
fn about_metadata_defaults_to_absent() {
    let meta = AboutMetadataBuilder::new().build();
    assert!(meta.name.is_none() && meta.version.is_none() && meta.authors.is_none());
    let mut b = AboutMetadataBuilder::new();
    b.with_name("App".to_string());
    b.with_authors(vec!["A".to_string(), "B".to_string()]);
    let copy = b.with_website("https://example.org".to_string());
    let meta = b.build();
    assert_eq!(meta.name, Some("App".to_string()));
    assert_eq!(meta.authors, Some(vec!["A".to_string(), "B".to_string()]));
    assert_eq!(copy.website, Some("https://example.org".to_string()));
    assert!(meta.comments.is_none());
}
