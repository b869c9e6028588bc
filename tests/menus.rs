use tray_bridge::{
    AnyMenuItem, CheckMenuItemBuilder, Menu, MenuItemBuilder, PredefinedKind, PredefinedMenuItem,
    SubmenuBuilder,
};

fn plain(text: &str) -> tray_bridge::MenuItem {
    let mut b = MenuItemBuilder::new();
    b.with_text(text.to_string());
    b.build().ok().unwrap()
}

fn check(text: &str, checked: bool) -> tray_bridge::CheckMenuItem {
    let mut b = CheckMenuItemBuilder::new();
    b.with_text(text.to_string());
    b.with_checked(checked);
    b.build().ok().unwrap()
}

fn texts(m: &Menu) -> Vec<Option<String>> {
    m.items().iter().map(|e| e.text().cloned()).collect()
}

#[test]
fn second_registration_replaces_first() {
    let mut m = Menu::new();
    m.append_menu_item(plain("first"), Some("x".to_string()));
    assert!(!m.is_checked("x".to_string()));
    m.append_check_menu_item(check("second", true), "x".to_string());
    assert!(m.is_checked("x".to_string()));
    m.set_text("x".to_string(), "renamed".to_string());
    assert_eq!(
        texts(&m),
        vec![Some("first".to_string()), Some("renamed".to_string())]
    );
}

#[test]
fn toggle_twice_restores_mark() {
    let mut m = Menu::new();
    m.append_check_menu_item(check("a", false), "a".to_string());
    assert!(!m.is_checked("a".to_string()));
    assert!(m.toggle_check("a".to_string()));
    assert!(m.is_checked("a".to_string()));
    assert!(!m.toggle_check("a".to_string()));
    assert!(!m.is_checked("a".to_string()));
}

#[test]
fn unknown_ids_report_false() {
    let mut m = Menu::new();
    assert!(!m.is_checked("nope".to_string()));
    assert!(!m.toggle_check("nope".to_string()));
    m.append_check_menu_item(check("a", true), "a".to_string());
    assert!(!m.toggle_check("nope".to_string()));
    assert!(m.is_checked("a".to_string()));
}

#[test]
fn non_check_items_report_false() {
    let mut m = Menu::new();
    m.append_menu_item(plain("p"), Some("p".to_string()));
    assert!(!m.toggle_check("p".to_string()));
    assert!(!m.is_checked("p".to_string()));
    assert_eq!(texts(&m), vec![Some("p".to_string())]);
}

#[test]
fn set_text_changes_only_the_named_item() {
    let mut m = Menu::new();
    m.append_menu_item(plain("one"), Some("one".to_string()));
    m.append_predefined_menu_item(PredefinedMenuItem::separator());
    m.append_check_menu_item(check("two", false), "two".to_string());
    m.append_menu_item(plain("three"), None);
    m.set_text("two".to_string(), "X".to_string());
    assert_eq!(
        texts(&m),
        vec![
            Some("one".to_string()),
            None,
            Some("X".to_string()),
            Some("three".to_string())
        ]
    );
    m.set_text("missing".to_string(), "Y".to_string());
    assert_eq!(texts(&m)[2], Some("X".to_string()));
    assert_eq!(texts(&m)[0], Some("one".to_string()));
}

#[test]
fn items_keep_append_order() {
    let mut m = Menu::new();
    let mut sb = SubmenuBuilder::new();
    sb.with_text("More".to_string());
    let mut sub = sb.build().ok().unwrap();
    sub.append_menu_item(plain("inner"));
    sub.append_predefined_menu_item(PredefinedMenuItem::separator());
    m.append_submenu(sub, Some("more".to_string()));
    m.append_menu_item(plain("last"), None);
    assert_eq!(m.items().len(), 2);
    match &m.items()[0] {
        AnyMenuItem::Submenu(s) => {
            assert_eq!(s.text, "More");
            assert_eq!(s.items().len(), 2);
            assert!(matches!(
                &s.items()[1],
                AnyMenuItem::Predefined(p) if p.kind == PredefinedKind::Separator
            ));
        }
        _ => panic!("expected a submenu"),
    }
    m.set_text("more".to_string(), "Less".to_string());
    assert_eq!(m.items()[0].text().cloned(), Some("Less".to_string()));
}

#[test]
fn builders_branch_from_shared_state() {
    let mut b = CheckMenuItemBuilder::new();
    let snapshot = b.with_text("base".to_string());
    b.with_text("changed".to_string());
    b.with_id("id1".to_string());
    assert_eq!(snapshot.text, "base");
    assert_eq!(snapshot.id, None);
    let built = b.build().ok().unwrap();
    assert_eq!(built.text, "changed");
    assert_eq!(built.id, Some("id1".to_string()));
    assert!(built.enabled);
    assert!(!built.checked);
    let again = b.build().ok().unwrap();
    assert_eq!(again.text, built.text);
}

#[test]
fn position_of_follows_the_registry() {
    let mut m = Menu::default();
    assert_eq!(m.position_of("a".to_string()), None);
    m.append_predefined_menu_item(PredefinedMenuItem::separator());
    m.append_menu_item(plain("a"), Some("a".to_string()));
    assert_eq!(m.position_of("a".to_string()), Some(1));
    m.append_check_menu_item(check("b", false), "a".to_string());
    assert_eq!(m.position_of("a".to_string()), Some(2));
    assert_eq!(m.position_of("b".to_string()), None);
}

#[test]
fn builder_defaults() {
    let b = MenuItemBuilder::default();
    assert_eq!(b.text, "");
    assert!(b.enabled);
    assert!(b.id.is_none());
    let c = CheckMenuItemBuilder::default();
    assert!(c.enabled && !c.checked && c.id.is_none());
    let s = SubmenuBuilder::default().build().ok().unwrap();
    assert!(s.enabled);
    assert!(s.items().is_empty());
}
