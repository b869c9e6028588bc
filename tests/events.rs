use tray_bridge::{
    poll_menu_events, poll_tray_events, MouseButton, MouseButtonState, NativeTrayEvent, Rect,
    TrayEventKind, TrayIconEvent,
};

fn rect() -> Rect {
    Rect { x: 1, y: 2, width: 16, height: 16 }
}

#[test]
fn double_click_forces_button_down() {
    let raw = NativeTrayEvent::DoubleClick {
        id: "tray1".to_string(),
        x: 10,
        y: 20,
        rect: rect(),
        button: MouseButton::Right,
    };
    let e = TrayIconEvent::from_native(raw);
    assert_eq!(e.event_type, TrayEventKind::DoubleClick);
    assert_eq!(e.event_type.name(), "double-click");
    assert_eq!(e.id, "tray1");
    assert_eq!((e.x, e.y), (10, 20));
    assert_eq!(e.button, MouseButton::Right);
    assert_eq!(e.button_state, MouseButtonState::Down);
    assert_eq!(e.icon_rect, rect());
}

#[test]
fn click_keeps_button_and_state() {
    let raw = NativeTrayEvent::Click {
        id: "t".to_string(),
        x: -3,
        y: 4,
        rect: rect(),
        button: MouseButton::Middle,
        button_state: MouseButtonState::Up,
    };
    let e = TrayIconEvent::from_native(raw);
    assert_eq!(e.event_type.name(), "click");
    assert_eq!(e.button, MouseButton::Middle);
    assert_eq!(e.button_state, MouseButtonState::Up);
    assert_eq!((e.x, e.y), (-3, 4));
}

#[test]
fn hover_events_report_left_up() {
    let make = [
        (NativeTrayEvent::Enter { id: "a".to_string(), x: 1, y: 1, rect: rect() }, "enter"),
        (NativeTrayEvent::Move { id: "a".to_string(), x: 2, y: 2, rect: rect() }, "move"),
        (NativeTrayEvent::Leave { id: "a".to_string(), x: 3, y: 3, rect: rect() }, "leave"),
    ];
    for (raw, name) in make {
        let e = TrayIconEvent::from_native(raw);
        assert_eq!(e.event_type.name(), name);
        assert_eq!(e.id, "a");
        assert_eq!(e.button, MouseButton::Left);
        assert_eq!(e.button_state, MouseButtonState::Up);
        assert_eq!(e.icon_rect, rect());
    }
}

#[test]
fn unknown_event_is_zero_filled() {
    let e = TrayIconEvent::from_native(NativeTrayEvent::Other);
    assert_eq!(e.event_type, TrayEventKind::Unknown);
    assert_eq!(e.event_type.name(), "unknown");
    assert_eq!(e.id, "");
    assert_eq!((e.x, e.y), (0, 0));
    assert_eq!(e.icon_rect, Rect::zero());
    assert_eq!(e.button, MouseButton::Left);
    assert_eq!(e.button_state, MouseButtonState::Up);
}

#[test]
fn polling_hands_on_one_event_then_none() {
    let mut channel = vec![NativeTrayEvent::Enter { id: "i".to_string(), x: 5, y: 6, rect: rect() }];
    let first = poll_tray_events(channel.pop()).unwrap();
    assert_eq!(first.event_type, TrayEventKind::Enter);
    assert_eq!((first.x, first.y), (5, 6));
    assert!(poll_tray_events(channel.pop()).is_none());
    assert!(poll_tray_events(None).is_none());
}

#[test]
fn menu_polling_reports_the_id() {
    let mut channel = vec!["quit".to_string()];
    let ev = poll_menu_events(channel.pop()).unwrap();
    assert_eq!(ev.id, "quit");
    assert!(poll_menu_events(channel.pop()).is_none());
}
