use vstd::prelude::*;

use crate::common::{MouseButton, MouseButtonState, Rect};

verus! {

/// A pointer event on the tray icon as the platform reports it, with its
/// coordinates in device pixels. `Other` stands for any kind of event that
/// this library does not know.
pub enum NativeTrayEvent {
    Click {
        id: String,
        x: i32,
        y: i32,
        rect: Rect,
        button: MouseButton,
        button_state: MouseButtonState,
    },
    DoubleClick { id: String, x: i32, y: i32, rect: Rect, button: MouseButton },
    Enter { id: String, x: i32, y: i32, rect: Rect },
    Move { id: String, x: i32, y: i32, rect: Rect },
    Leave { id: String, x: i32, y: i32, rect: Rect },
    Other,
}

/// The kind of a normalised tray event.
#[derive(Clone, Copy, Debug, PartialEq, Eq, Structural)]
pub enum TrayEventKind {
    Click,
    DoubleClick,
    Enter,
    Move,
    Leave,
    Unknown,
}

/// The name under which each kind of event is reported to the host.
pub open spec fn kind_name(k: TrayEventKind) -> Seq<char> {
    match k {
        TrayEventKind::Click => "click"@,
        TrayEventKind::DoubleClick => "double-click"@,
        TrayEventKind::Enter => "enter"@,
        TrayEventKind::Move => "move"@,
        TrayEventKind::Leave => "leave"@,
        TrayEventKind::Unknown => "unknown"@,
    }
}

impl TrayEventKind {
    /// The event kind's name: "click", "double-click", "enter", "move",
    /// "leave" or "unknown".
    pub fn name(&self) -> (r: &'static str)
        ensures
            r@ == kind_name(*self),
    {
        match self {
            TrayEventKind::Click => "click",
            TrayEventKind::DoubleClick => "double-click",
            TrayEventKind::Enter => "enter",
            TrayEventKind::Move => "move",
            TrayEventKind::Leave => "leave",
            TrayEventKind::Unknown => "unknown",
        }
    }
}

/// A tray pointer event in the one shape handed to the host: every field is
/// filled, whatever the kind of the native event.
pub struct TrayIconEvent {
    pub event_type: TrayEventKind,
    pub id: String,
    pub x: i32,
    pub y: i32,
    pub icon_rect: Rect,
    pub button: MouseButton,
    pub button_state: MouseButtonState,
}

/// Whether `r` is the normalised form of the native event `e`. A double click
/// is always reported with the button down; entering, moving and leaving carry
/// no button, and are reported as the left button, up. An event of unknown
/// kind is reported with an empty id and zero geometry.
pub open spec fn is_normalized(e: NativeTrayEvent, r: TrayIconEvent) -> bool {
    match e {
        NativeTrayEvent::Click { id, x, y, rect, button, button_state } => r == TrayIconEvent {
            event_type: TrayEventKind::Click,
            id,
            x,
            y,
            icon_rect: rect,
            button,
            button_state,
        },
        NativeTrayEvent::DoubleClick { id, x, y, rect, button } => r == TrayIconEvent {
            event_type: TrayEventKind::DoubleClick,
            id,
            x,
            y,
            icon_rect: rect,
            button,
            button_state: MouseButtonState::Down,
        },
        NativeTrayEvent::Enter { id, x, y, rect } => r == TrayIconEvent {
            event_type: TrayEventKind::Enter,
            id,
            x,
            y,
            icon_rect: rect,
            button: MouseButton::Left,
            button_state: MouseButtonState::Up,
        },
        NativeTrayEvent::Move { id, x, y, rect } => r == TrayIconEvent {
            event_type: TrayEventKind::Move,
            id,
            x,
            y,
            icon_rect: rect,
            button: MouseButton::Left,
            button_state: MouseButtonState::Up,
        },
        NativeTrayEvent::Leave { id, x, y, rect } => r == TrayIconEvent {
            event_type: TrayEventKind::Leave,
            id,
            x,
            y,
            icon_rect: rect,
            button: MouseButton::Left,
            button_state: MouseButtonState::Up,
        },
        NativeTrayEvent::Other => {
            &&& r.event_type == TrayEventKind::Unknown
            &&& r.id@ == Seq::<char>::empty()
            &&& r.x == 0
            &&& r.y == 0
            &&& r.icon_rect == Rect::zero_spec()
            &&& r.button == MouseButton::Left
            &&& r.button_state == MouseButtonState::Up
        },
    }
}

impl TrayIconEvent {
    /// Maps a native event to its normalised record. The mapping is total:
    /// an event of unknown kind becomes an `Unknown` record, never a failure.
    pub fn from_native(e: NativeTrayEvent) -> (r: TrayIconEvent)
        ensures
            is_normalized(e, r),
    {
        match e {
            NativeTrayEvent::Click { id, x, y, rect, button, button_state } => TrayIconEvent {
                event_type: TrayEventKind::Click,
                id,
                x,
                y,
                icon_rect: rect,
                button,
                button_state,
            },
            NativeTrayEvent::DoubleClick { id, x, y, rect, button } => TrayIconEvent {
                event_type: TrayEventKind::DoubleClick,
                id,
                x,
                y,
                icon_rect: rect,
                button,
                button_state: MouseButtonState::Down,
            },
            NativeTrayEvent::Enter { id, x, y, rect } => TrayIconEvent {
                event_type: TrayEventKind::Enter,
                id,
                x,
                y,
                icon_rect: rect,
                button: MouseButton::Left,
                button_state: MouseButtonState::Up,
            },
            NativeTrayEvent::Move { id, x, y, rect } => TrayIconEvent {
                event_type: TrayEventKind::Move,
                id,
                x,
                y,
                icon_rect: rect,
                button: MouseButton::Left,
                button_state: MouseButtonState::Up,
            },
            NativeTrayEvent::Leave { id, x, y, rect } => TrayIconEvent {
                event_type: TrayEventKind::Leave,
                id,
                x,
                y,
                icon_rect: rect,
                button: MouseButton::Left,
                button_state: MouseButtonState::Up,
            },
            NativeTrayEvent::Other => TrayIconEvent {
                event_type: TrayEventKind::Unknown,
                id: String::new(),
                x: 0,
                y: 0,
                icon_rect: Rect::zero(),
                button: MouseButton::Left,
                button_state: MouseButtonState::Up,
            },
        }
    }
}

/// Hands on the next pending tray event, normalised, or `None` where the
/// channel had none. `next` is what one non-blocking receive returned.
pub fn poll_tray_events(next: Option<NativeTrayEvent>) -> (r: Option<TrayIconEvent>)
    ensures
        match next {
            Some(e) => r matches Some(ev) && is_normalized(e, ev),
            None => r is None,
        },
{
    match next {
        Some(e) => Some(TrayIconEvent::from_native(e)),
        None => None,
    }
}

/// A selection in a menu: the identifier of the chosen item.
pub struct MenuEvent {
    pub id: String,
}

/// Hands on the next pending menu selection, or `None` where the channel had
/// none. `next` is the identifier that one non-blocking receive returned.
pub fn poll_menu_events(next: Option<String>) -> (r: Option<MenuEvent>)
    ensures
        match next {
            Some(id) => r matches Some(ev) && ev.id == id,
            None => r is None,
        },
{
    match next {
        Some(id) => Some(MenuEvent { id }),
        None => None,
    }
}

} // verus!
