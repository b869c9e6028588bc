//! A system-tray icon and context-menu model with a normalising event bridge.
//!
//! The library holds, as plain values, everything the tray logic decides on:
//! validated RGBA icons, menu items and their builders, the menu tree with its
//! identifier registry, and the mapping of native pointer and menu events to
//! one record shape. The native handles themselves live with the host.
pub mod about;
pub mod builders;
pub mod common;
pub mod error;
pub mod events;
pub mod icon;
pub mod menu;
pub mod message;
pub mod registry;
pub mod tray;

pub use about::{AboutMetadata, AboutMetadataBuilder};
pub use builders::{CheckMenuItemBuilder, IconMenuItemBuilder, MenuItemBuilder, SubmenuBuilder};
pub use common::{MouseButton, MouseButtonState, Rect};
pub use error::TrayError;
pub use icon::{Icon, IconView};
pub use events::{
    poll_menu_events, poll_tray_events, MenuEvent, NativeTrayEvent, TrayEventKind, TrayIconEvent,
};
pub use menu::{
    AnyMenuItem, CheckMenuItem, IconMenuItem, MenuItem, PredefinedKind, PredefinedMenuItem, Submenu,
};
pub use registry::Menu;
pub use message::{add, create_greeting, sequence_from, Message, MessageType};
pub use tray::{TrayIcon, TrayIconBuilder, TrayState};
