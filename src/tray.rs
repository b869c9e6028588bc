use vstd::prelude::*;

use crate::builders::{copy_icon, copy_text, icon_view};
use crate::error::TrayError;
use crate::icon::Icon;
use crate::registry::Menu;

verus! {

/// What a live tray icon shows: its icon, tooltip and title, whether a menu
/// is attached, and whether it is visible.
pub struct TrayState {
    pub icon: Option<Icon>,
    pub tooltip: Option<String>,
    pub title: Option<String>,
    pub has_menu: bool,
    pub visible: bool,
}

/// A tray icon. `state` is `None` where the platform object never came to be;
/// every change is then a no-op rather than an error.
pub struct TrayIcon {
    pub state: Option<TrayState>,
}

impl TrayIcon {
    /// Shows `icon`, or no icon; nothing changes on a tray that never came to be.
    pub fn set_icon(&mut self, icon: Option<&Icon>)
        ensures
            match old(self).state {
                Some(s) => final(self).state matches Some(t) && icon_view(t.icon) == match icon {
                    Some(i) => Some(i@),
                    None => None,
                } && t.tooltip == s.tooltip && t.title == s.title && t.has_menu == s.has_menu
                    && t.visible == s.visible,
                None => final(self).state is None,
            },
    {
        if let Some(state) = &mut self.state {
            state.icon = match icon {
                Some(i) => Some(i.clone()),
                None => None,
            };
        }
    }

    /// Sets the tooltip; nothing changes on a tray that never came to be.
    pub fn set_tooltip(&mut self, tooltip: Option<String>)
        ensures
            match old(self).state {
                Some(s) => final(self).state == Some(TrayState { tooltip, ..s }),
                None => final(self).state is None,
            },
    {
        if let Some(state) = &mut self.state {
            state.tooltip = tooltip;
        }
    }

    /// Sets the title; nothing changes on a tray that never came to be.
    pub fn set_title(&mut self, title: Option<String>)
        ensures
            match old(self).state {
                Some(s) => final(self).state == Some(TrayState { title, ..s }),
                None => final(self).state is None,
            },
    {
        if let Some(state) = &mut self.state {
            state.title = title;
        }
    }

    /// Shows or hides the icon; nothing changes on a tray that never came to be.
    pub fn set_visible(&mut self, visible: bool)
        ensures
            match old(self).state {
                Some(s) => final(self).state == Some(TrayState { visible, ..s }),
                None => final(self).state is None,
            },
    {
        if let Some(state) = &mut self.state {
            state.visible = visible;
        }
    }
}

/// Accumulates the settings of a tray icon; each is optional.
pub struct TrayIconBuilder {
    pub icon: Option<Icon>,
    pub tooltip: Option<String>,
    pub title: Option<String>,
    pub has_menu: bool,
}

impl TrayIconBuilder {
    /// Whether `self` holds the same settings as `o`.
    pub open spec fn same_as(&self, o: TrayIconBuilder) -> bool {
        &&& icon_view(self.icon) == icon_view(o.icon)
        &&& self.tooltip == o.tooltip
        &&& self.title == o.title
        &&& self.has_menu == o.has_menu
    }
}

impl Clone for TrayIconBuilder {
    fn clone(&self) -> (r: Self)
        ensures
            r.same_as(*self),
    {
        TrayIconBuilder {
            icon: copy_icon(&self.icon),
            tooltip: copy_text(&self.tooltip),
            title: copy_text(&self.title),
            has_menu: self.has_menu,
        }
    }
}

impl TrayIconBuilder {
    /// A builder with no icon, tooltip, title or menu.
    pub fn new() -> (r: TrayIconBuilder)
        ensures
            r.icon is None,
            r.tooltip is None,
            r.title is None,
            !r.has_menu,
    {
        TrayIconBuilder { icon: None, tooltip: None, title: None, has_menu: false }
    }

    /// Sets the tray's icon to a copy of `icon`.
    pub fn with_icon(&mut self, icon: &Icon) -> (r: TrayIconBuilder)
        ensures
            icon_view(final(self).icon) == Some(icon@),
            final(self).tooltip == old(self).tooltip,
            final(self).title == old(self).title,
            final(self).has_menu == old(self).has_menu,
            r.same_as(*final(self)),
    {
        self.icon = Some(icon.clone());
        self.clone()
    }

    pub fn with_tooltip(&mut self, tooltip: String) -> (r: TrayIconBuilder)
        ensures
            *final(self) == (TrayIconBuilder { tooltip: Some(tooltip), ..*old(self) }),
            r.same_as(*final(self)),
    {
        self.tooltip = Some(tooltip);
        self.clone()
    }

    pub fn with_title(&mut self, title: String) -> (r: TrayIconBuilder)
        ensures
            *final(self) == (TrayIconBuilder { title: Some(title), ..*old(self) }),
            r.same_as(*final(self)),
    {
        self.title = Some(title);
        self.clone()
    }

    /// Attaches a menu. The menu's items stay with the menu, which its owner
    /// keeps using; the builder records that the tray has one.
    pub fn with_menu(&mut self, _menu: &Menu) -> (r: TrayIconBuilder)
        ensures
            *final(self) == (TrayIconBuilder { has_menu: true, ..*old(self) }),
            r.same_as(*final(self)),
    {
        self.has_menu = true;
        self.clone()
    }

    /// The tray with the builder's settings, shown, where the platform created
    /// it (`created`); `NativeTrayCreationFailure` where it did not.
    pub fn build(&self, created: bool) -> (r: Result<TrayIcon, TrayError>)
        ensures
            match r {
                Ok(tray) => {
                    &&& created
                    &&& tray.state matches Some(s) && icon_view(s.icon) == icon_view(self.icon)
                        && s.tooltip == self.tooltip && s.title == self.title && s.has_menu
                        == self.has_menu && s.visible
                },
                Err(e) => !created && e == TrayError::NativeTrayCreationFailure,
            },
    {
        if created {
            Ok(
                TrayIcon {
                    state: Some(
                        TrayState {
                            icon: copy_icon(&self.icon),
                            tooltip: copy_text(&self.tooltip),
                            title: copy_text(&self.title),
                            has_menu: self.has_menu,
                            visible: true,
                        },
                    ),
                },
            )
        } else {
            Err(TrayError::NativeTrayCreationFailure)
        }
    }
}

} // verus!
