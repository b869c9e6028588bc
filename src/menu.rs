use vstd::prelude::*;

use crate::icon::Icon;

verus! {

/// A plain menu item: text and an enabled flag, with an optional identifier
/// that selection events report back.
pub struct MenuItem {
    pub id: Option<String>,
    pub text: String,
    pub enabled: bool,
}

/// A menu item with a check mark that can be set and cleared.
pub struct CheckMenuItem {
    pub id: Option<String>,
    pub text: String,
    pub enabled: bool,
    pub checked: bool,
}

/// A menu item that shows an icon beside its text.
pub struct IconMenuItem {
    pub id: Option<String>,
    pub text: String,
    pub enabled: bool,
    pub icon: Icon,
}

/// The items that the platform provides ready-made.
#[derive(Clone, Copy, Debug, PartialEq, Eq, Structural)]
pub enum PredefinedKind {
    Separator,
}

/// A ready-made menu item, such as a separator.
pub struct PredefinedMenuItem {
    pub kind: PredefinedKind,
}

/// A menu item that opens a nested list of items.
pub struct Submenu {
    pub text: String,
    pub enabled: bool,
    pub items: Vec<AnyMenuItem>,
}

/// One node of a menu tree. The variant of a node never changes once it is
/// built; only its text, and the mark of a check item, do.
pub enum AnyMenuItem {
    Standard(MenuItem),
    Check(CheckMenuItem),
    Icon(IconMenuItem),
    Submenu(Submenu),
    Predefined(PredefinedMenuItem),
}

/// The text of an item; ready-made items have none.
pub open spec fn text_of(e: AnyMenuItem) -> Option<Seq<char>> {
    match e {
        AnyMenuItem::Standard(i) => Some(i.text@),
        AnyMenuItem::Check(i) => Some(i.text@),
        AnyMenuItem::Icon(i) => Some(i.text@),
        AnyMenuItem::Submenu(i) => Some(i.text@),
        AnyMenuItem::Predefined(_) => None,
    }
}

/// The check mark of a check item; other items have none.
pub open spec fn checked_of(e: AnyMenuItem) -> Option<bool> {
    match e {
        AnyMenuItem::Check(i) => Some(i.checked),
        _ => None,
    }
}

/// The item `e` with its text replaced by `text`, all else kept.
pub open spec fn with_text(e: AnyMenuItem, text: String) -> AnyMenuItem {
    match e {
        AnyMenuItem::Standard(i) => AnyMenuItem::Standard(MenuItem { text, ..i }),
        AnyMenuItem::Check(i) => AnyMenuItem::Check(CheckMenuItem { text, ..i }),
        AnyMenuItem::Icon(i) => AnyMenuItem::Icon(IconMenuItem { text, ..i }),
        AnyMenuItem::Submenu(i) => AnyMenuItem::Submenu(Submenu { text, ..i }),
        AnyMenuItem::Predefined(p) => AnyMenuItem::Predefined(p),
    }
}

/// The item `e` with its check mark reversed, all else kept.
pub open spec fn flipped(e: AnyMenuItem) -> AnyMenuItem {
    match e {
        AnyMenuItem::Check(i) => AnyMenuItem::Check(CheckMenuItem { checked: !i.checked, ..i }),
        _ => e,
    }
}

/// The identifier of an optional string, as a sequence of characters.
pub open spec fn id_view(id: Option<String>) -> Option<Seq<char>> {
    match id {
        Some(s) => Some(s@),
        None => None,
    }
}

impl MenuItem {
    pub fn set_text(&mut self, text: String)
        ensures
            *final(self) == (MenuItem { text, ..*old(self) }),
    {
        self.text = text;
    }

    pub fn set_enabled(&mut self, enabled: bool)
        ensures
            *final(self) == (MenuItem { enabled, ..*old(self) }),
    {
        self.enabled = enabled;
    }
}

impl CheckMenuItem {
    pub fn is_checked(&self) -> (r: bool)
        ensures
            r == self.checked,
    {
        self.checked
    }

    pub fn set_checked(&mut self, checked: bool)
        ensures
            *final(self) == (CheckMenuItem { checked, ..*old(self) }),
    {
        self.checked = checked;
    }
}

impl IconMenuItem {
    pub fn set_text(&mut self, text: String)
        ensures
            *final(self) == (IconMenuItem { text, ..*old(self) }),
    {
        self.text = text;
    }

    pub fn set_enabled(&mut self, enabled: bool)
        ensures
            *final(self) == (IconMenuItem { enabled, ..*old(self) }),
    {
        self.enabled = enabled;
    }
}

impl PredefinedMenuItem {
    pub fn separator() -> (r: PredefinedMenuItem)
        ensures
            r.kind == PredefinedKind::Separator,
    {
        PredefinedMenuItem { kind: PredefinedKind::Separator }
    }
}

impl Submenu {
    pub fn append_menu_item(&mut self, item: MenuItem)
        ensures
            final(self).items@ == old(self).items@.push(AnyMenuItem::Standard(item)),
            final(self).text == old(self).text,
            final(self).enabled == old(self).enabled,
    {
        self.items.push(AnyMenuItem::Standard(item));
    }

    pub fn append_submenu(&mut self, item: Submenu)
        ensures
            final(self).items@ == old(self).items@.push(AnyMenuItem::Submenu(item)),
            final(self).text == old(self).text,
            final(self).enabled == old(self).enabled,
    {
        self.items.push(AnyMenuItem::Submenu(item));
    }

    pub fn append_check_menu_item(&mut self, item: CheckMenuItem)
        ensures
            final(self).items@ == old(self).items@.push(AnyMenuItem::Check(item)),
            final(self).text == old(self).text,
            final(self).enabled == old(self).enabled,
    {
        self.items.push(AnyMenuItem::Check(item));
    }

    pub fn append_icon_menu_item(&mut self, item: IconMenuItem)
        ensures
            final(self).items@ == old(self).items@.push(AnyMenuItem::Icon(item)),
            final(self).text == old(self).text,
            final(self).enabled == old(self).enabled,
    {
        self.items.push(AnyMenuItem::Icon(item));
    }

    pub fn append_predefined_menu_item(&mut self, item: PredefinedMenuItem)
        ensures
            final(self).items@ == old(self).items@.push(AnyMenuItem::Predefined(item)),
            final(self).text == old(self).text,
            final(self).enabled == old(self).enabled,
    {
        self.items.push(AnyMenuItem::Predefined(item));
    }

    /// The items of the submenu, in the order they were appended.
    pub fn items(&self) -> (r: &Vec<AnyMenuItem>)
        ensures
            r@ == self.items@,
    {
        &self.items
    }
}

impl AnyMenuItem {
    /// The item's text; `None` for a ready-made item.
    pub fn text(&self) -> (r: Option<&String>)
        ensures
            match r {
                Some(t) => text_of(*self) == Some(t@),
                None => text_of(*self) is None,
            },
    {
        match self {
            AnyMenuItem::Standard(i) => Some(&i.text),
            AnyMenuItem::Check(i) => Some(&i.text),
            AnyMenuItem::Icon(i) => Some(&i.text),
            AnyMenuItem::Submenu(i) => Some(&i.text),
            AnyMenuItem::Predefined(_) => None,
        }
    }

    /// Replaces the item's text; a ready-made item is left as it is.
    pub fn set_text(&mut self, text: String)
        ensures
            *final(self) == with_text(*old(self), text),
    {
        match self {
            AnyMenuItem::Standard(i) => i.text = text,
            AnyMenuItem::Check(i) => i.text = text,
            AnyMenuItem::Icon(i) => i.text = text,
            AnyMenuItem::Submenu(i) => i.text = text,
            AnyMenuItem::Predefined(_) => {},
        }
    }

    /// Reverses the mark of a check item and returns the new mark; any other
    /// item is left as it is, and `None` returned.
    pub fn toggle(&mut self) -> (r: Option<bool>)
        ensures
            *final(self) == flipped(*old(self)),
            r == checked_of(*final(self)),
    {
        match self {
            AnyMenuItem::Check(i) => {
                i.checked = !i.checked;
                Some(i.checked)
            },
            _ => None,
        }
    }

    /// The item's check mark; `None` for an item that is not a check item.
    pub fn checked(&self) -> (r: Option<bool>)
        ensures
            r == checked_of(*self),
    {
        match self {
            AnyMenuItem::Check(i) => Some(i.checked),
            _ => None,
        }
    }
}

} // verus!
