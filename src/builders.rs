use vstd::prelude::*;

use crate::error::TrayError;
use crate::icon::{Icon, IconView};
use crate::menu::{CheckMenuItem, IconMenuItem, MenuItem, Submenu};

verus! {

/// A copy of an optional string.
pub(crate) fn copy_text(o: &Option<String>) -> (r: Option<String>)
    ensures
        r == *o,
{
    match o {
        Some(s) => Some(s.clone()),
        None => None,
    }
}

/// What an optional icon holds.
pub open spec fn icon_view(o: Option<Icon>) -> Option<IconView> {
    match o {
        Some(i) => Some(i@),
        None => None,
    }
}

/// A copy of an optional icon.
pub(crate) fn copy_icon(o: &Option<Icon>) -> (r: Option<Icon>)
    ensures
        icon_view(r) == icon_view(*o),
{
    match o {
        Some(i) => Some(i.clone()),
        None => None,
    }
}

/// Accumulates the settings of a plain menu item.
pub struct MenuItemBuilder {
    pub text: String,
    pub enabled: bool,
    pub id: Option<String>,
}

impl Clone for MenuItemBuilder {
    fn clone(&self) -> (r: Self)
        ensures
            r == *self,
    {
        MenuItemBuilder { text: self.text.clone(), enabled: self.enabled, id: copy_text(&self.id) }
    }
}

impl MenuItemBuilder {
    /// An empty, enabled item without an identifier.
    pub fn new() -> (r: MenuItemBuilder)
        ensures
            r.text@ == Seq::<char>::empty(),
            r.enabled,
            r.id is None,
    {
        MenuItemBuilder { text: String::new(), enabled: true, id: None }
    }

    pub fn with_text(&mut self, text: String) -> (r: MenuItemBuilder)
        ensures
            *final(self) == (MenuItemBuilder { text, ..*old(self) }),
            r == *final(self),
    {
        self.text = text;
        self.clone()
    }

    pub fn with_enabled(&mut self, enabled: bool) -> (r: MenuItemBuilder)
        ensures
            *final(self) == (MenuItemBuilder { enabled, ..*old(self) }),
            r == *final(self),
    {
        self.enabled = enabled;
        self.clone()
    }

    pub fn with_id(&mut self, id: String) -> (r: MenuItemBuilder)
        ensures
            *final(self) == (MenuItemBuilder { id: Some(id), ..*old(self) }),
            r == *final(self),
    {
        self.id = Some(id);
        self.clone()
    }

    /// A new item with the builder's settings; the builder is left as it is.
    pub fn build(&self) -> (r: Result<MenuItem, TrayError>)
        ensures
            r == Ok::<MenuItem, TrayError>(
                MenuItem { id: self.id, text: self.text, enabled: self.enabled },
            ),
    {
        Ok(MenuItem { id: copy_text(&self.id), text: self.text.clone(), enabled: self.enabled })
    }
}

/// Accumulates the settings of a check item.
pub struct CheckMenuItemBuilder {
    pub text: String,
    pub enabled: bool,
    pub checked: bool,
    pub id: Option<String>,
}

impl Clone for CheckMenuItemBuilder {
    fn clone(&self) -> (r: Self)
        ensures
            r == *self,
    {
        CheckMenuItemBuilder {
            text: self.text.clone(),
            enabled: self.enabled,
            checked: self.checked,
            id: copy_text(&self.id),
        }
    }
}

impl CheckMenuItemBuilder {
    /// An empty, enabled, unchecked item without an identifier.
    pub fn new() -> (r: CheckMenuItemBuilder)
        ensures
            r.text@ == Seq::<char>::empty(),
            r.enabled,
            !r.checked,
            r.id is None,
    {
        CheckMenuItemBuilder { text: String::new(), enabled: true, checked: false, id: None }
    }

    pub fn with_text(&mut self, text: String) -> (r: CheckMenuItemBuilder)
        ensures
            *final(self) == (CheckMenuItemBuilder { text, ..*old(self) }),
            r == *final(self),
    {
        self.text = text;
        self.clone()
    }

    pub fn with_enabled(&mut self, enabled: bool) -> (r: CheckMenuItemBuilder)
        ensures
            *final(self) == (CheckMenuItemBuilder { enabled, ..*old(self) }),
            r == *final(self),
    {
        self.enabled = enabled;
        self.clone()
    }

    pub fn with_checked(&mut self, checked: bool) -> (r: CheckMenuItemBuilder)
        ensures
            *final(self) == (CheckMenuItemBuilder { checked, ..*old(self) }),
            r == *final(self),
    {
        self.checked = checked;
        self.clone()
    }

    pub fn with_id(&mut self, id: String) -> (r: CheckMenuItemBuilder)
        ensures
            *final(self) == (CheckMenuItemBuilder { id: Some(id), ..*old(self) }),
            r == *final(self),
    {
        self.id = Some(id);
        self.clone()
    }

    /// A new item with the builder's settings; the builder is left as it is.
    pub fn build(&self) -> (r: Result<CheckMenuItem, TrayError>)
        ensures
            r == Ok::<CheckMenuItem, TrayError>(
                CheckMenuItem {
                    id: self.id,
                    text: self.text,
                    enabled: self.enabled,
                    checked: self.checked,
                },
            ),
    {
        Ok(
            CheckMenuItem {
                id: copy_text(&self.id),
                text: self.text.clone(),
                enabled: self.enabled,
                checked: self.checked,
            },
        )
    }
}

/// Accumulates the settings of a submenu.
pub struct SubmenuBuilder {
    pub text: String,
    pub enabled: bool,
}

impl Clone for SubmenuBuilder {
    fn clone(&self) -> (r: Self)
        ensures
            r == *self,
    {
        SubmenuBuilder { text: self.text.clone(), enabled: self.enabled }
    }
}

impl SubmenuBuilder {
    /// An empty, enabled submenu.
    pub fn new() -> (r: SubmenuBuilder)
        ensures
            r.text@ == Seq::<char>::empty(),
            r.enabled,
    {
        SubmenuBuilder { text: String::new(), enabled: true }
    }

    pub fn with_text(&mut self, text: String) -> (r: SubmenuBuilder)
        ensures
            *final(self) == (SubmenuBuilder { text, ..*old(self) }),
            r == *final(self),
    {
        self.text = text;
        self.clone()
    }

    pub fn with_enabled(&mut self, enabled: bool) -> (r: SubmenuBuilder)
        ensures
            *final(self) == (SubmenuBuilder { enabled, ..*old(self) }),
            r == *final(self),
    {
        self.enabled = enabled;
        self.clone()
    }

    /// A new submenu, with no items yet, with the builder's settings.
    pub fn build(&self) -> (r: Result<Submenu, TrayError>)
        ensures
            r matches Ok(s) && s.text == self.text && s.enabled == self.enabled && s.items@.len()
                == 0,
    {
        Ok(Submenu { text: self.text.clone(), enabled: self.enabled, items: Vec::new() })
    }
}

/// Accumulates the settings of an icon item; its icon is mandatory.
pub struct IconMenuItemBuilder {
    pub text: String,
    pub enabled: bool,
    pub icon: Option<Icon>,
    pub id: Option<String>,
}

impl IconMenuItemBuilder {
    /// Whether `self` holds the same settings as `o`.
    pub open spec fn same_as(&self, o: IconMenuItemBuilder) -> bool {
        &&& self.text == o.text
        &&& self.enabled == o.enabled
        &&& icon_view(self.icon) == icon_view(o.icon)
        &&& self.id == o.id
    }

    /// Whether `r` is what building from `self` gives: the item with the
    /// builder's settings, or `MissingIcon` where no icon was given.
    pub open spec fn builds(&self, r: Result<IconMenuItem, TrayError>) -> bool {
        match self.icon {
            Some(icon) => r matches Ok(item) && item.text == self.text && item.enabled
                == self.enabled && item.id == self.id && item.icon@ == icon@,
            None => r == Err::<IconMenuItem, TrayError>(TrayError::MissingIcon),
        }
    }
}

impl Clone for IconMenuItemBuilder {
    fn clone(&self) -> (r: Self)
        ensures
            r.same_as(*self),
    {
        IconMenuItemBuilder {
            text: self.text.clone(),
            enabled: self.enabled,
            icon: copy_icon(&self.icon),
            id: copy_text(&self.id),
        }
    }
}

impl IconMenuItemBuilder {
    /// An empty, enabled item without an icon or an identifier.
    pub fn new() -> (r: IconMenuItemBuilder)
        ensures
            r.text@ == Seq::<char>::empty(),
            r.enabled,
            r.icon is None,
            r.id is None,
    {
        IconMenuItemBuilder { text: String::new(), enabled: true, icon: None, id: None }
    }

    pub fn with_text(&mut self, text: String) -> (r: IconMenuItemBuilder)
        ensures
            *final(self) == (IconMenuItemBuilder { text, ..*old(self) }),
            r.same_as(*final(self)),
    {
        self.text = text;
        self.clone()
    }

    pub fn with_enabled(&mut self, enabled: bool) -> (r: IconMenuItemBuilder)
        ensures
            *final(self) == (IconMenuItemBuilder { enabled, ..*old(self) }),
            r.same_as(*final(self)),
    {
        self.enabled = enabled;
        self.clone()
    }

    /// Sets the item's icon to a copy of `icon`.
    pub fn with_icon(&mut self, icon: &Icon) -> (r: Result<IconMenuItemBuilder, TrayError>)
        ensures
            final(self).text == old(self).text,
            final(self).enabled == old(self).enabled,
            final(self).id == old(self).id,
            icon_view(final(self).icon) == Some(icon@),
            r matches Ok(b) && b.same_as(*final(self)),
    {
        self.icon = Some(icon.clone());
        Ok(self.clone())
    }

    pub fn with_id(&mut self, id: String) -> (r: IconMenuItemBuilder)
        ensures
            *final(self) == (IconMenuItemBuilder { id: Some(id), ..*old(self) }),
            r.same_as(*final(self)),
    {
        self.id = Some(id);
        self.clone()
    }

    /// A new item with the builder's settings, or `MissingIcon` where no icon
    /// was given; the builder is left as it is.
    pub fn build(&self) -> (r: Result<IconMenuItem, TrayError>)
        ensures
            self.builds(r),
    {
        match &self.icon {
            Some(icon) => Ok(
                IconMenuItem {
                    id: copy_text(&self.id),
                    text: self.text.clone(),
                    enabled: self.enabled,
                    icon: icon.clone(),
                },
            ),
            None => Err(TrayError::MissingIcon),
        }
    }
}

/// An icon item cannot be built without an icon, and can once one is given:
/// a builder with no icon builds only `MissingIcon`, and after `with_icon` it
/// builds an item.
pub proof fn lemma_icon_required(b0: IconMenuItemBuilder, b1: IconMenuItemBuilder, icon: Icon)
    requires
        b0.icon is None,
        icon_view(b1.icon) == Some(icon@),
    ensures
        forall|r: Result<IconMenuItem, TrayError>|
            b0.builds(r) ==> r == Err::<IconMenuItem, TrayError>(TrayError::MissingIcon),
        forall|r: Result<IconMenuItem, TrayError>| b1.builds(r) ==> r is Ok,
{
}

impl Default for MenuItemBuilder {
    fn default() -> (r: MenuItemBuilder)
        ensures
            r.text@ == Seq::<char>::empty(),
            r.enabled,
            r.id is None,
    {
        MenuItemBuilder::new()
    }
}

impl Default for CheckMenuItemBuilder {
    fn default() -> (r: CheckMenuItemBuilder)
        ensures
            r.text@ == Seq::<char>::empty(),
            r.enabled,
            !r.checked,
            r.id is None,
    {
        CheckMenuItemBuilder::new()
    }
}

impl Default for SubmenuBuilder {
    fn default() -> (r: SubmenuBuilder)
        ensures
            r.text@ == Seq::<char>::empty(),
            r.enabled,
    {
        SubmenuBuilder::new()
    }
}

impl Default for IconMenuItemBuilder {
    fn default() -> (r: IconMenuItemBuilder)
        ensures
            r.text@ == Seq::<char>::empty(),
            r.enabled,
            r.icon is None,
            r.id is None,
    {
        IconMenuItemBuilder::new()
    }
}

} // verus!
