use vstd::prelude::*;

use crate::menu::{
    checked_of, flipped, id_view, text_of, with_text, AnyMenuItem, CheckMenuItem, IconMenuItem, MenuItem,
    PredefinedMenuItem, Submenu,
};

verus! {

/// Whether `after` is `before` with `item` appended at the end and, where an
/// identifier is given, that identifier registered for it.
pub open spec fn appended(before: Menu, after: Menu, item: AnyMenuItem, id: Option<Seq<char>>) -> bool {
    &&& after.entries() == before.entries().push(item)
    &&& after.registry() == match id {
        Some(k) => before.registry().insert(k, before.entries().len() as int),
        None => before.registry(),
    }
}

/// Whether `after` and `r` are what toggling `id` in `before` gives: the mark
/// of the check item under `id` is reversed and `r` is its new value; where
/// `id` names no check item nothing changes and `r` is `false`.
pub open spec fn toggled(before: Menu, after: Menu, id: Seq<char>, r: bool) -> bool {
    &&& after.registry() == before.registry()
    &&& match before.target(id) {
        Some(i) if checked_of(before.entries()[i]) is Some => {
            &&& after.entries() == before.entries().update(i, flipped(before.entries()[i]))
            &&& r == !before.checked_spec(id)
        },
        _ => after.entries() == before.entries() && !r,
    }
}

/// Whether `after` is `before` with the text of the item under `id` replaced
/// by `text`; where `id` is not registered nothing changes.
pub open spec fn retexted(before: Menu, after: Menu, id: Seq<char>, text: String) -> bool {
    &&& after.registry() == before.registry()
    &&& match before.target(id) {
        Some(i) => after.entries() == before.entries().update(i, with_text(before.entries()[i], text)),
        None => after.entries() == before.entries(),
    }
}

/// One registration: an identifier and the position of its item in the menu.
struct Slot {
    id: String,
    index: usize,
}

/// A top-level menu: the items in the order they were appended, and a
/// registry from caller-chosen identifiers to those items. Registering an
/// identifier again makes it name the newer item.
pub struct Menu {
    items: Vec<AnyMenuItem>,
    slots: Vec<Slot>,
    ids: Ghost<Map<Seq<char>, int>>,
}

impl Menu {
    /// The registry's invariant: each identifier is registered once, the
    /// ghost map and the slots agree, and each registration names an item.
    pub closed spec fn wf(&self) -> bool {
        &&& forall|i: int, j: int|
            0 <= i < j < self.slots@.len() ==> self.slots@[i].id@ != self.slots@[j].id@
        &&& forall|j: int|
            0 <= j < self.slots@.len() ==> {
                &&& #[trigger] self.ids@.contains_key(self.slots@[j].id@)
                &&& self.ids@[self.slots@[j].id@] == self.slots@[j].index as int
            }
        &&& forall|k: Seq<char>|
            #[trigger] self.ids@.contains_key(k) ==> exists|j: int|
                0 <= j < self.slots@.len() && self.slots@[j].id@ == k
        &&& forall|k: Seq<char>|
            #[trigger] self.ids@.contains_key(k) ==> 0 <= self.ids@[k] < self.items@.len()
        &&& forall|k: Seq<char>|
            #[trigger] self.ids@.contains_key(k) ==> self.items@[self.ids@[k]] !is Predefined
    }

    /// The items of the menu, in the order they were appended.
    pub closed spec fn entries(&self) -> Seq<AnyMenuItem> {
        self.items@
    }

    /// The registry: for each registered identifier, the position of its item.
    pub closed spec fn registry(&self) -> Map<Seq<char>, int> {
        self.ids@
    }

    /// The position of the item registered under `id`, if any.
    pub open spec fn target(&self, id: Seq<char>) -> Option<int> {
        if self.registry().contains_key(id) {
            Some(self.registry()[id])
        } else {
            None
        }
    }

    /// Whether `id` names a check item whose mark is set.
    pub open spec fn checked_spec(&self, id: Seq<char>) -> bool {
        match self.target(id) {
            Some(i) => checked_of(self.entries()[i]) == Some(true),
            None => false,
        }
    }

    /// Every registered identifier names an item of the menu.
    pub proof fn lemma_targets_in_bounds(self)
        requires
            self.wf(),
        ensures
            forall|k: Seq<char>|
                #[trigger] self.registry().contains_key(k) ==> 0 <= self.registry()[k]
                    < self.entries().len() && self.entries()[self.registry()[k]] !is Predefined,
    {
    }

    pub fn new() -> (r: Menu)
        ensures
            r.wf(),
            r.entries() == Seq::<AnyMenuItem>::empty(),
            r.registry() == Map::<Seq<char>, int>::empty(),
    {
        Menu { items: Vec::new(), slots: Vec::new(), ids: Ghost(Map::empty()) }
    }

    fn push_item(&mut self, item: AnyMenuItem) -> (index: usize)
        requires
            old(self).wf(),
        ensures
            final(self).wf(),
            final(self).entries() == old(self).entries().push(item),
            final(self).registry() == old(self).registry(),
            index == old(self).entries().len(),
    {
        let index = self.items.len();
        self.items.push(item);
        proof {
            Menu::lemma_same_registry(*old(self), *self);
        }
        index
    }

    /// Appends a plain item and, where `id` is given, registers it under `id`.
    pub fn append_menu_item(&mut self, item: MenuItem, id: Option<String>)
        requires
            old(self).wf(),
        ensures
            final(self).wf(),
            appended(*old(self), *final(self), AnyMenuItem::Standard(item), id_view(id)),
    {
        let index = self.push_item(AnyMenuItem::Standard(item));
        if let Some(id) = id {
            self.register(id, index);
        }
    }

    /// Appends a check item and registers it under `id`.
    pub fn append_check_menu_item(&mut self, item: CheckMenuItem, id: String)
        requires
            old(self).wf(),
        ensures
            final(self).wf(),
            appended(*old(self), *final(self), AnyMenuItem::Check(item), Some(id@)),
    {
        let index = self.push_item(AnyMenuItem::Check(item));
        self.register(id, index);
    }

    /// Appends a submenu and, where `id` is given, registers it under `id`.
    pub fn append_submenu(&mut self, item: Submenu, id: Option<String>)
        requires
            old(self).wf(),
        ensures
            final(self).wf(),
            appended(*old(self), *final(self), AnyMenuItem::Submenu(item), id_view(id)),
    {
        let index = self.push_item(AnyMenuItem::Submenu(item));
        if let Some(id) = id {
            self.register(id, index);
        }
    }

    /// Appends an icon item and registers it under `id`.
    pub fn append_icon_menu_item(&mut self, item: IconMenuItem, id: String)
        requires
            old(self).wf(),
        ensures
            final(self).wf(),
            appended(*old(self), *final(self), AnyMenuItem::Icon(item), Some(id@)),
    {
        let index = self.push_item(AnyMenuItem::Icon(item));
        self.register(id, index);
    }

    /// Appends a ready-made item, which is never registered.
    pub fn append_predefined_menu_item(&mut self, item: PredefinedMenuItem)
        requires
            old(self).wf(),
        ensures
            final(self).wf(),
            appended(*old(self), *final(self), AnyMenuItem::Predefined(item), None),
    {
        self.push_item(AnyMenuItem::Predefined(item));
    }

    /// Whether `id` names a check item whose mark is set; `false` where `id`
    /// is not registered or names another kind of item.
    pub fn is_checked(&self, id: String) -> (r: bool)
        requires
            self.wf(),
        ensures
            r == self.checked_spec(id@),
    {
        match self.find_slot(&id) {
            Some(j) => {
                let index = self.slots[j].index;
                self.items[index].checked() == Some(true)
            },
            None => false,
        }
    }

    /// Reverses the mark of the check item under `id` and returns the new
    /// mark; where `id` names no check item nothing changes and `false` is
    /// returned.
    pub fn toggle_check(&mut self, id: String) -> (r: bool)
        requires
            old(self).wf(),
        ensures
            final(self).wf(),
            toggled(*old(self), *final(self), id@, r),
    {
        match self.find_slot(&id) {
            Some(j) => {
                let index = self.slots[j].index;
                if self.items[index].checked().is_some() {
                    let mark = self.items[index].toggle();
                    proof {
                        Menu::lemma_same_registry(*old(self), *self);
                    }
                    match mark {
                        Some(mark) => mark,
                        None => false,
                    }
                } else {
                    false
                }
            },
            None => false,
        }
    }

    /// Replaces the text of the item under `id`; nothing changes where `id` is
    /// not registered.
    pub fn set_text(&mut self, id: String, text: String)
        requires
            old(self).wf(),
        ensures
            final(self).wf(),
            retexted(*old(self), *final(self), id@, text),
    {
        match self.find_slot(&id) {
            Some(j) => {
                let index = self.slots[j].index;
                self.items[index].set_text(text);
                proof {
                    Menu::lemma_same_registry(*old(self), *self);
                }
            },
            None => {},
        }
    }

    /// The position of the item registered under `id`, if any.
    pub fn position_of(&self, id: String) -> (r: Option<usize>)
        requires
            self.wf(),
        ensures
            match r {
                Some(i) => self.target(id@) == Some(i as int),
                None => self.target(id@) is None,
            },
    {
        match self.find_slot(&id) {
            Some(j) => Some(self.slots[j].index),
            None => None,
        }
    }

    /// The items of the menu, in the order they were appended.
    pub fn items(&self) -> (r: &Vec<AnyMenuItem>)
        ensures
            r@ == self.entries(),
    {
        &self.items
    }

    /// Changing or adding items, with the registrations untouched, keeps the
    /// invariant.
    proof fn lemma_same_registry(before: Menu, after: Menu)
        requires
            before.wf(),
            after.slots@ == before.slots@,
            after.ids@ == before.ids@,
            after.items@.len() >= before.items@.len(),
            forall|i: int|
                0 <= i < before.items@.len() ==> (#[trigger] after.items@[i] is Predefined) == (
                before.items@[i] is Predefined),
        ensures
            after.wf(),
    {
        assert forall|k: Seq<char>| #[trigger] after.ids@.contains_key(k) implies exists|j: int|
            0 <= j < after.slots@.len() && after.slots@[j].id@ == k by {
            let t = choose|t: int| 0 <= t < before.slots@.len() && before.slots@[t].id@ == k;
            assert(after.slots@[t].id@ == k);
        }
        assert forall|k: Seq<char>| #[trigger] after.ids@.contains_key(k) implies after.items@[after.ids@[k]] !is Predefined by {
            assert(before.ids@.contains_key(k));
        }
    }

    /// The position in `slots` of the registration of `id`, if there is one.
    fn find_slot(&self, id: &String) -> (r: Option<usize>)
        requires
            self.wf(),
        ensures
            match r {
                Some(j) => {
                    &&& j < self.slots@.len()
                    &&& self.slots@[j as int].id@ == id@
                    &&& self.target(id@) == Some(self.slots@[j as int].index as int)
                    &&& self.slots@[j as int].index < self.entries().len()
                },
                None => self.target(id@) is None,
            },
    {
        let mut j: usize = 0;
        while j < self.slots.len()
            invariant
                self.wf(),
                j <= self.slots@.len(),
                forall|t: int| 0 <= t < j ==> self.slots@[t].id@ != id@,
            decreases self.slots@.len() - j,
        {
            if self.slots[j].id == *id {
                assert(self.ids@.contains_key(self.slots@[j as int].id@));
                return Some(j);
            }
            j += 1;
        }
        assert(!self.ids@.contains_key(id@));
        None
    }

    /// Registers `id` as naming the item at `index`, replacing an earlier
    /// registration of the same identifier.
    fn register(&mut self, id: String, index: usize)
        requires
            old(self).wf(),
            index < old(self).entries().len(),
            old(self).entries()[index as int] !is Predefined,
        ensures
            final(self).wf(),
            final(self).entries() == old(self).entries(),
            final(self).registry() == old(self).registry().insert(id@, index as int),
    {
        let found = self.find_slot(&id);
        let ghost new_ids = self.ids@.insert(id@, index as int);
        match found {
            Some(j) => {
                let ghost old_slots = self.slots@;
                self.slots.set(j, Slot { id, index });
                self.ids = Ghost(new_ids);
                assert forall|t: int| 0 <= t < self.slots@.len() implies {
                    &&& #[trigger] new_ids.contains_key(self.slots@[t].id@)
                    &&& new_ids[self.slots@[t].id@] == self.slots@[t].index as int
                } by {
                    if t != j as int {
                        assert(old_slots[t].id@ != old_slots[j as int].id@);
                    }
                }
                assert forall|k: Seq<char>| #[trigger] new_ids.contains_key(k) implies exists|t: int|
                    0 <= t < self.slots@.len() && self.slots@[t].id@ == k by {
                    if k != self.slots@[j as int].id@ {
                        let t = choose|t: int| 0 <= t < old_slots.len() && old_slots[t].id@ == k;
                        assert(self.slots@[t].id@ == k);
                    }
                }
            },
            None => {
                let ghost old_slots = self.slots@;
                self.slots.push(Slot { id, index });
                self.ids = Ghost(new_ids);
                assert forall|k: Seq<char>| #[trigger] new_ids.contains_key(k) implies exists|t: int|
                    0 <= t < self.slots@.len() && self.slots@[t].id@ == k by {
                    if k != self.slots@[old_slots.len() as int].id@ {
                        let t = choose|t: int| 0 <= t < old_slots.len() && old_slots[t].id@ == k;
                        assert(self.slots@[t].id@ == k);
                    }
                }
            },
        }
    }
}


/// Registering an identifier again, for an item of another kind, makes it name
/// the newer item alone: after a first item and then a check item are appended
/// under one identifier, the identifier names the check item and reports its
/// mark.
pub proof fn lemma_last_registration_wins(
    m0: Menu,
    m1: Menu,
    m2: Menu,
    first: AnyMenuItem,
    second: CheckMenuItem,
    id: Seq<char>,
)
    requires
        m0.wf(),
        appended(m0, m1, first, Some(id)),
        appended(m1, m2, AnyMenuItem::Check(second), Some(id)),
    ensures
        m2.target(id) == Some(m0.entries().len() as int + 1),
        m2.entries()[m0.entries().len() as int + 1] == AnyMenuItem::Check(second),
        m2.checked_spec(id) == second.checked,
{
}

/// Toggling the same identifier twice gives back the menu as it was, and so
/// the mark that `is_checked` reports for it.
pub proof fn lemma_toggle_twice(m0: Menu, m1: Menu, m2: Menu, id: Seq<char>, r1: bool, r2: bool)
    requires
        m0.wf(),
        toggled(m0, m1, id, r1),
        toggled(m1, m2, id, r2),
    ensures
        m2.entries() == m0.entries(),
        m2.registry() == m0.registry(),
        m2.checked_spec(id) == m0.checked_spec(id),
{
    m0.lemma_targets_in_bounds();
    match m0.target(id) {
        Some(i) => {
            if checked_of(m0.entries()[i]) is Some {
                let e = m0.entries()[i];
                assert(flipped(flipped(e)) == e);
                assert(m2.entries() =~= m0.entries());
            }
        },
        None => {},
    }
}

/// Setting the text under a registered identifier changes the text of that
/// item to the new text, and leaves every other item of the menu as it was.
pub proof fn lemma_set_text_changes_one_item(m0: Menu, m1: Menu, id: Seq<char>, text: String)
    requires
        m0.wf(),
        m0.registry().contains_key(id),
        retexted(m0, m1, id, text),
    ensures
        m1.entries().len() == m0.entries().len(),
        text_of(m1.entries()[m0.registry()[id]]) == Some(text@),
        forall|j: int|
            0 <= j < m0.entries().len() && j != m0.registry()[id] ==> m1.entries()[j]
                == m0.entries()[j],
{
    m0.lemma_targets_in_bounds();
}

impl Default for Menu {
    fn default() -> (r: Menu)
        ensures
            r.wf(),
            r.entries() == Seq::<AnyMenuItem>::empty(),
            r.registry() == Map::<Seq<char>, int>::empty(),
    {
        Menu::new()
    }
}

} // verus!
