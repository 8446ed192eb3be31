//! The popup-menu handle wrapper.
//!
//! A native popup menu is modeled as the ordered log of entries appended to
//! it, together with the child menus whose ownership it has taken and the log
//! of the screen points it was displayed at. The k-th `ChildMenu` entry in
//! `entries` corresponds to the k-th element of `child_menus`.

use vstd::prelude::*;
use crate::Error;

verus! {

/// One appended native menu entry.
#[derive(Debug)]
pub enum NativeEntry {
    /// A selectable string entry carrying a command identifier.
    Item { name: String, id: usize, disabled: bool },
    /// A string entry with a check mark, carrying a command identifier.
    CheckableItem { name: String, is_checked: bool, id: usize, disabled: bool },
    /// A submenu entry; it refers positionally to the owning menu's
    /// `child_menus`.
    ChildMenu { name: String, disabled: bool },
    /// A horizontal separator line.
    Separator,
}

/// The abstract value of one native menu entry: the same shape with the
/// label taken as a sequence of characters.
pub enum EntryV {
    Item { name: Seq<char>, id: usize, disabled: bool },
    CheckableItem { name: Seq<char>, is_checked: bool, id: usize, disabled: bool },
    ChildMenu { name: Seq<char>, disabled: bool },
    Separator,
}

/// The abstract value of one appended entry.
pub open spec fn entry_view(e: NativeEntry) -> EntryV {
    match e {
        NativeEntry::Item { name, id, disabled } => EntryV::Item { name: name@, id, disabled },
        NativeEntry::CheckableItem { name, is_checked, id, disabled } => EntryV::CheckableItem {
            name: name@,
            is_checked,
            id,
            disabled,
        },
        NativeEntry::ChildMenu { name, disabled } => EntryV::ChildMenu { name: name@, disabled },
        NativeEntry::Separator => EntryV::Separator,
    }
}

/// A popup-menu resource: it owns its appended entries and, transitively,
/// its child menus, which are destroyed with it.
#[derive(Debug)]
pub struct WinHMenu {
    pub entries: Vec<NativeEntry>,
    pub child_menus: Vec<WinHMenu>,
    /// The screen points this menu was displayed at, in order.
    pub tracks: Vec<(i32, i32)>,
}

/// The abstract values of a menu's entries, in order of appending.
pub open spec fn entries_view(m: WinHMenu) -> Seq<EntryV> {
    m.entries@.map_values(|e: NativeEntry| entry_view(e))
}

impl WinHMenu {
    /// Creates an empty popup menu resource.
    pub fn new() -> (r: Result<WinHMenu, Error>)
        ensures
            r matches Ok(m) && m.entries@.len() == 0 && m.child_menus@.len() == 0
                && m.tracks@.len() == 0,
    {
        Ok(WinHMenu { entries: Vec::new(), child_menus: Vec::new(), tracks: Vec::new() })
    }

    /// Appends a selectable string entry with command identifier `id`.
    pub fn add_menu_item(&mut self, name: &str, id: usize, disabled: bool) -> (r: bool)
        ensures
            entries_view(*final(self)) == entries_view(*old(self)).push(
                EntryV::Item { name: name@, id, disabled },
            ),
            final(self).child_menus == old(self).child_menus,
            final(self).tracks == old(self).tracks,
            r,
    {
        self.entries.push(NativeEntry::Item { name: name.to_owned(), id, disabled });
        proof {
            assert(entries_view(*self) =~= entries_view(*old(self)).push(
                EntryV::Item { name: name@, id, disabled },
            ));
        }
        true
    }

    /// Appends a checkable string entry with command identifier `id`.
    pub fn add_checkable_item(
        &mut self,
        name: &str,
        is_checked: bool,
        id: usize,
        disabled: bool,
    ) -> (r: bool)
        ensures
            entries_view(*final(self)) == entries_view(*old(self)).push(
                EntryV::CheckableItem { name: name@, is_checked, id, disabled },
            ),
            final(self).child_menus == old(self).child_menus,
            final(self).tracks == old(self).tracks,
            r,
    {
        self.entries.push(
            NativeEntry::CheckableItem { name: name.to_owned(), is_checked, id, disabled },
        );
        proof {
            assert(entries_view(*self) =~= entries_view(*old(self)).push(
                EntryV::CheckableItem { name: name@, is_checked, id, disabled },
            ));
        }
        true
    }

    /// Appends a submenu entry and takes ownership of the child menu, tying
    /// its lifetime to this menu's.
    pub fn add_child_menu(&mut self, name: &str, menu: WinHMenu, disabled: bool) -> (r: bool)
        ensures
            entries_view(*final(self)) == entries_view(*old(self)).push(
                EntryV::ChildMenu { name: name@, disabled },
            ),
            final(self).child_menus@ == old(self).child_menus@.push(menu),
            final(self).tracks == old(self).tracks,
            r,
    {
        self.entries.push(NativeEntry::ChildMenu { name: name.to_owned(), disabled });
        self.child_menus.push(menu);
        proof {
            assert(entries_view(*self) =~= entries_view(*old(self)).push(
                EntryV::ChildMenu { name: name@, disabled },
            ));
        }
        true
    }

    /// Appends a separator line; it consumes no command identifier.
    pub fn add_separator(&mut self) -> (r: bool)
        ensures
            entries_view(*final(self)) == entries_view(*old(self)).push(EntryV::Separator),
            final(self).child_menus == old(self).child_menus,
            final(self).tracks == old(self).tracks,
            r,
    {
        self.entries.push(NativeEntry::Separator);
        proof {
            assert(entries_view(*self) =~= entries_view(*old(self)).push(EntryV::Separator));
        }
        true
    }

    /// Displays the popup menu at screen point `(x, y)`, owned by the window
    /// `hwnd`; the display is recorded in `tracks`.
    pub fn track(&mut self, hwnd: usize, x: i32, y: i32)
        ensures
            final(self).tracks@ == old(self).tracks@.push((x, y)),
            final(self).entries == old(self).entries,
            final(self).child_menus == old(self).child_menus,
    {
        let _ = hwnd;
        self.tracks.push((x, y));
    }
}

} // verus!
