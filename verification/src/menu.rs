//! The user-declared menu tree and the menu-identity compiler.
//!
//! A menu tree is compiled into a native popup menu together with a map from
//! integer command identifiers back to user event values. Identifiers are
//! assigned by a single counter threaded through all recursive calls, in
//! depth-first pre-order: a submenu's children are numbered before any
//! sibling that follows the submenu in declaration order. Identifier 0 is
//! never assigned, so it can signal "no command".

use vstd::prelude::*;
use crate::Error;
use crate::winhmenu::{WinHMenu, EntryV, entries_view};

verus! {

/// One entry of a user-declared menu tree.
#[derive(Debug)]
pub enum MenuItem<T> {
    /// A plain entry that fires `event` when chosen.
    Item { name: String, event: T, disabled: bool },
    /// An entry with a check mark that fires `event` when chosen.
    CheckableItem { name: String, event: T, is_checked: bool, disabled: bool },
    /// A nested submenu.
    ChildMenu { name: String, children: MenuBuilder<T>, disabled: bool },
    /// A horizontal separator line; consumes no command identifier.
    Separator,
}

/// An ordered sequence of menu items, built declaratively.
#[derive(Debug)]
pub struct MenuBuilder<T> {
    pub menu_items: Vec<MenuItem<T>>,
}

/// The events of a menu tree in depth-first pre-order: for each item in
/// declaration order, a plain or checkable entry contributes its own event,
/// and a submenu contributes all of its children's events at the submenu's
/// position, before any sibling that follows it.
pub open spec fn events_of<T>(items: Seq<MenuItem<T>>) -> Seq<T>
    decreases items, items.len(),
{
    if items.len() == 0 {
        Seq::empty()
    } else {
        events_of_item(items[0]) + events_of(items.drop_first())
    }
}

/// The events contributed by a single menu item, in depth-first order.
pub open spec fn events_of_item<T>(item: MenuItem<T>) -> Seq<T>
    decreases item, 0nat,
{
    match item {
        MenuItem::Item { event, .. } => seq![event],
        MenuItem::CheckableItem { event, .. } => seq![event],
        MenuItem::ChildMenu { children, .. } => events_of(children.menu_items@),
        MenuItem::Separator => Seq::empty(),
    }
}

/// Appending one item to a tree appends that item's events.
pub proof fn lemma_events_of_push<T>(items: Seq<MenuItem<T>>, x: MenuItem<T>)
    ensures
        events_of(items.push(x)) == events_of(items) + events_of_item(x),
    decreases items.len(),
{
    if items.len() == 0 {
        assert(items.push(x)[0] == x);
        assert(items.push(x).drop_first() =~= Seq::<MenuItem<T>>::empty());
        assert(events_of(items.push(x)) == events_of_item(x) + events_of(
            Seq::<MenuItem<T>>::empty(),
        ));
        assert(events_of(items.push(x)) =~= events_of(items) + events_of_item(x));
    } else {
        assert(items.push(x).drop_first() =~= items.drop_first().push(x));
        lemma_events_of_push(items.drop_first(), x);
        assert(events_of(items.push(x)) =~= events_of(items) + events_of_item(x));
    }
}

/// The events of two concatenated trees are the two event sequences
/// concatenated.
pub proof fn lemma_events_of_concat<T>(a: Seq<MenuItem<T>>, b: Seq<MenuItem<T>>)
    ensures
        events_of(a + b) == events_of(a) + events_of(b),
    decreases a.len(),
{
    if a.len() == 0 {
        assert(a + b =~= b);
        assert(events_of(a) + events_of(b) =~= events_of(b));
    } else {
        assert((a + b).drop_first() =~= a.drop_first() + b);
        assert((a + b)[0] == a[0]);
        lemma_events_of_concat(a.drop_first(), b);
        assert(events_of(a + b) =~= events_of(a) + events_of(b));
    }
}

/// The correspondence between a native menu level and a declared item
/// sequence, entered with `j0` as the last command identifier assigned so
/// far: entries appear one per item in declaration order, plain and
/// checkable entries carry the identifiers a depth-first counter assigns,
/// and the k-th submenu entry corresponds to the k-th owned child menu,
/// itself compiled with the counter value reached at its position.
pub open spec fn level_matches<T>(
    entries: Seq<EntryV>,
    children: Seq<WinHMenu>,
    items: Seq<MenuItem<T>>,
    j0: int,
) -> bool
    decreases items, items.len(),
{
    if items.len() == 0 {
        entries.len() == 0 && children.len() == 0
    } else {
        match items[0] {
            MenuItem::Item { name, event, disabled } => {
                &&& entries.len() >= 1
                &&& (entries[0] matches EntryV::Item { name: n, id, disabled: d }
                    && n == name@ && id == j0 + 1 && d == disabled)
                &&& level_matches(entries.drop_first(), children, items.drop_first(), j0 + 1)
            },
            MenuItem::CheckableItem { name, event, is_checked, disabled } => {
                &&& entries.len() >= 1
                &&& (entries[0] matches EntryV::CheckableItem { name: n, is_checked: c, id, disabled: d }
                    && n == name@ && c == is_checked && id == j0 + 1 && d == disabled)
                &&& level_matches(entries.drop_first(), children, items.drop_first(), j0 + 1)
            },
            MenuItem::ChildMenu { name, children: cb, disabled } => {
                &&& entries.len() >= 1
                &&& children.len() >= 1
                &&& (entries[0] matches EntryV::ChildMenu { name: n, disabled: d }
                    && n == name@ && d == disabled)
                &&& menu_matches(children[0], cb.menu_items@, j0)
                &&& level_matches(
                    entries.drop_first(),
                    children.drop_first(),
                    items.drop_first(),
                    j0 + events_of(cb.menu_items@).len(),
                )
            },
            MenuItem::Separator => {
                &&& entries.len() >= 1
                &&& entries[0] == EntryV::Separator
                &&& level_matches(entries.drop_first(), children, items.drop_first(), j0)
            },
        }
    }
}

/// A native menu is the compilation of `items` entered with counter `j0`.
pub open spec fn menu_matches<T>(m: WinHMenu, items: Seq<MenuItem<T>>, j0: int) -> bool
    decreases items, items.len() + 1,
{
    level_matches(entries_view(m), m.child_menus@, items, j0)
}

/// Identifiers are assigned in depth-first pre-order: around any item, the
/// whole event sequence splits into the events of the items before it, its
/// own events (all of a submenu's children at the submenu's position), and
/// the events of the siblings after it — so a submenu's children are
/// numbered strictly before any sibling that follows the submenu in
/// declaration order.
pub proof fn lemma_events_of_decompose<T>(items: Seq<MenuItem<T>>, i: int)
    requires
        0 <= i < items.len(),
    ensures
        events_of(items) == events_of(items.take(i)) + events_of_item(items[i]) + events_of(
            items.skip(i + 1),
        ),
{
    assert(items =~= items.take(i + 1) + items.skip(i + 1));
    lemma_events_of_concat(items.take(i + 1), items.skip(i + 1));
    assert(items.take(i + 1) =~= items.take(i).push(items[i]));
    lemma_events_of_push(items.take(i), items[i]);
}

/// The events of a prefix of a tree are no more than the events of the
/// whole tree.
pub proof fn lemma_events_of_take_bound<T>(items: Seq<MenuItem<T>>, i: int)
    requires
        0 <= i <= items.len(),
    ensures
        events_of(items.take(i)).len() <= events_of(items).len(),
{
    assert(items =~= items.take(i) + items.skip(i));
    lemma_events_of_concat(items.take(i), items.skip(i));
}

impl<T> MenuBuilder<T> {
    /// Creates an empty menu tree.
    pub fn new() -> (r: Self)
        ensures
            r.menu_items@.len() == 0,
    {
        MenuBuilder { menu_items: Vec::new() }
    }

    /// Appends any one menu item.
    pub fn with(self, item: MenuItem<T>) -> (r: Self)
        ensures
            r.menu_items@ == self.menu_items@.push(item),
    {
        let mut s = self;
        s.menu_items.push(item);
        s
    }

    /// Appends an enabled plain entry that fires `event` when chosen.
    pub fn item(self, name: &str, event: T) -> (r: Self)
        ensures
            r.menu_items@.len() == self.menu_items@.len() + 1,
            forall|k: int|
                0 <= k < self.menu_items@.len() ==> r.menu_items@[k] == self.menu_items@[k],
            r.menu_items@.last() matches MenuItem::Item { name: n, event: e, disabled: d }
                && n@ == name@ && e == event && !d,
    {
        let mut s = self;
        s.menu_items.push(MenuItem::Item { name: name.to_owned(), event, disabled: false });
        s
    }

    /// Appends an enabled checkable entry that fires `event` when chosen.
    pub fn checkable(self, name: &str, is_checked: bool, event: T) -> (r: Self)
        ensures
            r.menu_items@.len() == self.menu_items@.len() + 1,
            forall|k: int|
                0 <= k < self.menu_items@.len() ==> r.menu_items@[k] == self.menu_items@[k],
            r.menu_items@.last() matches MenuItem::CheckableItem {
                name: n,
                event: e,
                is_checked: c,
                disabled: d,
            } && n@ == name@ && e == event && c == is_checked && !d,
    {
        let mut s = self;
        s.menu_items.push(
            MenuItem::CheckableItem { name: name.to_owned(), event, is_checked, disabled: false },
        );
        s
    }

    /// Appends an enabled submenu holding `menu` as its children.
    pub fn submenu(self, name: &str, menu: MenuBuilder<T>) -> (r: Self)
        ensures
            r.menu_items@.len() == self.menu_items@.len() + 1,
            forall|k: int|
                0 <= k < self.menu_items@.len() ==> r.menu_items@[k] == self.menu_items@[k],
            r.menu_items@.last() matches MenuItem::ChildMenu { name: n, children: c, disabled: d }
                && n@ == name@ && c == menu && !d,
    {
        let mut s = self;
        s.menu_items.push(MenuItem::ChildMenu { name: name.to_owned(), children: menu, disabled: false });
        s
    }

    /// Appends a separator line.
    pub fn separator(self) -> (r: Self)
        ensures
            r.menu_items@ == self.menu_items@.push(MenuItem::Separator),
    {
        let mut s = self;
        s.menu_items.push(MenuItem::Separator);
        s
    }

    /// Applies an arbitrary rewriting step to the builder, for conditional
    /// construction in a method chain.
    pub fn when<F: FnOnce(Self) -> Self>(self, f: F) -> (r: Self)
        requires
            call_requires(f, (self,)),
        ensures
            call_ensures(f, (self,), r),
    {
        f(self)
    }
}

/// A compiled menu: the native menu resource tree plus the map from command
/// identifiers back to user event values. The map is kept in ascending
/// identifier order; entry `k` carries identifier `k + 1`.
#[derive(Debug)]
pub struct MenuSys<T> {
    pub events: Vec<(usize, T)>,
    pub menu: WinHMenu,
}

impl<T> MenuSys<T> {
    /// The identifier map is exactly the identifiers `1..=len`, in order.
    pub open spec fn wf(self) -> bool {
        forall|k: int|
            0 <= k < self.events@.len() ==> (#[trigger] self.events@[k]).0 == k + 1
    }

    /// The event a command identifier resolves to, if any.
    pub open spec fn spec_lookup(self, id: usize) -> Option<T> {
        if 1 <= id <= self.events@.len() {
            Some(self.events@[id - 1].1)
        } else {
            None
        }
    }
}

impl<T: Copy> MenuSys<T> {
    /// Resolves a command identifier to its user event, or `None` for an
    /// identifier this compiled menu never assigned.
    pub fn get(&self, id: usize) -> (r: Option<T>)
        requires
            self.wf(),
        ensures
            r == self.spec_lookup(id),
    {
        if 1 <= id && id <= self.events.len() {
            Some(self.events[id - 1].1)
        } else {
            None
        }
    }
}

/// Every compiled identifier map with `N` entries assigns exactly the
/// identifiers `1..=N`: each identifier lies in that closed range, and no
/// two entries share one, regardless of nesting depth or separator count.
pub proof fn lemma_compiled_ids_unique<T>(events: Seq<(usize, T)>)
    requires
        forall|k: int| 0 <= k < events.len() ==> (#[trigger] events[k]).0 == k + 1,
    ensures
        forall|k: int|
            0 <= k < events.len() ==> 1 <= (#[trigger] events[k]).0 <= events.len(),
        forall|k1: int, k2: int|
            0 <= k1 < events.len() && 0 <= k2 < events.len() && k1 != k2 ==> (
            #[trigger] events[k1]).0 != (#[trigger] events[k2]).0,
{
}

/// Compiles a menu tree into a native menu and an identifier-to-event map,
/// numbering entries depth-first from 1.
pub fn build_menu<T: Copy>(builder: &MenuBuilder<T>) -> (r: Result<MenuSys<T>, Error>)
    requires
        events_of(builder.menu_items@).len() <= usize::MAX,
    ensures
        r matches Ok(sys) && {
            &&& sys.events@.len() == events_of(builder.menu_items@).len()
            &&& forall|k: int|
                0 <= k < sys.events@.len() ==> (#[trigger] sys.events@[k]).0 == k + 1
                    && sys.events@[k].1 == events_of(builder.menu_items@)[k]
            &&& sys.wf()
            &&& menu_matches(sys.menu, builder.menu_items@, 0)
            &&& sys.menu.tracks@.len() == 0
        },
{
    let mut j: usize = 0;
    build_menu_inner(&mut j, builder)
}

/// The recursive menu compiler: `j` is the single identifier counter
/// threaded through all recursive calls, holding the last identifier
/// assigned so far.
pub fn build_menu_inner<T: Copy>(j: &mut usize, builder: &MenuBuilder<T>) -> (r: Result<
    MenuSys<T>,
    Error,
>)
    requires
        *old(j) + events_of(builder.menu_items@).len() <= usize::MAX,
    ensures
        *final(j) == *old(j) + events_of(builder.menu_items@).len(),
        r matches Ok(sys) && {
            &&& sys.events@.len() == events_of(builder.menu_items@).len()
            &&& forall|k: int|
                0 <= k < sys.events@.len() ==> (#[trigger] sys.events@[k]).0 == *old(j) + 1 + k
                    && sys.events@[k].1 == events_of(builder.menu_items@)[k]
            &&& menu_matches(sys.menu, builder.menu_items@, *old(j) as int)
            &&& sys.menu.tracks@.len() == 0
        },
    decreases builder,
{
    let ghost items = builder.menu_items@;
    let ghost j0 = *old(j);
    let mut hmenu = match WinHMenu::new() {
        Ok(m) => m,
        Err(e) => return Err(e),
    };
    let mut map: Vec<(usize, T)> = Vec::new();
    let n = builder.menu_items.len();
    let mut idx: usize = 0;
    while idx < n
        invariant
            n == items.len(),
            items == builder.menu_items@,
            idx <= n,
            j0 + events_of(items).len() <= usize::MAX,
            *j == j0 + events_of(items.take(idx as int)).len(),
            map@.len() == events_of(items.take(idx as int)).len(),
            forall|k: int|
                0 <= k < map@.len() ==> (#[trigger] map@[k]).0 == j0 + 1 + k && map@[k].1
                    == events_of(items.take(idx as int))[k],
            level_matches(entries_view(hmenu), hmenu.child_menus@, items.take(idx as int), j0 as int),
            hmenu.tracks@.len() == 0,
        decreases n - idx,
    {
        let item = &builder.menu_items[idx];
        proof {
            assert(items.take(idx + 1) =~= items.take(idx as int).push(items[idx as int]));
            lemma_events_of_push(items.take(idx as int), items[idx as int]);
            lemma_events_of_take_bound(items, idx + 1);
        }
        let ghost pre_menu = hmenu;
        match item {
            MenuItem::ChildMenu { name, children, disabled } => {
                if let Ok(sub) = build_menu_inner(j, children) {
                    let MenuSys { events: mut sub_events, menu: sub_menu } = sub;
                    map.append(&mut sub_events);
                    hmenu.add_child_menu(name.as_str(), sub_menu, *disabled);
                    proof {
                        lemma_level_matches_push_child(
                            entries_view(pre_menu),
                            pre_menu.child_menus@,
                            items.take(idx as int),
                            j0 as int,
                            EntryV::ChildMenu { name: name@, disabled: *disabled },
                            items[idx as int],
                            sub_menu,
                        );
                    }
                }
            },
            MenuItem::CheckableItem { name, event, is_checked, disabled } => {
                *j += 1;
                map.push((*j, *event));
                hmenu.add_checkable_item(name.as_str(), *is_checked, *j, *disabled);
                proof {
                    lemma_level_matches_push(
                        entries_view(pre_menu),
                        pre_menu.child_menus@,
                        items.take(idx as int),
                        j0 as int,
                        EntryV::CheckableItem {
                            name: name@,
                            is_checked: *is_checked,
                            id: *j,
                            disabled: *disabled,
                        },
                        items[idx as int],
                    );
                }
            },
            MenuItem::Item { name, event, disabled } => {
                *j += 1;
                map.push((*j, *event));
                hmenu.add_menu_item(name.as_str(), *j, *disabled);
                proof {
                    lemma_level_matches_push(
                        entries_view(pre_menu),
                        pre_menu.child_menus@,
                        items.take(idx as int),
                        j0 as int,
                        EntryV::Item { name: name@, id: *j, disabled: *disabled },
                        items[idx as int],
                    );
                }
            },
            MenuItem::Separator => {
                hmenu.add_separator();
                proof {
                    lemma_level_matches_push(
                        entries_view(pre_menu),
                        pre_menu.child_menus@,
                        items.take(idx as int),
                        j0 as int,
                        EntryV::Separator,
                        items[idx as int],
                    );
                }
            },
        }
        idx += 1;
    }
    proof {
        assert(items.take(n as int) =~= items);
    }
    Ok(MenuSys { events: map, menu: hmenu })
}

/// Extends a level correspondence by one plain, checkable or separator
/// entry appended at the end, carrying the next identifier the depth-first
/// counter assigns there.
pub proof fn lemma_level_matches_push<T>(
    entries: Seq<EntryV>,
    children: Seq<WinHMenu>,
    items: Seq<MenuItem<T>>,
    j0: int,
    en: EntryV,
    item: MenuItem<T>,
)
    requires
        level_matches(entries, children, items, j0),
        match item {
            MenuItem::Item { name, event, disabled } => en matches EntryV::Item {
                name: n,
                id,
                disabled: d,
            } && n == name@ && id == j0 + events_of(items).len() + 1 && d == disabled,
            MenuItem::CheckableItem { name, event, is_checked, disabled } => en matches
                EntryV::CheckableItem { name: n, is_checked: c, id, disabled: d } && n == name@
                && c == is_checked && id == j0 + events_of(items).len() + 1 && d == disabled,
            MenuItem::ChildMenu { .. } => false,
            MenuItem::Separator => en == EntryV::Separator,
        },
    ensures
        level_matches(entries.push(en), children, items.push(item), j0),
    decreases items.len(),
{
    if items.len() == 0 {
        reveal_with_fuel(level_matches, 3);
        assert(entries.len() == 0 && children.len() == 0);
        assert(events_of(items).len() == 0);
        assert(items.push(item)[0] == item);
        assert(entries.push(en)[0] == en);
        assert(entries.push(en).drop_first() =~= Seq::<EntryV>::empty());
        assert(items.push(item).drop_first() =~= Seq::<MenuItem<T>>::empty());
        assert(level_matches(entries.push(en), children, items.push(item), j0));
    } else {
        assert(entries.push(en).drop_first() =~= entries.drop_first().push(en));
        assert(items.push(item).drop_first() =~= items.drop_first().push(item));
        assert(items.push(item)[0] == items[0]);
        assert(entries.push(en)[0] == entries[0]);
        assert(events_of(items) == events_of_item(items[0]) + events_of(items.drop_first()));
        match items[0] {
            MenuItem::Item { name, event, disabled } => {
                lemma_level_matches_push(
                    entries.drop_first(),
                    children,
                    items.drop_first(),
                    j0 + 1,
                    en,
                    item,
                );
                assert(level_matches(entries.push(en), children, items.push(item), j0));
            },
            MenuItem::CheckableItem { name, event, is_checked, disabled } => {
                lemma_level_matches_push(
                    entries.drop_first(),
                    children,
                    items.drop_first(),
                    j0 + 1,
                    en,
                    item,
                );
                assert(level_matches(entries.push(en), children, items.push(item), j0));
            },
            MenuItem::ChildMenu { name, children: cb, disabled } => {
                assert(children.len() >= 1);
                lemma_level_matches_push(
                    entries.drop_first(),
                    children.drop_first(),
                    items.drop_first(),
                    j0 + events_of(cb.menu_items@).len(),
                    en,
                    item,
                );
                assert(level_matches(entries.push(en), children, items.push(item), j0));
            },
            MenuItem::Separator => {
                lemma_level_matches_push(
                    entries.drop_first(),
                    children,
                    items.drop_first(),
                    j0,
                    en,
                    item,
                );
                assert(level_matches(entries.push(en), children, items.push(item), j0));
            },
        }
    }
}

/// Extends a level correspondence by a submenu entry appended at the end,
/// whose child menu is compiled with the counter value reached there.
pub proof fn lemma_level_matches_push_child<T>(
    entries: Seq<EntryV>,
    children: Seq<WinHMenu>,
    items: Seq<MenuItem<T>>,
    j0: int,
    en: EntryV,
    item: MenuItem<T>,
    child: WinHMenu,
)
    requires
        level_matches(entries, children, items, j0),
        item matches MenuItem::ChildMenu { name, children: cb, disabled } && (en matches
            EntryV::ChildMenu { name: n, disabled: d } && n == name@ && d == disabled)
            && menu_matches(child, cb.menu_items@, j0 + events_of(items).len()),
    ensures
        level_matches(entries.push(en), children.push(child), items.push(item), j0),
    decreases items.len(),
{
    if items.len() == 0 {
        reveal_with_fuel(level_matches, 3);
        assert(entries.len() == 0 && children.len() == 0);
        assert(events_of(items).len() == 0);
        assert(items.push(item)[0] == item);
        assert(entries.push(en)[0] == en);
        assert(children.push(child)[0] == child);
        assert(entries.push(en).drop_first() =~= Seq::<EntryV>::empty());
        assert(children.push(child).drop_first() =~= Seq::<WinHMenu>::empty());
        assert(items.push(item).drop_first() =~= Seq::<MenuItem<T>>::empty());
        assert(level_matches(entries.push(en), children.push(child), items.push(item), j0));
    } else {
        assert(entries.push(en).drop_first() =~= entries.drop_first().push(en));
        assert(items.push(item).drop_first() =~= items.drop_first().push(item));
        assert(items.push(item)[0] == items[0]);
        assert(entries.push(en)[0] == entries[0]);
        assert(events_of(items) == events_of_item(items[0]) + events_of(items.drop_first()));
        match items[0] {
            MenuItem::Item { name, event, disabled } => {
                lemma_level_matches_push_child(
                    entries.drop_first(),
                    children,
                    items.drop_first(),
                    j0 + 1,
                    en,
                    item,
                    child,
                );
                assert(level_matches(
                    entries.push(en),
                    children.push(child),
                    items.push(item),
                    j0,
                ));
            },
            MenuItem::CheckableItem { name, event, is_checked, disabled } => {
                lemma_level_matches_push_child(
                    entries.drop_first(),
                    children,
                    items.drop_first(),
                    j0 + 1,
                    en,
                    item,
                    child,
                );
                assert(level_matches(
                    entries.push(en),
                    children.push(child),
                    items.push(item),
                    j0,
                ));
            },
            MenuItem::ChildMenu { name, children: cb, disabled } => {
                assert(children.len() >= 1);
                assert(children.push(child)[0] == children[0]);
                assert(children.push(child).drop_first() =~= children.drop_first().push(child));
                lemma_level_matches_push_child(
                    entries.drop_first(),
                    children.drop_first(),
                    items.drop_first(),
                    j0 + events_of(cb.menu_items@).len(),
                    en,
                    item,
                    child,
                );
                assert(level_matches(
                    entries.push(en),
                    children.push(child),
                    items.push(item),
                    j0,
                ));
            },
            MenuItem::Separator => {
                lemma_level_matches_push_child(
                    entries.drop_first(),
                    children,
                    items.drop_first(),
                    j0,
                    en,
                    item,
                    child,
                );
                assert(level_matches(
                    entries.push(en),
                    children.push(child),
                    items.push(item),
                    j0,
                ));
            },
        }
    }
}

} // verus!
