use trayicon::menu::{build_menu, MenuBuilder, MenuItem};
use trayicon::winhmenu::NativeEntry;

#[derive(Copy, Clone, Eq, PartialEq, Debug)]
enum Events {
    CheckableItem1,
    Item1,
    SubItem1,
    SubItem2,
    SubItem3,
    SubItem4,
    SubSubItem1,
    SubSubItem2,
    SubSubItem3,
}

#[test]
fn test_menu_build() {
    let cond = false;
    let builder = MenuBuilder::new()
        .checkable("This is checkable", true, Events::CheckableItem1)
        .submenu(
            "Sub Menu",
            MenuBuilder::new()
                .item("Sub item 1", Events::SubItem1)
                .item("Sub Item 2", Events::SubItem2)
                .item("Sub Item 3", Events::SubItem3)
                .submenu(
                    "Sub Sub menu",
                    MenuBuilder::new()
                        .item("Sub Sub item 1", Events::SubSubItem1)
                        .item("Sub Sub Item 2", Events::SubSubItem2)
                        .item("Sub Sub Item 3", Events::SubSubItem3),
                )
                .when(|f| {
                    if cond {
                        f.item("Foo", Events::Item1)
                    } else {
                        f
                    }
                })
                .item("Sub Item 4", Events::SubItem4),
        )
        .item("Item 1", Events::Item1);

    if let Ok(menusys) = build_menu(&builder) {
        assert_eq!(menusys.events.len(), 9);
    } else {
        panic!()
    }
}

#[test]
fn test_menu_build_preorder_ids() {
    // Children of a submenu are numbered before any sibling that follows
    // the submenu in declaration order.
    let builder = MenuBuilder::new()
        .checkable("This is checkable", true, Events::CheckableItem1)
        .submenu(
            "Sub Menu",
            MenuBuilder::new()
                .item("Sub item 1", Events::SubItem1)
                .item("Sub Item 2", Events::SubItem2),
        )
        .item("Item 1", Events::Item1);
    let menusys = build_menu(&builder).unwrap();
    assert_eq!(
        menusys.events,
        vec![
            (1, Events::CheckableItem1),
            (2, Events::SubItem1),
            (3, Events::SubItem2),
            (4, Events::Item1),
        ]
    );
}

#[derive(Copy, Clone, Eq, PartialEq, Debug)]
enum E {
    E1,
    E2,
    E3,
    E4,
}

#[test]
fn test_scenario_item_checkable_submenu_item() {
    // Item("A", E1) -> CheckableItem("B", checked) -> Submenu("C", [Item("D", E3)]) -> Item("E", E4)
    // compiles to identifiers {A:1, B:2, D:3, E:4}.
    let builder = MenuBuilder::new()
        .item("A", E::E1)
        .checkable("B", true, E::E2)
        .submenu("C", MenuBuilder::new().item("D", E::E3))
        .item("E", E::E4);
    let menusys = build_menu(&builder).unwrap();
    assert_eq!(
        menusys.events,
        vec![(1, E::E1), (2, E::E2), (3, E::E3), (4, E::E4)]
    );
    assert_eq!(menusys.get(1), Some(E::E1));
    assert_eq!(menusys.get(2), Some(E::E2));
    assert_eq!(menusys.get(3), Some(E::E3));
    assert_eq!(menusys.get(4), Some(E::E4));
    assert_eq!(menusys.get(0), None);
    assert_eq!(menusys.get(5), None);

    // The native tree: four entries at the top, one owned child menu with
    // a single entry.
    assert_eq!(menusys.menu.entries.len(), 4);
    assert_eq!(menusys.menu.child_menus.len(), 1);
    assert_eq!(menusys.menu.child_menus[0].entries.len(), 1);
    assert!(matches!(menusys.menu.entries[0], NativeEntry::Item { id: 1, .. }));
    assert!(matches!(
        menusys.menu.entries[1],
        NativeEntry::CheckableItem { id: 2, is_checked: true, .. }
    ));
    assert!(matches!(menusys.menu.entries[2], NativeEntry::ChildMenu { .. }));
    assert!(matches!(menusys.menu.entries[3], NativeEntry::Item { id: 4, .. }));
    assert!(matches!(
        menusys.menu.child_menus[0].entries[0],
        NativeEntry::Item { id: 3, .. }
    ));
}

#[test]
fn test_empty_menu_compiles_empty() {
    // An empty tree yields an empty identifier map and a valid, empty
    // native menu.
    let builder: MenuBuilder<E> = MenuBuilder::new();
    let menusys = build_menu(&builder).unwrap();
    assert_eq!(menusys.events.len(), 0);
    assert_eq!(menusys.menu.entries.len(), 0);
    assert_eq!(menusys.menu.child_menus.len(), 0);
}

#[test]
fn test_separators_consume_no_id() {
    let builder = MenuBuilder::new()
        .item("A", E::E1)
        .separator()
        .with(MenuItem::Separator)
        .item("B", E::E2);
    let menusys = build_menu(&builder).unwrap();
    assert_eq!(menusys.events, vec![(1, E::E1), (2, E::E2)]);
    assert_eq!(menusys.menu.entries.len(), 4);
    assert!(matches!(menusys.menu.entries[1], NativeEntry::Separator));
    assert!(matches!(menusys.menu.entries[2], NativeEntry::Separator));
}

#[test]
fn test_disabled_items_keep_their_ids() {
    let builder = MenuBuilder::new()
        .with(MenuItem::Item { name: String::from("A"), event: E::E1, disabled: true })
        .item("B", E::E2);
    let menusys = build_menu(&builder).unwrap();
    assert_eq!(menusys.events, vec![(1, E::E1), (2, E::E2)]);
    assert!(matches!(
        menusys.menu.entries[0],
        NativeEntry::Item { id: 1, disabled: true, .. }
    ));
    assert!(matches!(
        menusys.menu.entries[1],
        NativeEntry::Item { id: 2, disabled: false, .. }
    ));
}

#[test]
fn test_nested_submenu_numbering() {
    // Two levels of nesting: the counter is shared, never reset per
    // submenu.
    let builder = MenuBuilder::new()
        .item("A", E::E1)
        .submenu(
            "S1",
            MenuBuilder::new()
                .item("B", E::E2)
                .submenu("S2", MenuBuilder::new().item("C", E::E3)),
        )
        .item("D", E::E4);
    let menusys = build_menu(&builder).unwrap();
    assert_eq!(
        menusys.events,
        vec![(1, E::E1), (2, E::E2), (3, E::E3), (4, E::E4)]
    );
    assert_eq!(menusys.menu.child_menus.len(), 1);
    assert_eq!(menusys.menu.child_menus[0].child_menus.len(), 1);
}
