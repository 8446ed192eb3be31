use trayicon::menu::MenuBuilder;
use trayicon::winnotifyicon::{ShellOp, WinNotifyIcon};
use trayicon::wintrayicon::{
    OsEnv, WinTrayIconImpl, HIWORD, LOWORD, WM_COMMAND, WM_LBUTTONDBLCLK, WM_LBUTTONUP,
    WM_NCDESTROY, WM_RBUTTONUP, WM_USER_TRAYICON,
};
use trayicon::{build_trayicon, Error, Icon, TrayIconBuilder, TrayIconSender};

#[derive(Copy, Clone, Eq, PartialEq, Debug)]
enum Events {
    Clicked,
    DoubleClicked,
    RightClicked,
    Menu1,
    Menu2,
}

fn ico() -> &'static [u8] {
    &[
        0x00, 0x00, 0x01, 0x00, 0x01, 0x00, 16, 16, 0x00, 0x00, 0x01, 0x00, 0x20, 0x00, 0x04,
        0x00, 0x00, 0x00, 0x16, 0x00, 0x00, 0x00, 0xde, 0xad, 0xbe, 0xef,
    ]
}

fn env() -> OsEnv {
    OsEnv { hwnd: 42, taskbar_created_msg: 49286, cursor_x: 10, cursor_y: 20 }
}

fn base_builder() -> TrayIconBuilder<Events> {
    TrayIconBuilder::new()
        .icon(Icon::from_buffer(ico(), None, None).unwrap())
        .sender(TrayIconSender::new())
}

#[test]
fn test_loword_hiword() {
    assert_eq!(LOWORD(0x12345678), 0x5678);
    assert_eq!(HIWORD(0x12345678), 0x1234);
    assert_eq!(LOWORD(0x0000ffff), 0xffff);
    assert_eq!(HIWORD(0x0000ffff), 0x0000);
}

#[test]
fn test_build_without_sender_fails() {
    // No channel sender: construction fails with SenderMissing and no
    // window or registration is left behind.
    let builder: TrayIconBuilder<Events> =
        TrayIconBuilder::new().icon(Icon::from_buffer(ico(), None, None).unwrap());
    assert!(matches!(build_trayicon(&env(), builder), Err(Error::SenderMissing)));
}

#[test]
fn test_build_without_icon_fails() {
    let builder: TrayIconBuilder<Events> = TrayIconBuilder::new().sender(TrayIconSender::new());
    assert!(matches!(build_trayicon(&env(), builder), Err(Error::IconLoadingFailed)));
}

#[test]
fn test_build_with_malformed_icon_fails() {
    // The decode failure recorded in the builder is reported by the build.
    let builder: TrayIconBuilder<Events> = TrayIconBuilder::new()
        .icon_from_buffer(&[1, 2, 3])
        .sender(TrayIconSender::new());
    assert!(matches!(build_trayicon(&env(), builder), Err(Error::IconLoadingFailed)));
}

#[test]
fn test_build_registers_notify_icon() {
    let wb = build_trayicon(&env(), base_builder().tooltip("hello")).unwrap();
    assert!(!wb.destroyed);
    assert!(wb.window.notify_icon.registered);
    assert_eq!(wb.window.notify_icon.hwnd, Some(42));
    assert_eq!(wb.window.notify_icon.shell_ops, vec![ShellOp::Add]);
    assert_eq!(wb.window.notify_icon.tooltip, "hello");
    assert_eq!(wb.window.msg_taskbarcreated, Some(49286));
    assert_eq!(wb.window.sender.sent, vec![]);
}

#[test]
fn test_left_click_emits_one_event() {
    // A left-button-up payload with on-click configured emits exactly one
    // event on the channel.
    let mut wb =
        build_trayicon(&env(), base_builder().on_click(Events::Clicked)).unwrap();
    let e = env();
    wb.window.wndproc(&e, WM_USER_TRAYICON, 0, WM_LBUTTONUP as usize);
    assert_eq!(wb.window.sender.sent, vec![Events::Clicked]);
}

#[test]
fn test_double_click_emits_event() {
    let mut wb =
        build_trayicon(&env(), base_builder().on_double_click(Events::DoubleClicked)).unwrap();
    let e = env();
    wb.window.wndproc(&e, WM_USER_TRAYICON, 0, WM_LBUTTONDBLCLK as usize);
    assert_eq!(wb.window.sender.sent, vec![Events::DoubleClicked]);
}

#[test]
fn test_click_without_handler_emits_nothing() {
    let mut wb = build_trayicon(&env(), base_builder()).unwrap();
    let e = env();
    wb.window.wndproc(&e, WM_USER_TRAYICON, 0, WM_LBUTTONUP as usize);
    wb.window.wndproc(&e, WM_USER_TRAYICON, 0, WM_LBUTTONDBLCLK as usize);
    wb.window.wndproc(&e, WM_USER_TRAYICON, 0, WM_RBUTTONUP as usize);
    assert_eq!(wb.window.sender.sent, vec![]);
}

#[test]
fn test_right_click_shows_menu_at_cursor() {
    let menu = MenuBuilder::new().item("One", Events::Menu1);
    let mut wb = build_trayicon(
        &env(),
        base_builder().menu(menu).on_right_click(Events::RightClicked),
    )
    .unwrap();
    let e = env();
    wb.window.wndproc(&e, WM_USER_TRAYICON, 0, WM_RBUTTONUP as usize);
    assert_eq!(wb.window.sender.sent, vec![Events::RightClicked]);
    let sys = wb.window.menu.as_ref().unwrap();
    assert_eq!(sys.menu.tracks, vec![(10, 20)]);
}

#[test]
fn test_menu_command_resolves_event() {
    let menu = MenuBuilder::new().item("One", Events::Menu1).item("Two", Events::Menu2);
    let mut wb = build_trayicon(&env(), base_builder().menu(menu)).unwrap();
    let e = env();
    wb.window.wndproc(&e, WM_COMMAND, 2, 0);
    assert_eq!(wb.window.sender.sent, vec![Events::Menu2]);
}

#[test]
fn test_unresolvable_menu_command_is_ignored() {
    // A command identifier not present in the current compiled map emits
    // nothing and does not panic.
    let menu = MenuBuilder::new().item("One", Events::Menu1);
    let mut wb = build_trayicon(&env(), base_builder().menu(menu)).unwrap();
    let e = env();
    wb.window.wndproc(&e, WM_COMMAND, 999, 0);
    wb.window.wndproc(&e, WM_COMMAND, 0, 0);
    assert_eq!(wb.window.sender.sent, vec![]);
}

#[test]
fn test_accelerator_command_is_ignored() {
    // A nonzero high-order word marks no menu command.
    let menu = MenuBuilder::new().item("One", Events::Menu1);
    let mut wb = build_trayicon(&env(), base_builder().menu(menu)).unwrap();
    let e = env();
    wb.window.wndproc(&e, WM_COMMAND, 0x0001_0001, 0);
    assert_eq!(wb.window.sender.sent, vec![]);
}

#[test]
fn test_taskbar_recreated_re_registers() {
    let mut wb = build_trayicon(&env(), base_builder()).unwrap();
    let e = env();
    wb.window.wndproc(&e, e.taskbar_created_msg, 0, 0);
    assert_eq!(
        wb.window.notify_icon.shell_ops,
        vec![ShellOp::Add, ShellOp::Add]
    );
    assert!(wb.window.notify_icon.registered);
}

#[test]
fn test_set_empty_menu_clears_popup() {
    // Setting an empty MenuBuilder on a live tray icon clears its menu: a
    // subsequent right-click shows no popup.
    let menu = MenuBuilder::new().item("One", Events::Menu1);
    let mut wb = build_trayicon(&env(), base_builder().menu(menu)).unwrap();
    assert!(wb.window.menu.is_some());
    wb.set_menu(&MenuBuilder::new()).unwrap();
    assert!(wb.window.menu.is_none());
    let e = env();
    wb.window.wndproc(&e, WM_USER_TRAYICON, 0, WM_RBUTTONUP as usize);
    assert!(wb.window.menu.is_none());
    assert_eq!(wb.window.sender.sent, vec![]);
}

#[test]
fn test_set_menu_replaces_wholesale() {
    let mut wb = build_trayicon(&env(), base_builder()).unwrap();
    assert!(wb.window.menu.is_none());
    wb.set_menu(&MenuBuilder::new().item("One", Events::Menu1)).unwrap();
    let e = env();
    wb.window.wndproc(&e, WM_COMMAND, 1, 0);
    assert_eq!(wb.window.sender.sent, vec![Events::Menu1]);
}

#[test]
fn test_set_tooltip_and_icon() {
    let mut wb = build_trayicon(&env(), base_builder()).unwrap();
    wb.set_tooltip("new tip").unwrap();
    assert_eq!(wb.window.notify_icon.tooltip, "new tip");
    let icon2 = Icon::from_buffer(ico(), Some(16), Some(16)).unwrap();
    wb.set_icon(&icon2).unwrap();
    assert_eq!(
        wb.window.notify_icon.shell_ops,
        vec![ShellOp::Add, ShellOp::Modify, ShellOp::Modify]
    );
}

#[test]
fn test_close_removes_notify_icon_exactly_once() {
    // Dropping the tray window handle results in exactly one notify-icon
    // removal and no duplicate release.
    let mut wb = build_trayicon(&env(), base_builder()).unwrap();
    let e = env();
    wb.close(&e);
    assert!(wb.destroyed);
    assert!(!wb.window.notify_icon.registered);
    assert_eq!(
        wb.window.notify_icon.shell_ops,
        vec![ShellOp::Add, ShellOp::Delete]
    );
    wb.close(&e);
    assert_eq!(
        wb.window.notify_icon.shell_ops,
        vec![ShellOp::Add, ShellOp::Delete]
    );
}

#[test]
fn test_winproc_destroy_and_after() {
    let mut wb = build_trayicon(&env(), base_builder().on_click(Events::Clicked)).unwrap();
    let e = env();
    let r = WinTrayIconImpl::winproc(&mut wb, &e, WM_NCDESTROY, 0, 0);
    assert_eq!(r, 0);
    assert!(wb.destroyed);
    assert_eq!(
        wb.window.notify_icon.shell_ops,
        vec![ShellOp::Add, ShellOp::Delete]
    );
    // Messages to a released window get default processing only.
    let r = WinTrayIconImpl::winproc(&mut wb, &e, WM_USER_TRAYICON, 0, WM_LBUTTONUP as usize);
    assert_eq!(r, 0);
    assert_eq!(wb.window.sender.sent, vec![]);
}

#[test]
fn test_unknown_message_gets_default_processing() {
    let mut wb = build_trayicon(&env(), base_builder().on_click(Events::Clicked)).unwrap();
    let e = env();
    let r = wb.window.wndproc(&e, 0x0084, 7, 9);
    assert_eq!(r, 0);
    assert_eq!(wb.window.sender.sent, vec![]);
    assert_eq!(wb.window.notify_icon.shell_ops, vec![ShellOp::Add]);
}

#[test]
fn test_modify_before_registration_is_os_error() {
    // A modify call against the shell fails while no registration is
    // live; the stored text is swapped anyway.
    let icon = Icon::from_buffer(ico(), None, None).unwrap();
    let notify_icon = WinNotifyIcon::new(&icon.sys, &None, 1001);
    let mut window: WinTrayIconImpl<Events> = WinTrayIconImpl {
        hwnd: 42,
        sender: TrayIconSender::new(),
        menu: None,
        notify_icon,
        on_click: None,
        on_double_click: None,
        on_right_click: None,
        msg_taskbarcreated: None,
    };
    assert!(matches!(window.set_tooltip("tip"), Err(Error::OsError)));
    assert_eq!(window.notify_icon.tooltip, "tip");
    assert!(matches!(window.set_icon(&icon), Err(Error::OsError)));
}
