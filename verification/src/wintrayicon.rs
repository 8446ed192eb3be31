//! The tray window and its message dispatch.
//!
//! The tray icon needs one hidden window to receive OS messages. The window
//! and its procedure are modeled as explicit state plus a verified
//! transition function: dispatching one message is a function of the
//! message, the window state and the inputs the OS supplies (`OsEnv`),
//! yielding the next state and the events pushed onto the outbound channel.
//! `wndproc_rel` is that transition relation; `wndproc` implements it.

use vstd::prelude::*;
use crate::{Error, Icon, TrayIconSender};
use crate::menu::{build_menu, events_of, menu_matches, MenuBuilder, MenuSys};
use crate::winnotifyicon::{ShellOp, WinNotifyIcon};

verus! {

/// The window-creation message.
pub const WM_CREATE: u32 = 0x0001;

/// The close request a dropped owning handle posts to the window.
pub const WM_CLOSE: u32 = 0x0010;

/// The final destroy notification, after which the window state is freed.
pub const WM_NCDESTROY: u32 = 0x0082;

/// The menu-command message; the chosen command identifier rides in the
/// low-order word of its first payload.
pub const WM_COMMAND: u32 = 0x0111;

/// Mouse action code: the left button was released.
pub const WM_LBUTTONUP: u32 = 0x0202;

/// Mouse action code: the left button was double-clicked.
pub const WM_LBUTTONDBLCLK: u32 = 0x0203;

/// Mouse action code: the right button was released.
pub const WM_RBUTTONUP: u32 = 0x0205;

/// Private message: bind the window state on creation.
pub const WM_USER_CREATE: u32 = 0x0400 + 1000;

/// Private message: the tray-icon callback, carrying the mouse action code
/// in its second payload.
pub const WM_USER_TRAYICON: u32 = 0x0400 + 1001;

/// The low-order word of a 32-bit value.
pub open spec fn loword_spec(l: u32) -> u16 {
    (l % 0x10000) as u16
}

/// The high-order word of a 32-bit value.
pub open spec fn hiword_spec(l: u32) -> u16 {
    (l / 0x10000) as u16
}

/// Extracts the low-order word.
#[allow(non_snake_case)]
pub fn LOWORD(l: u32) -> (r: u16)
    ensures
        r == loword_spec(l),
{
    proof {
        assert((l & 0xffff) == l % 0x10000) by (bit_vector);
    }
    (l & 0xffff) as u16
}

/// Extracts the high-order word.
#[allow(non_snake_case)]
pub fn HIWORD(l: u32) -> (r: u16)
    ensures
        r == hiword_spec(l),
{
    proof {
        assert(((l >> 16) & 0xffff) == l / 0x10000) by (bit_vector);
    }
    ((l >> 16) & 0xffff) as u16
}

/// The inputs the OS supplies around message dispatch: the handle it
/// assigned to the created window, the process-specific identifier it
/// returned for the "taskbar created" broadcast registration (resolved by
/// name lookup, never a compile-time constant), and the current cursor
/// position.
#[derive(Clone, Copy)]
pub struct OsEnv {
    pub hwnd: usize,
    pub taskbar_created_msg: u32,
    pub cursor_x: i32,
    pub cursor_y: i32,
}

impl OsEnv {
    /// The identifier the OS returns for a registered window message lies
    /// in the range it reserves for them, `0xC000..=0xFFFF`; in particular
    /// it can collide with no predefined message, so the recovery arm of
    /// the dispatch relation is never shadowed by an earlier arm.
    pub open spec fn wf(self) -> bool {
        0xC000 <= self.taskbar_created_msg <= 0xFFFF
    }
}

/// The hidden tray window: the registered notify icon, the optional
/// compiled menu, the three optional click events, the outbound sender and
/// the remembered "taskbar created" message identifier.
#[derive(Debug)]
pub struct WinTrayIconImpl<T> {
    pub hwnd: usize,
    pub sender: TrayIconSender<T>,
    pub menu: Option<MenuSys<T>>,
    pub notify_icon: WinNotifyIcon,
    pub on_click: Option<T>,
    pub on_double_click: Option<T>,
    pub on_right_click: Option<T>,
    pub msg_taskbarcreated: Option<u32>,
}

/// The owning handle of the tray window. It retains the window state until
/// the destroy notification; `destroyed` records whether that state has
/// been released.
#[derive(Debug)]
pub struct WindowBox<T> {
    pub window: WinTrayIconImpl<T>,
    pub destroyed: bool,
}

/// The platform name of the owning handle.
pub type WinTrayIcon<T> = WindowBox<T>;

/// The events one optional configured value contributes when it fires.
pub open spec fn opt_event<T>(o: Option<T>) -> Seq<T> {
    match o {
        Some(e) => seq![e],
        None => Seq::empty(),
    }
}

/// The events a menu-command payload resolves to: the low-order word of
/// the payload is looked up in the compiled map when the high-order word
/// marks a menu command; unresolvable identifiers contribute nothing.
pub open spec fn command_events<T>(menu: Option<MenuSys<T>>, wparam: usize) -> Seq<T> {
    if hiword_spec(wparam as u32) == 0 {
        match menu {
            Some(m) => match m.spec_lookup(loword_spec(wparam as u32) as usize) {
                Some(e) => seq![e],
                None => Seq::empty(),
            },
            None => Seq::empty(),
        }
    } else {
        Seq::empty()
    }
}

/// The notify icon after a (re-)registration against window `hwnd`.
pub open spec fn notify_added(pre: WinNotifyIcon, post: WinNotifyIcon, hwnd: usize) -> bool {
    &&& post.shell_ops@ == pre.shell_ops@.push(ShellOp::Add)
    &&& post.registered
    &&& post.hwnd == Some(hwnd)
    &&& post.winhicon == pre.winhicon
    &&& post.tooltip == pre.tooltip
    &&& post.id == pre.id
    &&& post.callback_msg == pre.callback_msg
}

/// The transition relation of one window-message dispatch: how `post`
/// follows from `pre` when `msg` arrives with the given payloads, with
/// `env` holding the inputs the OS supplies. Messages with no arm here are
/// delegated to default processing, which leaves the state unchanged.
pub open spec fn wndproc_rel<T>(
    pre: WinTrayIconImpl<T>,
    post: WinTrayIconImpl<T>,
    env: OsEnv,
    msg: u32,
    wparam: usize,
    lparam: usize,
) -> bool {
    &&& post.hwnd == pre.hwnd
    &&& post.on_click == pre.on_click
    &&& post.on_double_click == pre.on_double_click
    &&& post.on_right_click == pre.on_right_click
    &&& if msg == WM_CREATE {
        // Create the notification-area entry, owned by this window, and
        // register for the shell's restart broadcast, remembering the
        // returned identifier.
        &&& notify_added(pre.notify_icon, post.notify_icon, pre.hwnd)
        &&& post.msg_taskbarcreated == Some(env.taskbar_created_msg)
        &&& post.sender == pre.sender
        &&& post.menu == pre.menu
    } else if msg == WM_USER_TRAYICON {
        &&& post.notify_icon == pre.notify_icon
        &&& post.msg_taskbarcreated == pre.msg_taskbarcreated
        &&& if lparam as u32 == WM_LBUTTONUP {
            &&& post.sender.sent@ == pre.sender.sent@ + opt_event(pre.on_click)
            &&& post.menu == pre.menu
        } else if lparam as u32 == WM_RBUTTONUP {
            // The right-click event fires if configured; if a compiled
            // menu is present it is displayed at the cursor.
            &&& post.sender.sent@ == pre.sender.sent@ + opt_event(pre.on_right_click)
            &&& (pre.menu is None ==> post.menu is None)
            &&& (pre.menu matches Some(om) ==> (post.menu matches Some(fm) && fm.events
                == om.events && fm.menu.entries == om.menu.entries && fm.menu.child_menus
                == om.menu.child_menus && fm.menu.tracks@ == om.menu.tracks@.push(
                (env.cursor_x, env.cursor_y),
            )))
        } else if lparam as u32 == WM_LBUTTONDBLCLK {
            &&& post.sender.sent@ == pre.sender.sent@ + opt_event(pre.on_double_click)
            &&& post.menu == pre.menu
        } else {
            &&& post.sender == pre.sender
            &&& post.menu == pre.menu
        }
    } else if msg == WM_COMMAND {
        &&& post.notify_icon == pre.notify_icon
        &&& post.msg_taskbarcreated == pre.msg_taskbarcreated
        &&& post.menu == pre.menu
        &&& post.sender.sent@ == pre.sender.sent@ + command_events(pre.menu, wparam)
    } else if pre.msg_taskbarcreated == Some(msg) {
        // The shell was restarted and discarded all registrations: re-add
        // the notify icon. This is the sole recovery path.
        &&& notify_added(pre.notify_icon, post.notify_icon, pre.hwnd)
        &&& post.msg_taskbarcreated == pre.msg_taskbarcreated
        &&& post.sender == pre.sender
        &&& post.menu == pre.menu
    } else {
        post == pre
    }
}

impl<T> WinTrayIconImpl<T> {
    /// The window's compiled menu, when present, has a well-formed
    /// identifier map, and the remembered broadcast identifier, once
    /// resolved, lies in the range the OS assigns registered messages.
    pub open spec fn wf(self) -> bool {
        &&& (self.menu matches Some(m) ==> m.wf())
        &&& (self.msg_taskbarcreated matches Some(m) ==> 0xC000 <= m <= 0xFFFF)
    }
}

impl<T: Copy> WinTrayIconImpl<T> {
    /// Creates the tray window: the state is set up, the OS creates the
    /// native window, and the creation message is dispatched before any
    /// other message can arrive.
    pub fn new(
        env: &OsEnv,
        sender: TrayIconSender<T>,
        menu: Option<MenuSys<T>>,
        notify_icon: WinNotifyIcon,
        on_click: Option<T>,
        on_double_click: Option<T>,
        on_right_click: Option<T>,
    ) -> (r: Result<WinTrayIcon<T>, Error>)
        requires
            env.wf(),
            menu matches Some(m) ==> m.wf(),
        ensures
            r matches Ok(wb) && {
                &&& !wb.destroyed
                &&& wb.window.hwnd == env.hwnd
                &&& wb.window.sender == sender
                &&& wb.window.menu == menu
                &&& wb.window.on_click == on_click
                &&& wb.window.on_double_click == on_double_click
                &&& wb.window.on_right_click == on_right_click
                &&& wb.window.msg_taskbarcreated == Some(env.taskbar_created_msg)
                &&& notify_added(notify_icon, wb.window.notify_icon, env.hwnd)
                &&& wb.window.wf()
            },
    {
        let mut window = WinTrayIconImpl {
            hwnd: env.hwnd,
            sender,
            menu,
            notify_icon,
            on_click,
            on_double_click,
            on_right_click,
            msg_taskbarcreated: None,
        };
        window.wndproc(env, WM_CREATE, 0, 0);
        Ok(WindowBox { window, destroyed: false })
    }

    /// Dispatches one window message: implements `wndproc_rel` and returns
    /// the result default processing yields.
    pub fn wndproc(&mut self, env: &OsEnv, msg: u32, wparam: usize, lparam: usize) -> (r: isize)
        requires
            old(self).wf(),
            env.wf(),
        ensures
            wndproc_rel(*old(self), *final(self), *env, msg, wparam, lparam),
            final(self).wf(),
            r == 0,
    {
        if msg == WM_CREATE {
            let hwnd = self.hwnd;
            self.notify_icon.add(hwnd);
            self.msg_taskbarcreated = Some(env.taskbar_created_msg);
        } else if msg == WM_USER_TRAYICON {
            let code = lparam as u32;
            if code == WM_LBUTTONUP {
                if let Some(e) = &self.on_click {
                    self.sender.send(e);
                }
                proof {
                    assert(self.sender.sent@ =~= old(self).sender.sent@ + opt_event(
                        old(self).on_click,
                    ));
                }
            } else if code == WM_RBUTTONUP {
                if let Some(e) = &self.on_right_click {
                    self.sender.send(e);
                }
                proof {
                    assert(self.sender.sent@ =~= old(self).sender.sent@ + opt_event(
                        old(self).on_right_click,
                    ));
                }
                let hwnd = self.hwnd;
                if let Some(m) = &mut self.menu {
                    m.menu.track(hwnd, env.cursor_x, env.cursor_y);
                }
            } else if code == WM_LBUTTONDBLCLK {
                if let Some(e) = &self.on_double_click {
                    self.sender.send(e);
                }
                proof {
                    assert(self.sender.sent@ =~= old(self).sender.sent@ + opt_event(
                        old(self).on_double_click,
                    ));
                }
            }
        } else if msg == WM_COMMAND {
            let identifier = LOWORD(wparam as u32);
            let cmd = HIWORD(wparam as u32);
            if cmd == 0 {
                if let Some(m) = &self.menu {
                    if let Some(event) = m.get(identifier as usize) {
                        self.sender.send(&event);
                    }
                }
            }
            proof {
                assert(self.sender.sent@ =~= old(self).sender.sent@ + command_events(
                    old(self).menu,
                    wparam,
                ));
            }
        } else {
            let is_taskbar_created = match self.msg_taskbarcreated {
                Some(m) => m == msg,
                None => false,
            };
            if is_taskbar_created {
                let hwnd = self.hwnd;
                self.notify_icon.add(hwnd);
            }
        }
        0
    }

    /// The window-procedure conduit the OS calls: recovers the owning
    /// state for the window and routes the message, releasing the state on
    /// the final destroy notification. A close request is processed by
    /// default handling into the destroy sequence; messages to an already
    /// released window get default processing only.
    pub fn winproc(win: &mut WindowBox<T>, env: &OsEnv, msg: u32, wparam: usize, lparam: usize) -> (r:
        isize)
        requires
            old(win).window.wf(),
            env.wf(),
        ensures
            final(win).window.wf(),
            r == 0,
            old(win).destroyed ==> *final(win) == *old(win),
            !old(win).destroyed && (msg == WM_CLOSE || msg == WM_NCDESTROY) ==> {
                &&& final(win).destroyed
                &&& notify_removed(old(win).window, final(win).window)
            },
            !old(win).destroyed && msg != WM_CLOSE && msg != WM_NCDESTROY ==> {
                &&& !final(win).destroyed
                &&& wndproc_rel(old(win).window, final(win).window, *env, msg, wparam, lparam)
            },
    {
        if win.destroyed {
            return 0;
        }
        if msg == WM_CLOSE || msg == WM_NCDESTROY {
            win.window.notify_icon.remove();
            win.destroyed = true;
            0
        } else {
            win.window.wndproc(env, msg, wparam, lparam)
        }
    }

    /// Replaces the registered tooltip; a failure reported by the shell
    /// leaves the previous registration intact but the stored text swapped.
    pub fn set_tooltip(&mut self, tooltip: &str) -> (r: Result<(), Error>)
        requires
            old(self).wf(),
        ensures
            final(self).wf(),
            final(self).notify_icon.tooltip@ == tooltip@,
            final(self).notify_icon.shell_ops@ == old(self).notify_icon.shell_ops@.push(
                ShellOp::Modify,
            ),
            final(self).notify_icon.registered == old(self).notify_icon.registered,
            final(self).notify_icon.winhicon == old(self).notify_icon.winhicon,
            final(self).notify_icon.id == old(self).notify_icon.id,
            final(self).notify_icon.callback_msg == old(self).notify_icon.callback_msg,
            final(self).notify_icon.hwnd == old(self).notify_icon.hwnd,
            final(self).menu == old(self).menu,
            final(self).sender == old(self).sender,
            final(self).hwnd == old(self).hwnd,
            final(self).on_click == old(self).on_click,
            final(self).on_double_click == old(self).on_double_click,
            final(self).on_right_click == old(self).on_right_click,
            final(self).msg_taskbarcreated == old(self).msg_taskbarcreated,
            r == if old(self).notify_icon.registered {
                Ok::<(), Error>(())
            } else {
                Err::<(), Error>(Error::OsError)
            },
    {
        if !self.notify_icon.set_tooltip(tooltip) {
            return Err(Error::OsError);
        }
        Ok(())
    }

    /// Replaces the shown icon; a failure reported by the shell surfaces
    /// as `OsError` and leaves the previous registration intact, with the
    /// stored handle swapped.
    pub fn set_icon(&mut self, icon: &Icon) -> (r: Result<(), Error>)
        requires
            old(self).wf(),
        ensures
            final(self).wf(),
            final(self).notify_icon.winhicon == icon.sys,
            final(self).notify_icon.shell_ops@ == old(self).notify_icon.shell_ops@.push(
                ShellOp::Modify,
            ),
            final(self).notify_icon.registered == old(self).notify_icon.registered,
            final(self).notify_icon.tooltip == old(self).notify_icon.tooltip,
            final(self).notify_icon.id == old(self).notify_icon.id,
            final(self).notify_icon.callback_msg == old(self).notify_icon.callback_msg,
            final(self).notify_icon.hwnd == old(self).notify_icon.hwnd,
            final(self).menu == old(self).menu,
            final(self).sender == old(self).sender,
            final(self).hwnd == old(self).hwnd,
            final(self).on_click == old(self).on_click,
            final(self).on_double_click == old(self).on_double_click,
            final(self).on_right_click == old(self).on_right_click,
            final(self).msg_taskbarcreated == old(self).msg_taskbarcreated,
            r == if old(self).notify_icon.registered {
                Ok::<(), Error>(())
            } else {
                Err::<(), Error>(Error::OsError)
            },
    {
        if !self.notify_icon.set_icon(&icon.sys) {
            return Err(Error::OsError);
        }
        Ok(())
    }

    /// Replaces the compiled menu wholesale; an empty menu tree clears the
    /// popup menu entirely, so a subsequent right-click shows nothing.
    pub fn set_menu(&mut self, menu: &MenuBuilder<T>) -> (r: Result<(), Error>)
        requires
            old(self).wf(),
            events_of(menu.menu_items@).len() <= usize::MAX,
        ensures
            final(self).wf(),
            menu.menu_items@.len() == 0 ==> final(self).menu is None,
            menu.menu_items@.len() > 0 ==> (final(self).menu matches Some(sys) && {
                &&& sys.events@.len() == events_of(menu.menu_items@).len()
                &&& forall|k: int|
                    0 <= k < sys.events@.len() ==> (#[trigger] sys.events@[k]).0 == k + 1
                        && sys.events@[k].1 == events_of(menu.menu_items@)[k]
                &&& menu_matches(sys.menu, menu.menu_items@, 0)
                &&& sys.menu.tracks@.len() == 0
            }),
            final(self).notify_icon == old(self).notify_icon,
            final(self).sender == old(self).sender,
            final(self).hwnd == old(self).hwnd,
            final(self).on_click == old(self).on_click,
            final(self).on_double_click == old(self).on_double_click,
            final(self).on_right_click == old(self).on_right_click,
            final(self).msg_taskbarcreated == old(self).msg_taskbarcreated,
            r is Ok,
    {
        if menu.menu_items.len() == 0 {
            self.menu = None;
        } else {
            match build_menu(menu) {
                Ok(sys) => self.menu = Some(sys),
                Err(e) => return Err(e),
            }
        }
        Ok(())
    }
}

/// The notify icon was removed from the shell exactly once and nothing
/// else of the window changed.
pub open spec fn notify_removed<T>(pre: WinTrayIconImpl<T>, post: WinTrayIconImpl<T>) -> bool {
    &&& !post.notify_icon.registered
    &&& post.notify_icon.shell_ops@ == pre.notify_icon.shell_ops@.push(ShellOp::Delete)
    &&& post.notify_icon.winhicon == pre.notify_icon.winhicon
    &&& post.notify_icon.tooltip == pre.notify_icon.tooltip
    &&& post.notify_icon.id == pre.notify_icon.id
    &&& post.notify_icon.callback_msg == pre.notify_icon.callback_msg
    &&& post.notify_icon.hwnd == pre.notify_icon.hwnd
    &&& post.sender == pre.sender
    &&& post.menu == pre.menu
    &&& post.hwnd == pre.hwnd
    &&& post.on_click == pre.on_click
    &&& post.on_double_click == pre.on_double_click
    &&& post.on_right_click == pre.on_right_click
    &&& post.msg_taskbarcreated == pre.msg_taskbarcreated
}

impl<T: Copy> WindowBox<T> {
    /// Drops the owning handle: posts the close request to the window and
    /// processes it through the destroy sequence, removing the notify icon
    /// exactly once and releasing the window state. Closing an already
    /// destroyed handle does nothing.
    pub fn close(&mut self, env: &OsEnv)
        requires
            old(self).window.wf(),
            env.wf(),
        ensures
            final(self).window.wf(),
            final(self).destroyed,
            !old(self).destroyed ==> notify_removed(old(self).window, final(self).window),
            old(self).destroyed ==> *final(self) == *old(self),
    {
        WinTrayIconImpl::winproc(self, env, WM_CLOSE, 0, 0);
    }

    /// Replaces the registered tooltip; a failure reported by the shell
    /// surfaces as `OsError` and leaves everything but the stored text
    /// unchanged. The window state must not have been released.
    pub fn set_tooltip(&mut self, tooltip: &str) -> (r: Result<(), Error>)
        requires
            old(self).window.wf(),
            !old(self).destroyed,
        ensures
            final(self).window.wf(),
            !final(self).destroyed,
            final(self).window.notify_icon.tooltip@ == tooltip@,
            final(self).window.notify_icon.shell_ops@ == old(
                self,
            ).window.notify_icon.shell_ops@.push(ShellOp::Modify),
            final(self).window.notify_icon.registered == old(self).window.notify_icon.registered,
            final(self).window.notify_icon.winhicon == old(self).window.notify_icon.winhicon,
            final(self).window.notify_icon.id == old(self).window.notify_icon.id,
            final(self).window.notify_icon.callback_msg == old(
                self,
            ).window.notify_icon.callback_msg,
            final(self).window.notify_icon.hwnd == old(self).window.notify_icon.hwnd,
            final(self).window.menu == old(self).window.menu,
            final(self).window.sender == old(self).window.sender,
            final(self).window.hwnd == old(self).window.hwnd,
            final(self).window.on_click == old(self).window.on_click,
            final(self).window.on_double_click == old(self).window.on_double_click,
            final(self).window.on_right_click == old(self).window.on_right_click,
            final(self).window.msg_taskbarcreated == old(self).window.msg_taskbarcreated,
            r == if old(self).window.notify_icon.registered {
                Ok::<(), Error>(())
            } else {
                Err::<(), Error>(Error::OsError)
            },
    {
        self.window.set_tooltip(tooltip)
    }

    /// Replaces the shown icon; a failure reported by the shell surfaces
    /// as `OsError` and leaves everything but the stored handle unchanged.
    /// The window state must not have been released.
    pub fn set_icon(&mut self, icon: &Icon) -> (r: Result<(), Error>)
        requires
            old(self).window.wf(),
            !old(self).destroyed,
        ensures
            final(self).window.wf(),
            !final(self).destroyed,
            final(self).window.notify_icon.winhicon == icon.sys,
            final(self).window.notify_icon.shell_ops@ == old(
                self,
            ).window.notify_icon.shell_ops@.push(ShellOp::Modify),
            final(self).window.notify_icon.registered == old(self).window.notify_icon.registered,
            final(self).window.notify_icon.tooltip == old(self).window.notify_icon.tooltip,
            final(self).window.notify_icon.id == old(self).window.notify_icon.id,
            final(self).window.notify_icon.callback_msg == old(
                self,
            ).window.notify_icon.callback_msg,
            final(self).window.notify_icon.hwnd == old(self).window.notify_icon.hwnd,
            final(self).window.menu == old(self).window.menu,
            final(self).window.sender == old(self).window.sender,
            final(self).window.hwnd == old(self).window.hwnd,
            final(self).window.on_click == old(self).window.on_click,
            final(self).window.on_double_click == old(self).window.on_double_click,
            final(self).window.on_right_click == old(self).window.on_right_click,
            final(self).window.msg_taskbarcreated == old(self).window.msg_taskbarcreated,
            r == if old(self).window.notify_icon.registered {
                Ok::<(), Error>(())
            } else {
                Err::<(), Error>(Error::OsError)
            },
    {
        self.window.set_icon(icon)
    }

    /// Replaces the compiled menu wholesale; an empty tree clears it, and
    /// a nonempty tree is compiled into the identifier map and native menu
    /// the menu-identity compiler yields. The window state must not have
    /// been released.
    pub fn set_menu(&mut self, menu: &MenuBuilder<T>) -> (r: Result<(), Error>)
        requires
            old(self).window.wf(),
            events_of(menu.menu_items@).len() <= usize::MAX,
            !old(self).destroyed,
        ensures
            final(self).window.wf(),
            !final(self).destroyed,
            menu.menu_items@.len() == 0 ==> final(self).window.menu is None,
            menu.menu_items@.len() > 0 ==> (final(self).window.menu matches Some(sys) && {
                &&& sys.events@.len() == events_of(menu.menu_items@).len()
                &&& forall|k: int|
                    0 <= k < sys.events@.len() ==> (#[trigger] sys.events@[k]).0 == k + 1
                        && sys.events@[k].1 == events_of(menu.menu_items@)[k]
                &&& menu_matches(sys.menu, menu.menu_items@, 0)
                &&& sys.menu.tracks@.len() == 0
            }),
            final(self).window.notify_icon == old(self).window.notify_icon,
            final(self).window.sender == old(self).window.sender,
            final(self).window.hwnd == old(self).window.hwnd,
            final(self).window.on_click == old(self).window.on_click,
            final(self).window.on_double_click == old(self).window.on_double_click,
            final(self).window.on_right_click == old(self).window.on_right_click,
            final(self).window.msg_taskbarcreated == old(self).window.msg_taskbarcreated,
            r is Ok,
    {
        self.window.set_menu(menu)
    }
}

} // verus!
