//! A system-tray icon widget, modeled for verification.
//!
//! The library centers on the menu-and-event identity model: a user-declared
//! menu tree is compiled into a native-style popup menu together with a map
//! from small integer command identifiers back to user event values. The
//! native windowing layer (icon, menu, notify-icon and window handles) is
//! modeled as explicit resource state, and window-message dispatch is a
//! verified transition function over that state.

use vstd::prelude::*;

pub mod menu;
pub mod winhicon;
pub mod winhmenu;
pub mod winnotifyicon;
pub mod wintrayicon;

use crate::menu::{events_of, menu_matches, MenuBuilder};
use crate::winhicon::{best_entry, entry_offset, entry_size, icon_ok, WinHIcon};
use crate::winnotifyicon::{ShellOp, WinNotifyIcon};
use crate::wintrayicon::{OsEnv, WinTrayIcon, WinTrayIconImpl, WM_USER_TRAYICON};

verus! {

/// The error taxonomy of the library.
#[derive(Clone, Copy, Debug, PartialEq, Eq, Structural)]
pub enum Error {
    /// The icon buffer was empty, malformed, or the OS refused to
    /// instantiate an icon from it; or no icon was supplied at all.
    IconLoadingFailed,
    /// Any other native-call failure.
    OsError,
    /// The builder was invoked without an event channel sender.
    SenderMissing,
}

/// The outbound event capability handed to the tray window: its only
/// operation is delivering one event to the application. The channel is
/// modeled by the ordered log of events sent through it; delivery order is
/// dispatch order.
#[derive(Debug)]
pub struct TrayIconSender<T> {
    pub sent: Vec<T>,
}

impl<T: Copy> TrayIconSender<T> {
    /// A fresh sender with nothing delivered yet.
    pub fn new() -> (r: Self)
        ensures
            r.sent@.len() == 0,
    {
        TrayIconSender { sent: Vec::new() }
    }

    /// Delivers one event to the application.
    pub fn send(&mut self, e: &T)
        ensures
            final(self).sent@ == old(self).sent@.push(*e),
    {
        self.sent.push(*e);
    }
}

/// An icon: an immutable value wrapping one icon resource handle.
#[derive(Debug)]
pub struct Icon {
    pub sys: WinHIcon,
}

impl Icon {
    /// Decodes an in-memory icon-directory buffer into an icon resource,
    /// choosing the entry best matching the requested dimensions. Fails
    /// with `IconLoadingFailed` exactly when the buffer is empty,
    /// malformed, or declares no usable image for the choice.
    pub fn from_buffer(buffer: &'static [u8], width: Option<u32>, height: Option<u32>) -> (r:
        Result<Icon, Error>)
        ensures
            (r is Ok) == icon_ok(
                buffer@,
                crate::winhicon::spec_dim(width),
                crate::winhicon::spec_dim(height),
            ),
            r matches Ok(ic) ==> {
                &&& ic.sys.alive
                &&& ic.sys.offset == entry_offset(
                    buffer@,
                    best_entry(
                        buffer@,
                        crate::winhicon::spec_dim(width),
                        crate::winhicon::spec_dim(height),
                    ),
                )
                &&& ic.sys.length == entry_size(
                    buffer@,
                    best_entry(
                        buffer@,
                        crate::winhicon::spec_dim(width),
                        crate::winhicon::spec_dim(height),
                    ),
                )
            },
            r matches Err(e) ==> e == Error::IconLoadingFailed,
    {
        match WinHIcon::from_buffer(buffer, width, height) {
            Ok(sys) => Ok(Icon { sys }),
            Err(e) => Err(e),
        }
    }
}

impl Clone for Icon {
    /// Duplicates the underlying resource at the OS level; the two icons
    /// are independently destructible.
    fn clone(&self) -> (r: Self)
        ensures
            r == *self,
    {
        Icon { sys: self.sys.clone() }
    }
}

/// The user-facing configuration of one tray icon: icon, tooltip, click
/// events, menu tree, outbound sender and the process-unique identifier
/// for the shell registration.
#[derive(Debug)]
pub struct TrayIconBuilder<T> {
    /// The supplied icon, or the error its decoding produced; starts as
    /// "no icon supplied".
    pub icon: Result<Icon, Error>,
    pub tooltip: Option<String>,
    pub on_click: Option<T>,
    pub on_double_click: Option<T>,
    pub on_right_click: Option<T>,
    pub menu: Option<MenuBuilder<T>>,
    pub sender: Option<TrayIconSender<T>>,
    /// The identifier used for the shell registration; must be unique
    /// within the process.
    pub icon_id: u32,
}

impl<T: Copy> TrayIconBuilder<T> {
    /// An empty configuration: no icon, no sender, no menu, no events.
    pub fn new() -> (r: Self)
        ensures
            r.icon == Err::<Icon, Error>(Error::IconLoadingFailed),
            r.tooltip is None,
            r.on_click is None,
            r.on_double_click is None,
            r.on_right_click is None,
            r.menu is None,
            r.sender is None,
            r.icon_id == 1001,
    {
        TrayIconBuilder {
            icon: Err(Error::IconLoadingFailed),
            tooltip: None,
            on_click: None,
            on_double_click: None,
            on_right_click: None,
            menu: None,
            sender: None,
            icon_id: 1001,
        }
    }

    /// Supplies the icon from an in-memory buffer, recording a decode
    /// failure for `build_trayicon` to report.
    pub fn icon_from_buffer(self, buffer: &'static [u8]) -> (r: Self)
        ensures
            (r.icon is Ok) == icon_ok(buffer@, 0, 0),
            r.icon matches Err(e) ==> e == Error::IconLoadingFailed,
            r.tooltip == self.tooltip,
            r.on_click == self.on_click,
            r.on_double_click == self.on_double_click,
            r.on_right_click == self.on_right_click,
            r.menu == self.menu,
            r.sender == self.sender,
            r.icon_id == self.icon_id,
    {
        let mut s = self;
        s.icon = Icon::from_buffer(buffer, None, None);
        s
    }

    /// Supplies an already decoded icon.
    pub fn icon(self, icon: Icon) -> (r: Self)
        ensures
            r.icon == Ok::<Icon, Error>(icon),
            r.tooltip == self.tooltip,
            r.on_click == self.on_click,
            r.on_double_click == self.on_double_click,
            r.on_right_click == self.on_right_click,
            r.menu == self.menu,
            r.sender == self.sender,
            r.icon_id == self.icon_id,
    {
        let mut s = self;
        s.icon = Ok(icon);
        s
    }

    /// Supplies the tooltip text.
    pub fn tooltip(self, text: &str) -> (r: Self)
        ensures
            r.tooltip matches Some(t) && t@ == text@,
            r.icon == self.icon,
            r.on_click == self.on_click,
            r.on_double_click == self.on_double_click,
            r.on_right_click == self.on_right_click,
            r.menu == self.menu,
            r.sender == self.sender,
            r.icon_id == self.icon_id,
    {
        let mut s = self;
        s.tooltip = Some(text.to_owned());
        s
    }

    /// Supplies the event fired on a single left click.
    pub fn on_click(self, event: T) -> (r: Self)
        ensures
            r.on_click == Some(event),
            r.icon == self.icon,
            r.tooltip == self.tooltip,
            r.on_double_click == self.on_double_click,
            r.on_right_click == self.on_right_click,
            r.menu == self.menu,
            r.sender == self.sender,
            r.icon_id == self.icon_id,
    {
        let mut s = self;
        s.on_click = Some(event);
        s
    }

    /// Supplies the event fired on a left double-click.
    pub fn on_double_click(self, event: T) -> (r: Self)
        ensures
            r.on_double_click == Some(event),
            r.icon == self.icon,
            r.tooltip == self.tooltip,
            r.on_click == self.on_click,
            r.on_right_click == self.on_right_click,
            r.menu == self.menu,
            r.sender == self.sender,
            r.icon_id == self.icon_id,
    {
        let mut s = self;
        s.on_double_click = Some(event);
        s
    }

    /// Supplies the event fired on a right click.
    pub fn on_right_click(self, event: T) -> (r: Self)
        ensures
            r.on_right_click == Some(event),
            r.icon == self.icon,
            r.tooltip == self.tooltip,
            r.on_click == self.on_click,
            r.on_double_click == self.on_double_click,
            r.menu == self.menu,
            r.sender == self.sender,
            r.icon_id == self.icon_id,
    {
        let mut s = self;
        s.on_right_click = Some(event);
        s
    }

    /// Supplies the declarative menu tree.
    pub fn menu(self, menu: MenuBuilder<T>) -> (r: Self)
        ensures
            r.menu == Some(menu),
            r.icon == self.icon,
            r.tooltip == self.tooltip,
            r.on_click == self.on_click,
            r.on_double_click == self.on_double_click,
            r.on_right_click == self.on_right_click,
            r.sender == self.sender,
            r.icon_id == self.icon_id,
    {
        let mut s = self;
        s.menu = Some(menu);
        s
    }

    /// Supplies the outbound event sender.
    pub fn sender(self, sender: TrayIconSender<T>) -> (r: Self)
        ensures
            r.sender == Some(sender),
            r.icon == self.icon,
            r.tooltip == self.tooltip,
            r.on_click == self.on_click,
            r.on_double_click == self.on_double_click,
            r.on_right_click == self.on_right_click,
            r.menu == self.menu,
            r.icon_id == self.icon_id,
    {
        let mut s = self;
        s.sender = Some(sender);
        s
    }

    /// Overrides the process-unique shell registration identifier.
    pub fn icon_id(self, id: u32) -> (r: Self)
        ensures
            r.icon_id == id,
            r.icon == self.icon,
            r.tooltip == self.tooltip,
            r.on_click == self.on_click,
            r.on_double_click == self.on_double_click,
            r.on_right_click == self.on_right_click,
            r.menu == self.menu,
            r.sender == self.sender,
    {
        let mut s = self;
        s.icon_id = id;
        s
    }
}

/// Builds the tray icon from a configuration: validates that an icon and a
/// sender were supplied, compiles the optional menu tree, registers the
/// notify icon and creates the tray window. Failures abort the build and
/// leave no tray icon behind; a missing or failed icon is reported first,
/// then a missing sender.
pub fn build_trayicon<T: Copy>(env: &OsEnv, builder: TrayIconBuilder<T>) -> (r: Result<
    WinTrayIcon<T>,
    Error,
>)
    requires
        env.wf(),
        builder.menu matches Some(mb) ==> events_of(mb.menu_items@).len() <= usize::MAX,
    ensures
        builder.icon matches Err(e) ==> r == Err::<WinTrayIcon<T>, Error>(e),
        builder.icon is Ok && builder.sender is None ==> r == Err::<WinTrayIcon<T>, Error>(
            Error::SenderMissing,
        ),
        (builder.icon is Ok && builder.sender is Some) ==> (r matches Ok(wb) && {
            &&& !wb.destroyed
            &&& wb.window.hwnd == env.hwnd
            &&& wb.window.sender == builder.sender->Some_0
            &&& wb.window.on_click == builder.on_click
            &&& wb.window.on_double_click == builder.on_double_click
            &&& wb.window.on_right_click == builder.on_right_click
            &&& wb.window.msg_taskbarcreated == Some(env.taskbar_created_msg)
            &&& wb.window.notify_icon.registered
            &&& wb.window.notify_icon.hwnd == Some(env.hwnd)
            &&& wb.window.notify_icon.shell_ops@ == seq![ShellOp::Add]
            &&& wb.window.notify_icon.winhicon == builder.icon->Ok_0.sys
            &&& wb.window.notify_icon.id == builder.icon_id
            &&& wb.window.notify_icon.callback_msg == WM_USER_TRAYICON
            &&& wb.window.notify_icon.tooltip@ == match builder.tooltip {
                Some(t) => t@,
                None => Seq::<char>::empty(),
            }
            &&& (builder.menu is None ==> wb.window.menu is None)
            &&& (builder.menu matches Some(mb) ==> (wb.window.menu matches Some(sys) && {
                &&& sys.events@.len() == events_of(mb.menu_items@).len()
                &&& forall|k: int|
                    0 <= k < sys.events@.len() ==> (#[trigger] sys.events@[k]).0 == k + 1
                        && sys.events@[k].1 == events_of(mb.menu_items@)[k]
                &&& menu_matches(sys.menu, mb.menu_items@, 0)
            }))
            &&& wb.window.wf()
        }),
{
    let icon = match builder.icon {
        Ok(i) => i,
        Err(e) => return Err(e),
    };
    let sender = match builder.sender {
        Some(s) => s,
        None => return Err(Error::SenderMissing),
    };
    let notify_icon = WinNotifyIcon::new(&icon.sys, &builder.tooltip, builder.icon_id);
    let menusys = match builder.menu {
        Some(mb) => match crate::menu::build_menu(&mb) {
            Ok(sys) => Some(sys),
            Err(e) => return Err(e),
        },
        None => None,
    };
    proof {
        assert(notify_icon.shell_ops@.push(ShellOp::Add) =~= seq![ShellOp::Add]);
    }
    WinTrayIconImpl::new(
        env,
        sender,
        menusys,
        notify_icon,
        builder.on_click,
        builder.on_double_click,
        builder.on_right_click,
    )
}

} // verus!
