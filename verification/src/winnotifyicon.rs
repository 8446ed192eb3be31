//! The notify-icon wrapper: the registration record of one tray icon
//! against the OS shell.
//!
//! The shell side is modeled by the ordered log of notification calls
//! issued (`shell_ops`) and by the current registration state
//! (`registered`). The wrapper remembers everything needed to re-register
//! itself after the shell signals that the taskbar was recreated: the
//! owning window, the icon handle, the tooltip, a process-unique icon
//! identifier and the callback message identifier.

use vstd::prelude::*;
use crate::winhicon::WinHIcon;
use crate::wintrayicon::WM_USER_TRAYICON;

verus! {

/// One call issued to the shell's notification API.
#[derive(Clone, Copy, Debug, PartialEq, Eq, Structural)]
pub enum ShellOp {
    /// Registering the tray entry.
    Add,
    /// Removing the tray entry.
    Delete,
    /// Modifying the registered icon or tooltip.
    Modify,
}

/// The registration record of a single tray icon.
#[derive(Debug)]
pub struct WinNotifyIcon {
    /// A duplicate of the icon handle currently shown.
    pub winhicon: WinHIcon,
    /// The tooltip text currently registered (empty when none was given).
    pub tooltip: String,
    /// A process-unique identifier for this tray entry.
    pub id: u32,
    /// The message identifier the shell delivers tray callbacks with.
    pub callback_msg: u32,
    /// The window owning the registration, once added.
    pub hwnd: Option<usize>,
    /// Whether the shell currently holds this registration.
    pub registered: bool,
    /// The ordered log of shell notification calls issued.
    pub shell_ops: Vec<ShellOp>,
}

impl WinNotifyIcon {
    /// Prepares a registration record from a duplicate of `winhicon`; no
    /// shell call is issued yet. The identifier must be unique within the
    /// process and is injected by the caller.
    pub fn new(winhicon: &WinHIcon, tooltip: &Option<String>, id: u32) -> (r: WinNotifyIcon)
        ensures
            r.winhicon == *winhicon,
            r.tooltip@ == match tooltip {
                Some(t) => t@,
                None => Seq::<char>::empty(),
            },
            r.id == id,
            r.callback_msg == WM_USER_TRAYICON,
            r.hwnd is None,
            !r.registered,
            r.shell_ops@.len() == 0,
    {
        let tip = match tooltip {
            Some(t) => t.clone(),
            None => String::new(),
        };
        WinNotifyIcon {
            winhicon: winhicon.clone(),
            tooltip: tip,
            id,
            callback_msg: WM_USER_TRAYICON,
            hwnd: None,
            registered: false,
            shell_ops: Vec::new(),
        }
    }

    /// Registers the tray entry with the shell, owned by window `hwnd`.
    pub fn add(&mut self, hwnd: usize) -> (r: bool)
        ensures
            final(self).hwnd == Some(hwnd),
            final(self).registered,
            final(self).shell_ops@ == old(self).shell_ops@.push(ShellOp::Add),
            final(self).winhicon == old(self).winhicon,
            final(self).tooltip == old(self).tooltip,
            final(self).id == old(self).id,
            final(self).callback_msg == old(self).callback_msg,
            r,
    {
        self.hwnd = Some(hwnd);
        self.registered = true;
        self.shell_ops.push(ShellOp::Add);
        true
    }

    /// Removes the tray entry from the shell; reports whether a
    /// registration existed to remove.
    pub fn remove(&mut self) -> (r: bool)
        ensures
            !final(self).registered,
            final(self).shell_ops@ == old(self).shell_ops@.push(ShellOp::Delete),
            final(self).winhicon == old(self).winhicon,
            final(self).tooltip == old(self).tooltip,
            final(self).id == old(self).id,
            final(self).callback_msg == old(self).callback_msg,
            final(self).hwnd == old(self).hwnd,
            r == old(self).registered,
    {
        let was = self.registered;
        self.registered = false;
        self.shell_ops.push(ShellOp::Delete);
        was
    }

    /// Replaces the registered icon with a duplicate of `winhicon`;
    /// reports whether a live registration was there to modify.
    pub fn set_icon(&mut self, winhicon: &WinHIcon) -> (r: bool)
        ensures
            final(self).winhicon == *winhicon,
            final(self).shell_ops@ == old(self).shell_ops@.push(ShellOp::Modify),
            final(self).tooltip == old(self).tooltip,
            final(self).id == old(self).id,
            final(self).callback_msg == old(self).callback_msg,
            final(self).hwnd == old(self).hwnd,
            final(self).registered == old(self).registered,
            r == old(self).registered,
    {
        self.winhicon = winhicon.clone();
        self.shell_ops.push(ShellOp::Modify);
        self.registered
    }

    /// Replaces the registered tooltip text; reports whether a live
    /// registration was there to modify.
    pub fn set_tooltip(&mut self, tooltip: &str) -> (r: bool)
        ensures
            final(self).tooltip@ == tooltip@,
            final(self).shell_ops@ == old(self).shell_ops@.push(ShellOp::Modify),
            final(self).winhicon == old(self).winhicon,
            final(self).id == old(self).id,
            final(self).callback_msg == old(self).callback_msg,
            final(self).hwnd == old(self).hwnd,
            final(self).registered == old(self).registered,
            r == old(self).registered,
    {
        self.tooltip = tooltip.to_owned();
        self.shell_ops.push(ShellOp::Modify);
        self.registered
    }
}

} // verus!
