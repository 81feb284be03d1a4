//! Platform lockdown: which keys the system hooks swallow, and the bookkeeping that lets
//! the lockdown be released into the state it was engaged from. The operating-system
//! calls are made by the caller, which reports their outcomes back.
use vstd::prelude::*;

verus! {

/// Virtual-key code of Tab.
pub const VK_TAB: u16 = 0x09;
/// Virtual-key code of Escape.
pub const VK_ESCAPE: u16 = 0x1B;
/// Virtual-key code of the left Windows key.
pub const VK_LWIN: u16 = 0x5B;
/// Virtual-key code of the right Windows key.
pub const VK_RWIN: u16 = 0x5C;
/// Virtual-key code of F4.
pub const VK_F4: u16 = 0x73;
/// The low-level keyboard hook flag that says Alt is down.
pub const LLKHF_ALTDOWN: u32 = 0x20;

/// Whether the Windows keyboard hook swallows key `vk`: either Windows key, Alt+Tab,
/// Alt+F4 and Ctrl+Esc.
pub open spec fn blocked_key(vk: u16, alt_down: bool, ctrl_down: bool) -> bool {
    ||| vk == VK_LWIN
    ||| vk == VK_RWIN
    ||| vk == VK_TAB && alt_down
    ||| vk == VK_F4 && alt_down
    ||| vk == VK_ESCAPE && ctrl_down
}

/// The decision of the low-level keyboard hook for one event: `code` is the hook code
/// (negative codes are passed on untouched), `vk_code` the virtual-key code, whose low 16
/// bits count, `flags` the event flags, and `ctrl_down` whether Ctrl is held.
pub fn keyboard_hook_blocks(code: i32, vk_code: u32, flags: u32, ctrl_down: bool) -> (r: bool)
    ensures
        r == (code >= 0 && blocked_key(
            (vk_code % 0x10000) as u16,
            flags & LLKHF_ALTDOWN != 0,
            ctrl_down,
        )),
{
    if code < 0 {
        return false;
    }
    let vk = (vk_code & 0xFFFF) as u16;
    assert(vk_code & 0xFFFF == vk_code % 0x10000) by (bit_vector);
    let alt_down = flags & LLKHF_ALTDOWN != 0;
    vk == VK_LWIN || vk == VK_RWIN || (vk == VK_TAB && alt_down) || (vk == VK_F4 && alt_down)
        || (vk == VK_ESCAPE && ctrl_down)
}

/// The modifier flag of the Command key in an AppKit key event.
pub const NS_COMMAND_KEY_MASK: usize = 0x100000;

/// Whether a byte is one of the Command shortcuts that the lock swallows:
/// `q` (quit), `w` (close), `h` (hide), `m` (minimize).
pub open spec fn is_blocked_shortcut(b: u8) -> bool {
    b == 0x71 || b == 0x77 || b == 0x68 || b == 0x6d
}

/// Whether the AppKit key-down monitor swallows an event with these modifier flags whose
/// characters (ignoring modifiers) start with `first_byte` (`None` when there are none).
pub fn cmd_key_swallowed(modifier_flags: usize, first_byte: Option<u8>) -> (r: bool)
    ensures
        r == (modifier_flags & NS_COMMAND_KEY_MASK != 0 && match first_byte {
            Some(b) => is_blocked_shortcut(b),
            None => false,
        }),
{
    if modifier_flags & NS_COMMAND_KEY_MASK == 0 {
        return false;
    }
    match first_byte {
        Some(b) => b == 0x71 || b == 0x77 || b == 0x68 || b == 0x6d,
        None => false,
    }
}

/// What engaging the Windows lock asks the caller to do next.
#[derive(Debug)]
pub enum EngageOp {
    /// Install the low-level keyboard hook.
    InstallKeyboardHook,
    /// Read the `DisableTaskMgr` policy value, if there is one.
    ReadTaskManagerPolicy,
    /// Write `DisableTaskMgr = 1`.
    WriteTaskManagerPolicy,
    /// Engagement is over, with this result.
    Finish(Result<(), String>),
}

/// What releasing the Windows lock asks the caller to do next.
#[derive(Debug, Clone, Copy, PartialEq, Eq, Structural)]
pub enum DisengageOp {
    /// Remove the keyboard hook, if one is installed.
    RemoveKeyboardHook,
    /// Delete the `DisableTaskMgr` value.
    DeleteTaskManagerPolicy,
    /// Release is over; it always succeeds.
    Finish,
}

/// What happened during engagement of the Windows lock.
#[derive(Debug)]
pub enum EngageEvent {
    /// Engagement begins.
    Start,
    /// The keyboard hook was installed, or why not.
    HookInstalled(Result<(), String>),
    /// The policy value that was read (`None` when the key or value could not be read).
    PolicyRead(Option<u32>),
    /// The policy was written, or why not.
    PolicyWritten(Result<(), String>),
}

/// What happened during release of the Windows lock.
#[derive(Debug, Clone, Copy, PartialEq, Eq, Structural)]
pub enum DisengageEvent {
    /// Release begins.
    Start,
    /// The keyboard hook was removed.
    HookRemoved,
    /// The policy value was deleted.
    PolicyDeleted,
}

/// The Windows lockdown: a keyboard hook and the Task Manager policy.
pub struct WindowsLock {
    hook_installed: bool,
    taskmgr_was_disabled: bool,
}

/// The Windows lockdown's state as values.
pub struct WindowsLockView {
    /// Whether the keyboard hook is installed.
    pub hook_installed: bool,
    /// Whether Task Manager was found disabled before the lock disabled it.
    pub taskmgr_was_disabled: bool,
}

impl View for WindowsLock {
    type V = WindowsLockView;

    closed spec fn view(&self) -> WindowsLockView {
        WindowsLockView {
            hook_installed: self.hook_installed,
            taskmgr_was_disabled: self.taskmgr_was_disabled,
        }
    }
}

/// A step of engagement: the state after `event` and the next operation.
pub open spec fn windows_engage_next(s: WindowsLockView, event: EngageEvent) -> (
    WindowsLockView,
    EngageOp,
) {
    match event {
        EngageEvent::Start => (s, EngageOp::InstallKeyboardHook),
        EngageEvent::HookInstalled(Ok(())) => (
            WindowsLockView { hook_installed: true, ..s },
            EngageOp::ReadTaskManagerPolicy,
        ),
        EngageEvent::HookInstalled(Err(e)) => (s, EngageOp::Finish(Err(e))),
        EngageEvent::PolicyRead(value) => (
            WindowsLockView {
                taskmgr_was_disabled: s.taskmgr_was_disabled || value == Some(1u32),
                ..s
            },
            EngageOp::WriteTaskManagerPolicy,
        ),
        EngageEvent::PolicyWritten(r) => (s, EngageOp::Finish(r)),
    }
}

/// A step of release: the state after `event` and the next operation. The policy value
/// is deleted only when Task Manager was not already disabled before the lock.
pub open spec fn windows_disengage_next(s: WindowsLockView, event: DisengageEvent) -> (
    WindowsLockView,
    DisengageOp,
) {
    match event {
        DisengageEvent::Start => (
            WindowsLockView { hook_installed: false, ..s },
            DisengageOp::RemoveKeyboardHook,
        ),
        DisengageEvent::HookRemoved => (
            s,
            if s.taskmgr_was_disabled {
                DisengageOp::Finish
            } else {
                DisengageOp::DeleteTaskManagerPolicy
            },
        ),
        DisengageEvent::PolicyDeleted => (s, DisengageOp::Finish),
    }
}

impl WindowsLock {
    /// A lock that has installed nothing and recorded nothing.
    pub fn new() -> (r: WindowsLock)
        ensures
            !r@.hook_installed,
            !r@.taskmgr_was_disabled,
    {
        WindowsLock { hook_installed: false, taskmgr_was_disabled: false }
    }

    /// Whether the keyboard hook is installed.
    pub fn hook_installed(&self) -> (r: bool)
        ensures
            r == self@.hook_installed,
    {
        self.hook_installed
    }

    /// Whether Task Manager was already disabled before the lock.
    pub fn taskmgr_was_disabled(&self) -> (r: bool)
        ensures
            r == self@.taskmgr_was_disabled,
    {
        self.taskmgr_was_disabled
    }

    /// Engagement, one step at a time: install the hook (stop on failure), remember whether
    /// Task Manager was already disabled, then disable it.
    pub fn engage_step(&mut self, event: EngageEvent) -> (r: EngageOp)
        ensures
            (final(self)@, r) == windows_engage_next(old(self)@, event),
    {
        match event {
            EngageEvent::Start => EngageOp::InstallKeyboardHook,
            EngageEvent::HookInstalled(Ok(())) => {
                self.hook_installed = true;
                EngageOp::ReadTaskManagerPolicy
            },
            EngageEvent::HookInstalled(Err(e)) => EngageOp::Finish(Err(e)),
            EngageEvent::PolicyRead(value) => {
                match value {
                    Some(v) => {
                        if v == 1 {
                            self.taskmgr_was_disabled = true;
                        }
                    },
                    None => {},
                }
                EngageOp::WriteTaskManagerPolicy
            },
            EngageEvent::PolicyWritten(r) => EngageOp::Finish(r),
        }
    }

    /// Release, one step at a time: remove the hook, then re-enable Task Manager unless it
    /// was disabled before the lock. That an engagement followed by a release leaves the
    /// policy as it was found is `laws::lemma_windows_restores_task_manager`.
    pub fn disengage_step(&mut self, event: DisengageEvent) -> (r: DisengageOp)
        ensures
            (final(self)@, r) == windows_disengage_next(old(self)@, event),
    {
        match event {
            DisengageEvent::Start => {
                self.hook_installed = false;
                DisengageOp::RemoveKeyboardHook
            },
            DisengageEvent::HookRemoved => {
                if self.taskmgr_was_disabled {
                    DisengageOp::Finish
                } else {
                    DisengageOp::DeleteTaskManagerPolicy
                }
            },
            DisengageEvent::PolicyDeleted => DisengageOp::Finish,
        }
    }
}

/// The presentation option that hides the Dock.
pub const NS_HIDE_DOCK: usize = 1 << 1;
/// The presentation option that hides the menu bar.
pub const NS_HIDE_MENU_BAR: usize = 1 << 3;
/// The presentation option that disables the Apple menu.
pub const NS_DISABLE_APPLE_MENU: usize = 1 << 4;
/// The presentation option that disables process switching.
pub const NS_DISABLE_PROCESS_SWITCHING: usize = 1 << 5;
/// The presentation option that disables Force Quit.
pub const NS_DISABLE_FORCE_QUIT: usize = 1 << 6;
/// The presentation option that disables session termination.
pub const NS_DISABLE_SESSION_TERMINATION: usize = 1 << 7;
/// The presentation option that disables hiding the application.
pub const NS_DISABLE_HIDE_APPLICATION: usize = 1 << 8;

/// The presentation options set while the screen is locked.
pub const LOCKDOWN_OPTIONS: usize = NS_HIDE_DOCK | NS_HIDE_MENU_BAR | NS_DISABLE_PROCESS_SWITCHING
    | NS_DISABLE_FORCE_QUIT | NS_DISABLE_APPLE_MENU | NS_DISABLE_SESSION_TERMINATION
    | NS_DISABLE_HIDE_APPLICATION;

/// The macOS lockdown: presentation options and a key-down monitor.
pub struct MacosLock {
    original_options: Option<usize>,
    key_blocker_installed: bool,
}

/// The macOS lockdown's state as values.
pub struct MacosLockView {
    /// The presentation options found when the lock was engaged, until restored.
    pub original_options: Option<usize>,
    /// Whether the key-down monitor is installed.
    pub key_blocker_installed: bool,
}

impl View for MacosLock {
    type V = MacosLockView;

    closed spec fn view(&self) -> MacosLockView {
        MacosLockView {
            original_options: self.original_options,
            key_blocker_installed: self.key_blocker_installed,
        }
    }
}

/// What releasing the macOS lock asks for.
#[derive(Debug, Clone, Copy, PartialEq, Eq, Structural)]
pub struct MacosRelease {
    /// Remove the key-down monitor.
    pub remove_key_blocker: bool,
    /// Set the presentation options to this value (`None`: leave them, off the main thread).
    pub restore_options: Option<usize>,
}

/// The state after an engagement given the current presentation options (`None` off
/// the main thread, where nothing changes).
pub open spec fn macos_after_engage(s: MacosLockView, current_options: Option<usize>) -> MacosLockView {
    match current_options {
        None => s,
        Some(o) => MacosLockView { original_options: Some(o), ..s },
    }
}

/// The state after recording whether the key-down monitor was installed.
pub open spec fn macos_after_key_blocker(s: MacosLockView, installed: bool) -> MacosLockView {
    MacosLockView { key_blocker_installed: installed, ..s }
}

/// A release: the state after it and what it asks for.
pub open spec fn macos_release(s: MacosLockView, on_main_thread: bool) -> (MacosLockView, MacosRelease) {
    if on_main_thread {
        (
            MacosLockView { original_options: None, key_blocker_installed: false },
            MacosRelease {
                remove_key_blocker: s.key_blocker_installed,
                restore_options: Some(
                    match s.original_options {
                        Some(o) => o,
                        None => 0usize,
                    },
                ),
            },
        )
    } else {
        (
            MacosLockView { key_blocker_installed: false, ..s },
            MacosRelease { remove_key_blocker: s.key_blocker_installed, restore_options: None },
        )
    }
}

/// The message of an engagement off the main thread.
pub open spec fn not_main_thread_message() -> Seq<char> {
    "not on main thread"@
}

impl MacosLock {
    /// A lock that has saved nothing and installed nothing.
    pub fn new() -> (r: MacosLock)
        ensures
            r@.original_options is None,
            !r@.key_blocker_installed,
    {
        MacosLock { original_options: None, key_blocker_installed: false }
    }

    /// Engages the lock given the current presentation options (`None` off the main
    /// thread, which fails): remembers them and returns the options to set.
    pub fn engage(&mut self, current_options: Option<usize>) -> (r: Result<usize, String>)
        ensures
            final(self)@ == macos_after_engage(old(self)@, current_options),
            match current_options {
                None => r matches Err(m) && m@ == not_main_thread_message(),
                Some(o) => r == Ok::<usize, String>(LOCKDOWN_OPTIONS),
            },
    {
        match current_options {
            None => {
                let m = String::from_str("not on main thread");
                proof {
                    reveal_strlit("not on main thread");
                }
                Err(m)
            },
            Some(o) => {
                self.original_options = Some(o);
                Ok(LOCKDOWN_OPTIONS)
            },
        }
    }

    /// Records whether the key-down monitor could be installed.
    pub fn record_key_blocker(&mut self, installed: bool)
        ensures
            final(self)@ == macos_after_key_blocker(old(self)@, installed),
    {
        self.key_blocker_installed = installed;
    }

    /// Releases the lock: the key-down monitor goes first; on the main thread the saved
    /// presentation options (or the empty set, when none are saved) are restored and
    /// forgotten, off it they are kept for a later release.
    pub fn disengage(&mut self, on_main_thread: bool) -> (r: MacosRelease)
        ensures
            (final(self)@, r) == macos_release(old(self)@, on_main_thread),
    {
        let remove = self.key_blocker_installed;
        self.key_blocker_installed = false;
        if !on_main_thread {
            return MacosRelease { remove_key_blocker: remove, restore_options: None };
        }
        let restore = match self.original_options {
            Some(o) => o,
            None => 0usize,
        };
        self.original_options = None;
        MacosRelease { remove_key_blocker: remove, restore_options: Some(restore) }
    }
}

/// The operating systems with a lockdown.
#[derive(Debug, Clone, Copy, PartialEq, Eq, Structural)]
pub enum HostOs {
    MacOs,
    Windows,
}

/// The lockdown of one operating system.
pub enum PlatformLockKind {
    Macos(MacosLock),
    Windows(WindowsLock),
}

/// A fresh lockdown for the host operating system.
pub fn create_platform_lock(os: HostOs) -> (r: PlatformLockKind)
    ensures
        match (os, r) {
            (HostOs::MacOs, PlatformLockKind::Macos(l)) => l@.original_options is None
                && !l@.key_blocker_installed,
            (HostOs::Windows, PlatformLockKind::Windows(l)) => !l@.hook_installed
                && !l@.taskmgr_was_disabled,
            _ => false,
        },
{
    match os {
        HostOs::MacOs => PlatformLockKind::Macos(MacosLock::new()),
        HostOs::Windows => PlatformLockKind::Windows(WindowsLock::new()),
    }
}

} // verus!
