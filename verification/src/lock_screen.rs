//! The lock screen as a state machine: the typed password, the error flash of the
//! primary display, the overlay windows and the focus timer. The caller performs what
//! each step asks for (drawing, focusing, checking the password, unlocking).
use vstd::prelude::*;
use crate::config::{verify_password, password_accepted, ERROR_FLASH_FRAMES, FOCUS_POLL_MS};
use crate::text::{no_control_chars, has_no_control};

verus! {

/// One overlay window, covering one monitor.
#[derive(Debug, Clone, Copy, PartialEq, Eq, Structural)]
pub struct WindowRecord {
    /// The window's identifier.
    pub id: u64,
    /// Whether it covers the primary monitor (the one that shows the password field).
    pub is_primary: bool,
    /// Width in physical pixels.
    pub width: u32,
    /// Height in physical pixels.
    pub height: u32,
}

/// A key press, as far as the lock screen cares.
#[derive(Debug)]
pub enum KeyInput {
    /// Submit the typed password.
    Enter,
    /// Delete the last typed character.
    Backspace,
    /// Clear the typed password.
    Escape,
    /// Any other key, with the text it produces, if any.
    Other(Option<String>),
}

/// An event of one overlay window.
#[derive(Debug)]
pub enum WindowInput {
    /// The user asked to close the window.
    CloseRequested,
    /// The window gained (`true`) or lost (`false`) the keyboard focus.
    Focused(bool),
    /// A key went down (`pressed`) or up.
    Key { pressed: bool, key: KeyInput },
    /// The window must be drawn again.
    RedrawRequested,
    /// The window got a new size.
    Resized { width: u32, height: u32 },
    /// Anything else.
    Other,
}

/// What the caller must do after a key.
#[derive(Debug, Clone, Copy, PartialEq, Eq, Structural)]
pub enum Action {
    /// Nothing.
    Nothing,
    /// Check the typed password against the stored hash (see `App::submit_password`).
    CheckPassword,
    /// Redraw the primary window.
    RedrawPrimary,
    /// Release the platform lockdown and quit.
    Unlock,
}

/// What to draw in one window.
#[derive(Debug, Clone, Copy, PartialEq, Eq, Structural)]
pub enum FramePlan {
    /// The lock screen: a field with one dot per byte of the typed password,
    /// with a red border when `error` holds.
    LockScreen { width: u32, height: u32, password_len: usize, error: bool },
    /// A black screen.
    Black { width: u32, height: u32 },
}

/// What the caller must do after a window event.
#[derive(Debug, Clone, Copy, PartialEq, Eq, Structural)]
pub enum EventAction {
    /// Nothing.
    Nothing,
    /// Give the keyboard focus to the window with this id.
    Focus(u64),
    /// Ask the window with this id to be redrawn.
    Redraw(u64),
    /// The outcome of a key press.
    Key(Action),
    /// Draw this frame in the window of the event.
    Draw(FramePlan),
}

/// What to do while the event loop is idle.
#[derive(Debug, Clone, Copy, PartialEq, Eq, Structural)]
pub struct WaitPlan {
    /// How long to wait for events, in milliseconds.
    pub wait_ms: u64,
    /// Whether to ask the primary window to be redrawn (the error flash is running).
    pub redraw_primary: bool,
    /// Whether every window must take the focus back.
    pub refocus_all: bool,
}

/// The lock screen's state.
pub struct App {
    windows: Vec<WindowRecord>,
    password_buffer: String,
    error_flash_remaining: u32,
    engaged: bool,
    unlocked: bool,
    last_focus_check: u64,
}

/// The lock screen's state as values.
pub struct AppView {
    pub windows: Seq<WindowRecord>,
    pub password: Seq<char>,
    pub flash: u32,
    pub engaged: bool,
    pub unlocked: bool,
    pub last_focus_check: u64,
}

impl View for App {
    type V = AppView;

    closed spec fn view(&self) -> AppView {
        AppView {
            windows: self.windows@,
            password: self.password_buffer@,
            flash: self.error_flash_remaining,
            engaged: self.engaged,
            unlocked: self.unlocked,
            last_focus_check: self.last_focus_check,
        }
    }
}

/// Text that a key adds to the password: not empty and free of control characters.
pub open spec fn accepts_text(t: Seq<char>) -> bool {
    t.len() > 0 && has_no_control(t)
}

/// The state after a key press.
pub open spec fn key_effect(v: AppView, key: KeyInput) -> AppView {
    match key {
        KeyInput::Enter => v,
        KeyInput::Backspace => AppView {
            password: if v.password.len() > 0 {
                v.password.drop_last()
            } else {
                v.password
            },
            ..v
        },
        KeyInput::Escape => AppView { password: Seq::empty(), ..v },
        KeyInput::Other(Some(t)) => if accepts_text(t@) {
            AppView { password: v.password + t@, ..v }
        } else {
            v
        },
        KeyInput::Other(None) => v,
    }
}

/// What a key press asks for.
pub open spec fn key_action(key: KeyInput) -> Action {
    match key {
        KeyInput::Enter => Action::CheckPassword,
        KeyInput::Backspace => Action::RedrawPrimary,
        KeyInput::Escape => Action::RedrawPrimary,
        KeyInput::Other(Some(t)) => if accepts_text(t@) {
            Action::RedrawPrimary
        } else {
            Action::Nothing
        },
        KeyInput::Other(None) => Action::Nothing,
    }
}

/// The state after the typed password was accepted (`true`) or refused.
pub open spec fn verdict_effect(v: AppView, accepted: bool) -> AppView {
    if accepted {
        AppView { unlocked: true, engaged: false, ..v }
    } else {
        AppView { password: Seq::empty(), flash: ERROR_FLASH_FRAMES, ..v }
    }
}

/// The index of the first window with identifier `id` at or after `start`.
pub open spec fn first_window_from(ws: Seq<WindowRecord>, id: u64, start: int) -> Option<int>
    decreases ws.len() - start,
{
    if start < 0 || start >= ws.len() {
        None
    } else if ws[start].id == id {
        Some(start)
    } else {
        first_window_from(ws, id, start + 1)
    }
}

/// The index of the first window with identifier `id`.
pub open spec fn first_window(ws: Seq<WindowRecord>, id: u64) -> Option<int> {
    first_window_from(ws, id, 0)
}

/// The number of bytes of the typed password in UTF-8, one dot each.
pub open spec fn password_byte_len(password: Seq<char>) -> usize {
    vstd::utf8::encode_utf8(password).len() as usize
}

/// The frame drawn in window `id`, and the state after it: the primary window shows the
/// error border while the flash counter is positive, and each such frame uses one count.
pub open spec fn frame_effect(v: AppView, id: u64) -> (AppView, Option<FramePlan>) {
    match first_window(v.windows, id) {
        None => (v, None),
        Some(i) => {
            let w = v.windows[i];
            if w.width == 0 || w.height == 0 {
                (v, None)
            } else if w.is_primary {
                let error = v.flash > 0;
                (
                    AppView {
                        flash: if error {
                            (v.flash - 1) as u32
                        } else {
                            v.flash
                        },
                        ..v
                    },
                    Some(
                        FramePlan::LockScreen {
                            width: w.width,
                            height: w.height,
                            password_len: password_byte_len(v.password),
                            error,
                        },
                    ),
                )
            } else {
                (v, Some(FramePlan::Black { width: w.width, height: w.height }))
            }
        },
    }
}

/// The identifiers of the primary windows, in order.
pub open spec fn primary_ids(ws: Seq<WindowRecord>) -> Seq<u64>
    decreases ws.len(),
{
    if ws.len() == 0 {
        Seq::empty()
    } else if ws.last().is_primary {
        primary_ids(ws.drop_last()).push(ws.last().id)
    } else {
        primary_ids(ws.drop_last())
    }
}

/// The state after a window event and what it asks for.
pub open spec fn event_effect(v: AppView, id: u64, event: WindowInput) -> (AppView, EventAction) {
    match event {
        WindowInput::Focused(false) => match first_window(v.windows, id) {
            Some(i) => (v, EventAction::Focus(id)),
            None => (v, EventAction::Nothing),
        },
        WindowInput::Key { pressed: true, key } => (
            key_effect(v, key),
            EventAction::Key(key_action(key)),
        ),
        WindowInput::RedrawRequested => {
            let (v2, plan) = frame_effect(v, id);
            match plan {
                Some(p) => (v2, EventAction::Draw(p)),
                None => (v2, EventAction::Nothing),
            }
        },
        WindowInput::Resized { width, height } => match first_window(v.windows, id) {
            Some(i) => (
                AppView {
                    windows: v.windows.update(
                        i,
                        WindowRecord { width, height, ..v.windows[i] },
                    ),
                    ..v
                },
                EventAction::Redraw(id),
            ),
            None => (v, EventAction::Nothing),
        },
        _ => (v, EventAction::Nothing),
    }
}

/// Focus polling period in nanoseconds.
pub open spec fn focus_poll_nanos() -> int {
    FOCUS_POLL_MS * 1_000_000
}

/// The idle plan at time `now` (nanoseconds) and the state after it.
pub open spec fn wait_effect(v: AppView, now: u64) -> (AppView, WaitPlan) {
    let elapsed: int = if now >= v.last_focus_check {
        now - v.last_focus_check
    } else {
        0
    };
    let refocus = elapsed >= focus_poll_nanos();
    (
        AppView { last_focus_check: if refocus { now } else { v.last_focus_check }, ..v },
        WaitPlan {
            wait_ms: if v.flash > 0 { 16 } else { FOCUS_POLL_MS },
            redraw_primary: v.flash > 0,
            refocus_all: refocus,
        },
    )
}

impl App {
    #[verifier::type_invariant]
    closed spec fn flash_bounded(&self) -> bool {
        self.error_flash_remaining <= ERROR_FLASH_FRAMES
    }

    /// A lock screen with no windows yet, nothing typed, not engaged; `now` (nanoseconds)
    /// starts the focus timer.
    pub fn new(now: u64) -> (r: App)
        ensures
            r@.windows.len() == 0,
            r@.password.len() == 0,
            r@.flash == 0,
            !r@.engaged,
            !r@.unlocked,
            r@.last_focus_check == now,
    {
        App {
            windows: Vec::new(),
            password_buffer: String::new(),
            error_flash_remaining: 0,
            engaged: false,
            unlocked: false,
            last_focus_check: now,
        }
    }

    /// The typed password.
    pub fn password(&self) -> (r: &str)
        ensures
            r@ == self@.password,
    {
        self.password_buffer.as_str()
    }

    /// How many more primary frames show the error border.
    pub fn error_flash_remaining(&self) -> (r: u32)
        ensures
            r == self@.flash,
            r <= ERROR_FLASH_FRAMES,
    {
        proof {
            use_type_invariant(self);
        }
        self.error_flash_remaining
    }

    /// Whether the platform lockdown is engaged.
    pub fn is_engaged(&self) -> (r: bool)
        ensures
            r == self@.engaged,
    {
        self.engaged
    }

    /// Whether the right password was entered.
    pub fn is_unlocked(&self) -> (r: bool)
        ensures
            r == self@.unlocked,
    {
        self.unlocked
    }

    /// The overlay windows.
    pub fn windows(&self) -> (r: &Vec<WindowRecord>)
        ensures
            r@ == self@.windows,
    {
        &self.windows
    }

    /// Whether the overlay windows are still to be created (none exists yet).
    pub fn needs_overlays(&self) -> (r: bool)
        ensures
            r == (self@.windows.len() == 0),
    {
        self.windows.len() == 0
    }

    /// Records a newly created overlay window.
    pub fn add_window(&mut self, window: WindowRecord)
        ensures
            final(self)@ == (AppView { windows: old(self)@.windows.push(window), ..old(self)@ }),
    {
        proof {
            use_type_invariant(&*self);
        }
        let mut ws: Vec<WindowRecord> = Vec::new();
        std::mem::swap(&mut ws, &mut self.windows);
        ws.push(window);
        self.windows = ws;
    }

    /// Records that the platform lockdown was engaged.
    pub fn mark_engaged(&mut self)
        ensures
            final(self)@ == (AppView { engaged: true, ..old(self)@ }),
    {
        proof {
            use_type_invariant(&*self);
        }
        self.engaged = true;
    }

    /// The identifiers of all windows, in order.
    pub fn window_ids(&self) -> (r: Vec<u64>)
        ensures
            r@.len() == self@.windows.len(),
            forall|i: int| 0 <= i < r@.len() ==> r@[i] == #[trigger] self@.windows[i].id,
    {
        let mut r: Vec<u64> = Vec::new();
        let mut i: usize = 0;
        while i < self.windows.len()
            invariant
                i <= self.windows@.len(),
                r@.len() == i,
                forall|j: int| 0 <= j < i ==> r@[j] == #[trigger] self.windows@[j].id,
            decreases self.windows@.len() - i,
        {
            r.push(self.windows[i].id);
            i = i + 1;
        }
        r
    }

    /// The identifiers of the primary windows, in order.
    pub fn primary_window_ids(&self) -> (r: Vec<u64>)
        ensures
            r@ == primary_ids(self@.windows),
    {
        let mut r: Vec<u64> = Vec::new();
        let mut i: usize = 0;
        assert(self.windows@.take(0) =~= Seq::<WindowRecord>::empty());
        while i < self.windows.len()
            invariant
                i <= self.windows@.len(),
                r@ == primary_ids(self.windows@.take(i as int)),
            decreases self.windows@.len() - i,
        {
            assert(self.windows@.take(i + 1).drop_last() =~= self.windows@.take(i as int));
            if self.windows[i].is_primary {
                r.push(self.windows[i].id);
            }
            i = i + 1;
        }
        assert(self.windows@.take(i as int) =~= self.windows@);
        r
    }

    fn find_window(&self, id: u64) -> (r: Option<usize>)
        ensures
            match r {
                Some(i) => first_window(self@.windows, id) == Some(i as int) && i
                    < self@.windows.len(),
                None => first_window(self@.windows, id) is None,
            },
    {
        let mut i: usize = 0;
        while i < self.windows.len()
            invariant
                i <= self.windows@.len(),
                first_window(self.windows@, id) == first_window_from(self.windows@, id, i as int),
            decreases self.windows@.len() - i,
        {
            if self.windows[i].id == id {
                return Some(i);
            }
            i = i + 1;
        }
        None
    }

    /// Handles a key press: Enter asks for the password check, Backspace deletes the last
    /// character, Escape clears the input, and text without control characters is appended.
    pub fn handle_key(&mut self, key: &KeyInput) -> (r: Action)
        ensures
            final(self)@ == key_effect(old(self)@, *key),
            r == key_action(*key),
    {
        proof {
            use_type_invariant(&*self);
        }
        match key {
            KeyInput::Enter => Action::CheckPassword,
            KeyInput::Backspace => {
                let n = self.password_buffer.as_str().unicode_len();
                if n > 0 {
                    let shorter = String::from_str(
                        self.password_buffer.as_str().substring_char(0, n - 1),
                    );
                    self.password_buffer = shorter;
                    assert(self.password_buffer@ =~= old(self)@.password.drop_last());
                }
                Action::RedrawPrimary
            },
            KeyInput::Escape => {
                self.password_buffer = String::new();
                Action::RedrawPrimary
            },
            KeyInput::Other(Some(t)) => {
                if t.as_str().unicode_len() > 0 && no_control_chars(t.as_str()) {
                    let mut p = String::new();
                    std::mem::swap(&mut p, &mut self.password_buffer);
                    p.append(t.as_str());
                    self.password_buffer = p;
                    Action::RedrawPrimary
                } else {
                    Action::Nothing
                }
            },
            KeyInput::Other(None) => Action::Nothing,
        }
    }

    /// Applies the outcome of the password check: an accepted password unlocks and
    /// disengages; a refused one clears the input and starts the error flash.
    pub fn apply_verdict(&mut self, accepted: bool) -> (r: Action)
        ensures
            final(self)@ == verdict_effect(old(self)@, accepted),
            r == (if accepted {
                Action::Unlock
            } else {
                Action::RedrawPrimary
            }),
    {
        proof {
            use_type_invariant(&*self);
        }
        if accepted {
            self.unlocked = true;
            self.engaged = false;
            Action::Unlock
        } else {
            self.error_flash_remaining = ERROR_FLASH_FRAMES;
            self.password_buffer = String::new();
            Action::RedrawPrimary
        }
    }

    /// Checks the typed password against the stored hash and applies the outcome.
    pub fn submit_password(&mut self, stored_hash: &str) -> (r: Action)
        ensures
            final(self)@ == verdict_effect(
                old(self)@,
                password_accepted(old(self)@.password, stored_hash@),
            ),
            r == (if password_accepted(old(self)@.password, stored_hash@) {
                Action::Unlock
            } else {
                Action::RedrawPrimary
            }),
    {
        let accepted = verify_password(self.password_buffer.as_str(), stored_hash);
        self.apply_verdict(accepted)
    }

    /// Plans the frame of window `id`; nothing is drawn for an unknown window or one of
    /// zero size.
    pub fn begin_frame(&mut self, id: u64) -> (r: Option<FramePlan>)
        ensures
            (final(self)@, r) == frame_effect(old(self)@, id),
    {
        proof {
            use_type_invariant(&*self);
        }
        match self.find_window(id) {
            None => None,
            Some(i) => {
                let w = self.windows[i];
                if w.width == 0 || w.height == 0 {
                    None
                } else if w.is_primary {
                    let error = self.error_flash_remaining > 0;
                    if error {
                        self.error_flash_remaining = self.error_flash_remaining - 1;
                    }
                    Some(
                        FramePlan::LockScreen {
                            width: w.width,
                            height: w.height,
                            password_len: self.password_buffer.as_str().len(),
                            error,
                        },
                    )
                } else {
                    Some(FramePlan::Black { width: w.width, height: w.height })
                }
            },
        }
    }

    /// Handles an event of window `id`.
    pub fn window_event(&mut self, id: u64, event: &WindowInput) -> (r: EventAction)
        ensures
            (final(self)@, r) == event_effect(old(self)@, id, *event),
    {
        proof {
            use_type_invariant(&*self);
        }
        match event {
            WindowInput::Focused(false) => match self.find_window(id) {
                Some(_) => EventAction::Focus(id),
                None => EventAction::Nothing,
            },
            WindowInput::Key { pressed: true, key } => EventAction::Key(self.handle_key(key)),
            WindowInput::RedrawRequested => match self.begin_frame(id) {
                Some(p) => EventAction::Draw(p),
                None => EventAction::Nothing,
            },
            WindowInput::Resized { width, height } => match self.find_window(id) {
                Some(i) => {
                    let mut w = self.windows[i];
                    w.width = *width;
                    w.height = *height;
                    let mut ws: Vec<WindowRecord> = Vec::new();
                    std::mem::swap(&mut ws, &mut self.windows);
                    ws.set(i, w);
                    self.windows = ws;
                    EventAction::Redraw(id)
                },
                None => EventAction::Nothing,
            },
            _ => EventAction::Nothing,
        }
    }

    /// Plans the idle wait at time `now` (nanoseconds since the focus timer's origin): a
    /// short wait and a primary redraw while the error flash runs, and a refocus of every
    /// window once a focus period has passed since the last one.
    pub fn about_to_wait(&mut self, now: u64) -> (r: WaitPlan)
        ensures
            (final(self)@, r) == wait_effect(old(self)@, now),
    {
        proof {
            use_type_invariant(&*self);
        }
        let flashing = self.error_flash_remaining > 0;
        let elapsed = now.saturating_sub(self.last_focus_check);
        let refocus = elapsed >= FOCUS_POLL_MS * 1_000_000;
        if refocus {
            self.last_focus_check = now;
        }
        WaitPlan {
            wait_ms: if flashing {
                16
            } else {
                FOCUS_POLL_MS
            },
            redraw_primary: flashing,
            refocus_all: refocus,
        }
    }
}

} // verus!
