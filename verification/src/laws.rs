//! Properties that span several steps of the lock screen and of the platform locks.
use vstd::prelude::*;
use crate::config::{effective_hash, is_hash_char, password_accepted, ERROR_FLASH_FRAMES};
use crate::text::{is_whitespace_spec, trim_start_spec, trim_spec};
use crate::lock_screen::{
    accepts_text, event_effect, first_window, frame_effect, key_action, key_effect,
    verdict_effect, Action, AppView, EventAction, FramePlan, KeyInput, WindowInput,
};
use crate::monitors::{is_primary_at, same_name};
use crate::platform::{
    blocked_key,
    macos_after_engage, macos_after_key_blocker, macos_release, windows_disengage_next,
    windows_engage_next, DisengageEvent, EngageEvent, MacosLockView, WindowsLockView, EngageOp, DisengageOp,
};

verus! {

/// Escape clears the input and lets the user start over: whatever was typed before,
/// Escape followed by text `t` (not empty, no control characters) leaves exactly `t`.
pub proof fn lemma_escape_starts_over(v: AppView, t: String)
    requires
        accepts_text(t@),
    ensures
        key_effect(key_effect(v, KeyInput::Escape), KeyInput::Other(Some(t))).password == t@,
{
    assert(Seq::<char>::empty() + t@ =~= t@);
}

/// Backspace undoes one typed character: typing a single character `c` and then
/// Backspace gives back the input as it was.
pub proof fn lemma_backspace_undoes_character(v: AppView, t: String)
    requires
        accepts_text(t@),
        t@.len() == 1,
    ensures
        key_effect(key_effect(v, KeyInput::Other(Some(t))), KeyInput::Backspace) == v,
{
    assert((v.password + t@).drop_last() =~= v.password);
}

/// The state after `k` frames of window `id`.
pub open spec fn after_frames(v: AppView, id: u64, k: nat) -> AppView
    decreases k,
{
    if k == 0 {
        v
    } else {
        frame_effect(after_frames(v, id, (k - 1) as nat), id).0
    }
}

/// Window `id` is a primary window of non-zero size.
pub open spec fn is_drawable_primary(v: AppView, id: u64) -> bool {
    match first_window(v.windows, id) {
        Some(i) => v.windows[i].is_primary && v.windows[i].width > 0 && v.windows[i].height > 0,
        None => false,
    }
}

/// Frames of a drawable primary window only count the flash down.
pub proof fn lemma_frames_count_down(v: AppView, id: u64, k: nat)
    requires
        is_drawable_primary(v, id),
    ensures
        after_frames(v, id, k).windows == v.windows,
        after_frames(v, id, k).password == v.password,
        after_frames(v, id, k).flash == (if v.flash >= k {
            v.flash - k
        } else {
            0
        }),
    decreases k,
{
    if k > 0 {
        lemma_frames_count_down(v, id, (k - 1) as nat);
    }
}

/// After a refused password, exactly `ERROR_FLASH_FRAMES` frames of the primary window
/// show the error border, and the frames after them do not.
pub proof fn lemma_error_flash_length(v: AppView, id: u64, k: nat)
    requires
        is_drawable_primary(v, id),
    ensures
        ({
            let refused = verdict_effect(v, false);
            match frame_effect(after_frames(refused, id, k), id).1 {
                Some(FramePlan::LockScreen { error, .. }) => error == (k < ERROR_FLASH_FRAMES),
                _ => false,
            }
        }),
{
    let refused = verdict_effect(v, false);
    lemma_frames_count_down(refused, id, k);
}

/// The Windows lockdown puts Task Manager back as it found it: after a fresh lock is
/// engaged (every step succeeding) over a policy value `prior` and then released, the
/// policy value is deleted exactly when Task Manager was not already disabled, and the
/// keyboard hook is gone.
pub proof fn lemma_windows_restores_task_manager(prior: Option<u32>)
    ensures
        ({
            let s0 = WindowsLockView { hook_installed: false, taskmgr_was_disabled: false };
            let (s1, op1) = windows_engage_next(s0, EngageEvent::Start);
            let (s2, op2) = windows_engage_next(s1, EngageEvent::HookInstalled(Ok(())));
            let (s3, op3) = windows_engage_next(s2, EngageEvent::PolicyRead(prior));
            let (s4, op4) = windows_engage_next(s3, EngageEvent::PolicyWritten(Ok(())));
            let (s5, op5) = windows_disengage_next(s4, DisengageEvent::Start);
            let (s6, op6) = windows_disengage_next(s5, DisengageEvent::HookRemoved);
            &&& op1 is InstallKeyboardHook
            &&& op2 is ReadTaskManagerPolicy
            &&& op3 is WriteTaskManagerPolicy
            &&& op4 == EngageOp::Finish(Ok(()))
            &&& op5 is RemoveKeyboardHook
            &&& (op6 is DeleteTaskManagerPolicy <==> prior != Some(1u32))
            &&& (!(op6 is DeleteTaskManagerPolicy) ==> op6 is Finish)
            &&& !s6.hook_installed
        }),
{
}

/// A failed hook installation ends the engagement with its error before the Task Manager
/// policy is touched.
pub proof fn lemma_windows_hook_failure_stops(s: WindowsLockView, e: String)
    ensures
        windows_engage_next(s, EngageEvent::HookInstalled(Err(e))) == (s, EngageOp::Finish(
            Err(e),
        )),
{
}

/// The macOS lockdown puts the presentation options back as it found them: a fresh lock
/// engaged over options `o` (with the key-down monitor installed or not) and released on
/// the main thread restores `o` and removes the monitor it installed. A second release
/// restores the empty set of options.
pub proof fn lemma_macos_restores_options(o: usize, installed: bool)
    ensures
        ({
            let s0 = MacosLockView { original_options: None, key_blocker_installed: false };
            let s1 = macos_after_key_blocker(macos_after_engage(s0, Some(o)), installed);
            let (s2, first) = macos_release(s1, true);
            let (s3, second) = macos_release(s2, true);
            &&& first.restore_options == Some(o)
            &&& first.remove_key_blocker == installed
            &&& second.restore_options == Some(0usize)
            &&& !second.remove_key_blocker
        }),
{
}

/// A release off the main thread keeps the saved options, so that a later release on the
/// main thread still restores them.
pub proof fn lemma_macos_release_off_main_thread_keeps_options(s: MacosLockView)
    ensures
        macos_release(macos_release(s, false).0, true).1.restore_options == macos_release(
            s,
            true,
        ).1.restore_options,
{
}

/// A stored new password unlocks: once the hash made for password `p` is the whole content
/// of the password file, or that content with surrounding white space (a trailing newline,
/// say), it is the hash in force and it accepts `p`.
pub proof fn lemma_stored_hash_unlocks(p: Seq<char>, h: Seq<char>, before: Seq<char>, after: Seq<char>)
    requires
        password_accepted(p, h),
        h.len() > 0,
        forall|i: int| 0 <= i < h.len() ==> is_hash_char(#[trigger] h[i]),
        forall|i: int| 0 <= i < before.len() ==> is_whitespace_spec(#[trigger] before[i]),
        forall|i: int| 0 <= i < after.len() ==> is_whitespace_spec(#[trigger] after[i]),
    ensures
        effective_hash(Some(before + h + after)) == h,
        password_accepted(p, effective_hash(Some(before + h + after))),
{
    lemma_trim_around(before, h, after);
}

/// Trimming removes exactly the white space around a text that starts and ends with other
/// characters.
pub proof fn lemma_trim_around(before: Seq<char>, h: Seq<char>, after: Seq<char>)
    requires
        h.len() > 0,
        !is_whitespace_spec(h[0]),
        !is_whitespace_spec(h.last()),
        forall|i: int| 0 <= i < before.len() ==> is_whitespace_spec(#[trigger] before[i]),
        forall|i: int| 0 <= i < after.len() ==> is_whitespace_spec(#[trigger] after[i]),
    ensures
        trim_spec(before + h + after) == h,
    decreases before.len() + after.len(),
{
    if before.len() > 0 {
        assert((before + h + after).drop_first() =~= before.drop_first() + h + after);
        assert(is_whitespace_spec(before[0]));
        assert((before + h + after)[0] == before[0]);
        lemma_trim_around(before.drop_first(), h, after);
    } else if after.len() > 0 {
        assert(before + h + after =~= h + after);
        assert(trim_start_spec(h + after) == h + after) by {
            assert((h + after)[0] == h[0]);
        }
        assert((h + after).drop_last() =~= h + after.drop_last());
        assert((h + after).last() == after.last());
        assert(is_whitespace_spec(after[after.len() - 1]));
        lemma_trim_around(before, h, after.drop_last());
        assert(before + h + after.drop_last() =~= h + after.drop_last());
        assert(trim_start_spec(h + after.drop_last()) == h + after.drop_last()) by {
            assert((h + after.drop_last())[0] == h[0]);
        }
    } else {
        assert(before + h + after =~= h);
    }
}

/// A character that a key may type into the password: not a C0 control (below U+0020),
/// not DEL and not a C1 control (U+007F..=U+009F). The space is such a character.
pub open spec fn is_typable_char(c: char) -> bool {
    0x20 <= (c as u32) && ((c as u32) < 0x7f || 0x9f < (c as u32))
}

/// Every key whose text is not empty and made of typable characters (a space among them)
/// appends exactly that text to the typed password, asks for a redraw and changes nothing
/// else.
pub proof fn lemma_typable_text_is_appended(v: AppView, t: String)
    requires
        t@.len() > 0,
        forall|i: int| 0 <= i < t@.len() ==> is_typable_char(#[trigger] t@[i]),
    ensures
        key_effect(v, KeyInput::Other(Some(t))).password == v.password + t@,
        key_effect(v, KeyInput::Other(Some(t))).windows == v.windows,
        key_effect(v, KeyInput::Other(Some(t))).flash == v.flash,
        key_effect(v, KeyInput::Other(Some(t))).unlocked == v.unlocked,
        key_action(KeyInput::Other(Some(t))) == Action::RedrawPrimary,
{
    assert(accepts_text(t@));
}

/// The space bar types a space.
pub proof fn lemma_space_is_typed(v: AppView, t: String)
    requires
        t@ == seq![' '],
    ensures
        key_effect(v, KeyInput::Other(Some(t))).password == v.password.push(' '),
        key_action(KeyInput::Other(Some(t))) == Action::RedrawPrimary,
{
    lemma_typable_text_is_appended(v, t);
    assert(v.password + t@ =~= v.password.push(' '));
}

/// Text holding a control character below U+0020 (Tab, Return, Backspace's own code...)
/// is not typed: the state stays as it was and nothing is asked for.
pub proof fn lemma_control_text_is_dropped(v: AppView, t: String, i: int)
    requires
        0 <= i < t@.len(),
        (t@[i] as u32) < 0x20,
    ensures
        key_effect(v, KeyInput::Other(Some(t))) == v,
        key_action(KeyInput::Other(Some(t))) == Action::Nothing,
{
    assert(crate::text::is_control_spec(t@[i]));
    assert(!accepts_text(t@));
}

/// A resize of window `id` (at index `i`, its first occurrence) sets that window's width
/// and height and nothing else: every window keeps its identifier and whether it is
/// primary, the other windows keep their sizes, and the window is asked to redraw.
pub proof fn lemma_resize_changes_only_size(v: AppView, id: u64, i: int, width: u32, height: u32)
    requires
        0 <= i < v.windows.len(),
        v.windows[i].id == id,
        forall|k: int| 0 <= k < i ==> v.windows[k].id != id,
    ensures
        ({
            let (v2, action) = event_effect(v, id, WindowInput::Resized { width, height });
            &&& action == EventAction::Redraw(id)
            &&& v2.windows.len() == v.windows.len()
            &&& v2.windows[i].width == width
            &&& v2.windows[i].height == height
            &&& forall|j: int| 0 <= j < v.windows.len() ==> #[trigger] v2.windows[j].id == v.windows[j].id
                && v2.windows[j].is_primary == v.windows[j].is_primary
            &&& forall|j: int| 0 <= j < v.windows.len() && j != i ==> #[trigger] v2.windows[j] == v.windows[j]
            &&& v2.password == v.password
            &&& v2.flash == v.flash
        }),
{
    lemma_first_window_is(v, id, i, 0);
}

/// The first window with identifier `id`, searched from `start`, is the one at `i` when
/// no window between `start` and `i` has that identifier.
pub proof fn lemma_first_window_is(v: AppView, id: u64, i: int, start: int)
    requires
        0 <= start <= i < v.windows.len(),
        v.windows[i].id == id,
        forall|k: int| start <= k < i ==> v.windows[k].id != id,
    ensures
        crate::lock_screen::first_window_from(v.windows, id, start) == Some(i),
    decreases i - start,
{
    if start < i {
        lemma_first_window_is(v, id, i, start + 1);
    }
}

/// After a resize, a primary window still shows the lock screen, at its new size.
pub proof fn lemma_resized_primary_keeps_password_field(v: AppView, id: u64, i: int, width: u32, height: u32)
    requires
        0 <= i < v.windows.len(),
        v.windows[i].id == id,
        v.windows[i].is_primary,
        forall|k: int| 0 <= k < i ==> v.windows[k].id != id,
        width > 0,
        height > 0,
    ensures
        ({
            let v2 = event_effect(v, id, WindowInput::Resized { width, height }).0;
            frame_effect(v2, id).1 matches Some(FramePlan::LockScreen { width: w, height: h, .. })
                && w == width && h == height
        }),
{
    lemma_resize_changes_only_size(v, id, i, width, height);
    let v2 = event_effect(v, id, WindowInput::Resized { width, height }).0;
    assert forall|k: int| 0 <= k < i implies v2.windows[k].id != id by {
        assert(v2.windows[k] == v.windows[k]);
    }
    lemma_first_window_is(v2, id, i, 0);
    assert(v2.windows[i].id == v.windows[i].id);
    assert(v2.windows[i].is_primary);
    assert(v2.windows[i].width == width && v2.windows[i].height == height);
    assert(first_window(v2.windows, id) == Some(i));
}

/// Holding more modifiers never lets a blocked key through: whatever the Windows hook
/// swallows with some modifiers it also swallows with Alt or Ctrl held in addition.
pub proof fn lemma_hook_modifiers_only_add_blocking(vk: u16, alt: bool, ctrl: bool, more_alt: bool, more_ctrl: bool)
    requires
        blocked_key(vk, alt, ctrl),
    ensures
        blocked_key(vk, alt || more_alt, ctrl || more_ctrl),
{
}

/// The Windows hook swallows both Windows keys whatever the modifiers, Tab and F4 whenever
/// Alt is down (Ctrl held or not), and Escape whenever Ctrl is down (Alt held or not).
pub proof fn lemma_hook_blocks_switching_keys(alt: bool, ctrl: bool)
    ensures
        blocked_key(0x5B, alt, ctrl),
        blocked_key(0x5C, alt, ctrl),
        blocked_key(0x09, true, ctrl),
        blocked_key(0x73, true, ctrl),
        blocked_key(0x1B, alt, true),
{
}

/// Without Alt or Ctrl every key but the two Windows keys reaches the system.
pub proof fn lemma_hook_passes_plain_keys(vk: u16)
    requires
        vk != 0x5B,
        vk != 0x5C,
    ensures
        !blocked_key(vk, false, false),
{
}

/// The text of a monitor name, if there is one.
pub open spec fn name_text(n: Option<String>) -> Option<Seq<char>> {
    match n {
        Some(s) => Some(s@),
        None => None,
    }
}

/// Two monitor names are the same exactly when their whole texts are equal (or both are
/// absent).
pub proof fn lemma_same_name_is_text_equality(a: Option<String>, b: Option<String>)
    ensures
        same_name(a, b) <==> name_text(a) == name_text(b),
{
}

/// When the system reports a primary monitor, a listed monitor is taken as primary exactly
/// when its name is the primary's name as a whole; two monitors with different names are
/// never both primary.
pub proof fn lemma_primary_is_the_named_monitor(names: Seq<Option<String>>, p: Option<String>, i: int, j: int)
    requires
        0 <= i < names.len(),
        0 <= j < names.len(),
    ensures
        is_primary_at(names, Some(p), i) <==> name_text(names[i]) == name_text(p),
        is_primary_at(names, Some(p), i) && is_primary_at(names, Some(p), j) ==> name_text(
            names[i],
        ) == name_text(names[j]),
{
    lemma_same_name_is_text_equality(p, names[i]);
    lemma_same_name_is_text_equality(p, names[j]);
}

} // verus!
