//! Keyboard and mouse decisions: what a key typed into the prompt does to the
//! prompt text, and what the global event tap does with each event.

use vstd::prelude::*;
use crate::text::{to_chars, from_chars};

verus! {

/// Virtual key code of `P`.
pub const VK_ANSI_P: u16 = 35;
/// Virtual key code of Delete (backspace).
pub const VK_DELETE: u16 = 51;
/// Virtual key code of Return.
pub const VK_RETURN: u16 = 36;
/// Virtual key code of keypad Enter.
pub const VK_KP_ENTER: u16 = 76;
/// Virtual key code of Escape.
pub const VK_ESCAPE: u16 = 53;

/// Event type of a key press.
pub const CGE_KEY_DOWN: u32 = 10;
/// Event type of a key release.
pub const CGE_KEY_UP: u32 = 11;
/// Event type sent when the tap was disabled by a timeout.
pub const CGE_TAP_DISABLED_BY_TIMEOUT: u32 = 0xFFFFFFFE;
/// Event type sent when the tap was disabled by user input.
pub const CGE_TAP_DISABLED_BY_USER_INPUT: u32 = 0xFFFFFFFF;
/// Event type of a left mouse press.
pub const CGE_LEFT_MOUSE_DOWN: u32 = 1;
/// Modifier flag of the Command key.
pub const NX_COMMAND_MASK: u64 = 0x0010_0000;
/// Modifier flag of the Shift key.
pub const NX_SHIFT_MASK: u64 = 0x0002_0000;

/// What the caller does after a key reached the prompt.
pub enum KeyOutcome {
    /// Show the (changed) prompt text.
    Redisplay,
    /// Submit the prompt: start loading.
    Submit,
    /// Close the overlay.
    Dismiss,
    /// Nothing changes.
    Ignore,
}

/// A character that may be typed into the prompt: not a control character
/// below space, and not DEL.
pub open spec fn is_printable(c: char) -> bool {
    (c as u32) >= 32 && (c as u32) != 127
}

/// The printable characters of `s`, in order.
pub open spec fn printable_only(s: Seq<char>) -> Seq<char>
    decreases s.len(),
{
    if s.len() == 0 {
        seq![]
    } else if is_printable(s.last()) {
        printable_only(s.drop_last()).push(s.last())
    } else {
        printable_only(s.drop_last())
    }
}

/// `s` without its last character, if any.
pub open spec fn without_last(s: Seq<char>) -> Seq<char> {
    if s.len() > 0 {
        s.drop_last()
    } else {
        s
    }
}

/// Applies a key to the prompt text: Delete removes the last character,
/// Return and Enter submit, Escape dismisses, and any other key appends its
/// printable characters.
pub fn process_key(text: &mut String, keycode: u16, chars: &str) -> (r: KeyOutcome)
    ensures
        keycode == VK_DELETE ==> r is Redisplay && final(text)@ == without_last(old(text)@),
        (keycode == VK_RETURN || keycode == VK_KP_ENTER) ==> r is Submit && final(text)@
            == old(text)@,
        keycode == VK_ESCAPE ==> r is Dismiss && final(text)@ == old(text)@,
        (keycode != VK_DELETE && keycode != VK_RETURN && keycode != VK_KP_ENTER && keycode
            != VK_ESCAPE) ==> {
            &&& final(text)@ == old(text)@ + printable_only(chars@)
            &&& (r is Redisplay <==> printable_only(chars@).len() > 0)
            &&& (r is Ignore <==> printable_only(chars@).len() == 0)
        },
{
    if keycode == VK_DELETE {
        let mut cs = to_chars(text.as_str());
        if cs.len() > 0 {
            cs.pop();
        }
        *text = from_chars(cs.as_slice());
        KeyOutcome::Redisplay
    } else if keycode == VK_RETURN || keycode == VK_KP_ENTER {
        KeyOutcome::Submit
    } else if keycode == VK_ESCAPE {
        KeyOutcome::Dismiss
    } else {
        let cs = to_chars(chars);
        let mut p: Vec<char> = Vec::new();
        let mut i: usize = 0;
        while i < cs.len()
            invariant
                i <= cs@.len(),
                cs@ == chars@,
                p@ == printable_only(cs@.take(i as int)),
            decreases cs@.len() - i,
        {
            let c = cs[i];
            let u = c as u32;
            if u >= 32 && u != 127 {
                p.push(c);
            }
            i = i + 1;
            assert(cs@.take(i as int).drop_last() =~= cs@.take(i - 1));
        }
        assert(cs@.take(cs@.len() as int) =~= cs@);
        if p.len() == 0 {
            KeyOutcome::Ignore
        } else {
            let mut all = to_chars(text.as_str());
            let mut k: usize = 0;
            let ghost start = all@;
            while k < p.len()
                invariant
                    k <= p@.len(),
                    all@ == start + p@.take(k as int),
                decreases p@.len() - k,
            {
                all.push(p[k]);
                k = k + 1;
                assert(p@.take(k as int) =~= p@.take(k - 1).push(p@[k - 1]));
            }
            assert(p@.take(p@.len() as int) =~= p@);
            *text = from_chars(all.as_slice());
            KeyOutcome::Redisplay
        }
    }
}

/// A key pressed in the prompt view itself: with Command held, only Delete,
/// Return, Enter and Escape act; otherwise as `process_key`.
pub fn process_view_key(text: &mut String, keycode: u16, command: bool, chars: &str) -> (r:
    KeyOutcome)
    ensures
        (command && keycode != VK_DELETE && keycode != VK_RETURN && keycode != VK_KP_ENTER
            && keycode != VK_ESCAPE) ==> r is Ignore && final(text)@ == old(text)@,
        !(command && keycode != VK_DELETE && keycode != VK_RETURN && keycode != VK_KP_ENTER
            && keycode != VK_ESCAPE) ==> ({
            let ghost_text = old(text)@;
            &&& keycode == VK_DELETE ==> r is Redisplay && final(text)@ == without_last(ghost_text)
            &&& (keycode == VK_RETURN || keycode == VK_KP_ENTER) ==> r is Submit && final(text)@
                == ghost_text
            &&& keycode == VK_ESCAPE ==> r is Dismiss && final(text)@ == ghost_text
            &&& (keycode != VK_DELETE && keycode != VK_RETURN && keycode != VK_KP_ENTER && keycode
                != VK_ESCAPE) ==> final(text)@ == ghost_text + printable_only(chars@) && (r is Redisplay
                <==> printable_only(chars@).len() > 0) && (r is Ignore <==> printable_only(chars@).len()
                == 0)
        }),
{
    if command && keycode != VK_DELETE && keycode != VK_RETURN && keycode != VK_KP_ENTER
        && keycode != VK_ESCAPE {
        KeyOutcome::Ignore
    } else {
        process_key(text, keycode, chars)
    }
}

/// What the event tap does with one event.
pub enum TapVerdict {
    /// The tap was disabled: enable it again and pass the event on.
    Reenable,
    /// Pass the event on untouched.
    PassThrough,
    /// The user clicked the step's target: advance the tour and pass the click on.
    AdvanceStep,
    /// Command-Shift-P: toggle the overlay and swallow the key.
    Toggle,
    /// A key typed into the prompt: forward it to `process_key` and swallow it.
    ForwardKey,
    /// Escape while the overlay is shown: hide it and pass the key on.
    Hide,
    /// Swallow the event.
    Consume,
}

/// Whether the event is passed on to the frontmost application.
pub open spec fn passes_event(v: TapVerdict) -> bool {
    !(v is Toggle || v is ForwardKey || v is Consume)
}

/// Command is held.
pub open spec fn command_held(flags: u64) -> bool {
    flags & NX_COMMAND_MASK != 0
}

/// Shift is held.
pub open spec fn shift_held(flags: u64) -> bool {
    flags & NX_SHIFT_MASK != 0
}

/// The event tap's decision table.
pub open spec fn tap_decision(
    ev_type: u32,
    keycode: u16,
    flags: u64,
    app_state: u8,
    overlay_active: bool,
    click_armed: bool,
    near_target: bool,
) -> TapVerdict {
    if ev_type == CGE_TAP_DISABLED_BY_TIMEOUT || ev_type == CGE_TAP_DISABLED_BY_USER_INPUT {
        TapVerdict::Reenable
    } else if ev_type == CGE_LEFT_MOUSE_DOWN {
        if app_state == 4 && click_armed && near_target {
            TapVerdict::AdvanceStep
        } else {
            TapVerdict::PassThrough
        }
    } else if ev_type == CGE_KEY_DOWN {
        if keycode == VK_ANSI_P && command_held(flags) && shift_held(flags) {
            TapVerdict::Toggle
        } else if app_state == 2 && !overlay_active && !command_held(flags) {
            TapVerdict::ForwardKey
        } else if keycode == VK_ESCAPE && app_state > 0 {
            TapVerdict::Hide
        } else {
            TapVerdict::PassThrough
        }
    } else if ev_type == CGE_KEY_UP && app_state == 2 && !overlay_active && !command_held(flags) {
        TapVerdict::Consume
    } else {
        TapVerdict::PassThrough
    }
}

/// Decides what the event tap does with an event of type `ev_type`.
/// `app_state` is the overlay's phase number (0 hidden .. 5 done),
/// `click_armed` says the current step is a click, and `near_target` says the
/// click landed within the target radius.
pub fn tap_verdict(
    ev_type: u32,
    keycode: u16,
    flags: u64,
    app_state: u8,
    overlay_active: bool,
    click_armed: bool,
    near_target: bool,
) -> (v: TapVerdict)
    ensures
        v == tap_decision(ev_type, keycode, flags, app_state, overlay_active, click_armed, near_target),
        (ev_type == CGE_TAP_DISABLED_BY_TIMEOUT || ev_type == CGE_TAP_DISABLED_BY_USER_INPUT)
            <==> v is Reenable,
        v is AdvanceStep <==> (ev_type == CGE_LEFT_MOUSE_DOWN && app_state == 4 && click_armed
            && near_target),
        v is Toggle <==> (ev_type == CGE_KEY_DOWN && keycode == VK_ANSI_P && flags
            & NX_COMMAND_MASK != 0 && flags & NX_SHIFT_MASK != 0),
        v is ForwardKey <==> (ev_type == CGE_KEY_DOWN && !(keycode == VK_ANSI_P && flags
            & NX_COMMAND_MASK != 0 && flags & NX_SHIFT_MASK != 0) && app_state == 2
            && !overlay_active && flags & NX_COMMAND_MASK == 0),
        v is Hide <==> (ev_type == CGE_KEY_DOWN && !(keycode == VK_ANSI_P && flags
            & NX_COMMAND_MASK != 0 && flags & NX_SHIFT_MASK != 0) && !(app_state == 2
            && !overlay_active && flags & NX_COMMAND_MASK == 0) && keycode == VK_ESCAPE
            && app_state > 0),
        v is Consume <==> (ev_type == CGE_KEY_UP && app_state == 2 && !overlay_active && flags
            & NX_COMMAND_MASK == 0),
{
    if ev_type == CGE_TAP_DISABLED_BY_TIMEOUT || ev_type == CGE_TAP_DISABLED_BY_USER_INPUT {
        return TapVerdict::Reenable;
    }
    if ev_type == CGE_LEFT_MOUSE_DOWN {
        if app_state == 4 && click_armed && near_target {
            return TapVerdict::AdvanceStep;
        }
        return TapVerdict::PassThrough;
    }
    if ev_type != CGE_KEY_DOWN && ev_type != CGE_KEY_UP {
        return TapVerdict::PassThrough;
    }
    let cmd = flags & NX_COMMAND_MASK != 0;
    let shift = flags & NX_SHIFT_MASK != 0;
    if ev_type == CGE_KEY_DOWN {
        if keycode == VK_ANSI_P && cmd && shift {
            return TapVerdict::Toggle;
        }
        if app_state == 2 && !overlay_active && !cmd {
            return TapVerdict::ForwardKey;
        }
        if keycode == VK_ESCAPE && app_state > 0 {
            return TapVerdict::Hide;
        }
    }
    if app_state == 2 && !overlay_active && !cmd && ev_type == CGE_KEY_UP {
        return TapVerdict::Consume;
    }
    TapVerdict::PassThrough
}


/// While the overlay is hidden the tap swallows nothing but the toggle
/// shortcut: every other event reaches the frontmost application.
pub proof fn law_hidden_passes_events(
    ev_type: u32,
    keycode: u16,
    flags: u64,
    overlay_active: bool,
    click_armed: bool,
    near_target: bool,
)
    ensures
        ({
            let v = tap_decision(ev_type, keycode, flags, 0, overlay_active, click_armed, near_target);
            passes_event(v) || v is Toggle
        }),
{
}

/// Keys are swallowed only while the prompt takes input (phase 2, settings
/// closed, no Command) or for the toggle shortcut.
pub proof fn law_keys_swallowed_only_when_typing(
    ev_type: u32,
    keycode: u16,
    flags: u64,
    app_state: u8,
    overlay_active: bool,
    click_armed: bool,
    near_target: bool,
)
    ensures
        ({
            let v = tap_decision(ev_type, keycode, flags, app_state, overlay_active, click_armed, near_target);
            !passes_event(v) ==> (v is Toggle || (app_state == 2 && !overlay_active
                && !command_held(flags)))
        }),
{
}

/// Escape pressed (without Command) while the overlay shows either hides
/// it directly or goes to the prompt, where it dismisses.
pub proof fn law_escape_hides(flags: u64, app_state: u8, overlay_active: bool, click_armed: bool, near_target: bool)
    requires
        app_state > 0,
        !command_held(flags),
    ensures
        ({
            let v = tap_decision(CGE_KEY_DOWN, VK_ESCAPE, flags, app_state, overlay_active, click_armed, near_target);
            v is Hide || (v is ForwardKey && app_state == 2)
        }),
{
}

/// Typing a printable character and then Delete gives back the text
/// from before.
pub proof fn law_delete_undoes_typing(text: Seq<char>, c: char)
    requires
        is_printable(c),
    ensures
        without_last(text + printable_only(seq![c])) == text,
{
    assert(seq![c].drop_last() =~= Seq::<char>::empty());
    assert(seq![c].last() == c);
    assert(printable_only(Seq::<char>::empty()) == Seq::<char>::empty());
    assert(printable_only(seq![c]) == printable_only(seq![c].drop_last()).push(c));
    assert(printable_only(seq![c]) =~= seq![c]);
    assert((text + seq![c]).drop_last() =~= text);
}

} // verus!
