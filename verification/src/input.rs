//! Typing a message into the game: the key presses around pasting it from
//! the clipboard, and the short form of a message used in the log.

use vstd::prelude::*;
use vstd::string::StrSliceExecFns;
use crate::text::push_char;

verus! {

/// Virtual-key code of Enter.
pub const VK_RETURN: u16 = 0x0D;

/// Virtual-key code of V.
pub const VK_V: u16 = 0x56;

/// Virtual-key code of the left Ctrl key.
pub const VK_LCONTROL: u16 = 0xA2;

/// Virtual-key code of the right Shift key.
pub const VK_RSHIFT: u16 = 0xA1;

/// Characters of a message kept in the log.
pub const LOG_PREVIEW_CHARS: usize = 20;

/// One step of typing a message.
#[derive(Debug, Clone, Copy, PartialEq, Eq, Structural)]
pub enum InputStep {
    /// Press a key.
    KeyDown(u16),
    /// Release a key.
    KeyUp(u16),
    /// Wait this many milliseconds.
    Pause(u64),
}

/// Press and release a key.
pub open spec fn tap(vk: u16) -> Seq<InputStep> {
    seq![InputStep::KeyDown(vk), InputStep::KeyUp(vk)]
}

/// The steps after the message is on the clipboard: wait; unless in chat
/// mode open the chat box with Enter (Shift+Enter for the public channel);
/// paste with Ctrl+V; wait; unless in chat mode send with Enter.
pub open spec fn paste_steps(public_chat: bool, chat_mode: bool) -> Seq<InputStep> {
    let open_chat = if chat_mode {
        Seq::empty()
    } else if public_chat {
        seq![InputStep::KeyDown(VK_RSHIFT)] + tap(VK_RETURN) + seq![InputStep::KeyUp(VK_RSHIFT), InputStep::Pause(20)]
    } else {
        tap(VK_RETURN) + seq![InputStep::Pause(20)]
    };
    let paste = seq![
        InputStep::KeyDown(VK_LCONTROL),
        InputStep::KeyDown(VK_V),
        InputStep::KeyUp(VK_V),
        InputStep::KeyUp(VK_LCONTROL),
        InputStep::Pause(20),
    ];
    let send = if chat_mode { Seq::empty() } else { tap(VK_RETURN) };
    seq![InputStep::Pause(30)] + open_chat + paste + send
}

/// The steps that type a message once it is on the clipboard.
pub fn paste_plan(public_chat: bool, chat_mode: bool) -> (r: Vec<InputStep>)
    ensures
        r@ == paste_steps(public_chat, chat_mode),
{
    let mut v: Vec<InputStep> = Vec::new();
    v.push(InputStep::Pause(30));
    if !chat_mode {
        if public_chat {
            v.push(InputStep::KeyDown(VK_RSHIFT));
        }
        v.push(InputStep::KeyDown(VK_RETURN));
        v.push(InputStep::KeyUp(VK_RETURN));
        if public_chat {
            v.push(InputStep::KeyUp(VK_RSHIFT));
        }
        v.push(InputStep::Pause(20));
    }
    v.push(InputStep::KeyDown(VK_LCONTROL));
    v.push(InputStep::KeyDown(VK_V));
    v.push(InputStep::KeyUp(VK_V));
    v.push(InputStep::KeyUp(VK_LCONTROL));
    v.push(InputStep::Pause(20));
    if !chat_mode {
        v.push(InputStep::KeyDown(VK_RETURN));
        v.push(InputStep::KeyUp(VK_RETURN));
    }
    assert(v@ =~= paste_steps(public_chat, chat_mode));
    v
}

/// The first 20 characters of a message (all of a shorter one), for the log.
pub fn truncate_for_log(text: &str) -> (r: String)
    ensures
        r@ == text@.take(if text@.len() < LOG_PREVIEW_CHARS { text@.len() as int } else { LOG_PREVIEW_CHARS as int }),
{
    let n = text.unicode_len();
    let k = if n < LOG_PREVIEW_CHARS { n } else { LOG_PREVIEW_CHARS };
    let mut s = String::new();
    let mut i: usize = 0;
    while i < k
        invariant
            n == text@.len(),
            k <= n,
            i <= k,
            s@ == text@.take(i as int),
        decreases k - i,
    {
        push_char(&mut s, text.get_char(i));
        assert(text@.take(i + 1) =~= text@.take(i as int).push(text@[i as int]));
        i = i + 1;
    }
    s
}

/// Paste with Ctrl+V and wait.
pub open spec fn ctrl_v_steps() -> Seq<InputStep> {
    seq![
        InputStep::KeyDown(VK_LCONTROL),
        InputStep::KeyDown(VK_V),
        InputStep::KeyUp(VK_V),
        InputStep::KeyUp(VK_LCONTROL),
        InputStep::Pause(20),
    ]
}

/// Typing law: in chat mode a message is only pasted, whatever the channel:
/// no Enter and no Shift is pressed. Otherwise the chat box is opened with
/// Enter (held Shift for the public channel, none for the team channel),
/// the message pasted, and sent with Enter.
pub proof fn lemma_paste_plan_modes(public_chat: bool)
    ensures
        paste_steps(public_chat, true) == seq![InputStep::Pause(30)] + ctrl_v_steps(),
        forall|i: int| 0 <= i < paste_steps(public_chat, true).len() ==> {
            let st = #[trigger] paste_steps(public_chat, true)[i];
            st != InputStep::KeyDown(VK_RETURN) && st != InputStep::KeyDown(VK_RSHIFT)
        },
        paste_steps(true, false) == seq![
            InputStep::Pause(30),
            InputStep::KeyDown(VK_RSHIFT),
            InputStep::KeyDown(VK_RETURN),
            InputStep::KeyUp(VK_RETURN),
            InputStep::KeyUp(VK_RSHIFT),
            InputStep::Pause(20),
        ] + ctrl_v_steps() + seq![InputStep::KeyDown(VK_RETURN), InputStep::KeyUp(VK_RETURN)],
        paste_steps(false, false) == seq![
            InputStep::Pause(30),
            InputStep::KeyDown(VK_RETURN),
            InputStep::KeyUp(VK_RETURN),
            InputStep::Pause(20),
        ] + ctrl_v_steps() + seq![InputStep::KeyDown(VK_RETURN), InputStep::KeyUp(VK_RETURN)],
{
    assert(paste_steps(public_chat, true) =~= seq![InputStep::Pause(30)] + ctrl_v_steps());
    assert(paste_steps(true, false) =~= seq![
        InputStep::Pause(30),
        InputStep::KeyDown(VK_RSHIFT),
        InputStep::KeyDown(VK_RETURN),
        InputStep::KeyUp(VK_RETURN),
        InputStep::KeyUp(VK_RSHIFT),
        InputStep::Pause(20),
    ] + ctrl_v_steps() + seq![InputStep::KeyDown(VK_RETURN), InputStep::KeyUp(VK_RETURN)]);
    assert(paste_steps(false, false) =~= seq![
        InputStep::Pause(30),
        InputStep::KeyDown(VK_RETURN),
        InputStep::KeyUp(VK_RETURN),
        InputStep::Pause(20),
    ] + ctrl_v_steps() + seq![InputStep::KeyDown(VK_RETURN), InputStep::KeyUp(VK_RETURN)]);
}

} // verus!
