//! The configuration of the dashboard, and the key bindings in it.

use vstd::prelude::*;
use vstd::string::StrSliceExecFns;

verus! {

/// The character that marks a binding with the control key.
pub const CTRL_REPR: char = '^';

/// The character that marks a binding with the alt key.
pub const ALT_REPR: char = '@';

/// A key that a binding can name.
#[derive(Debug, Clone, Copy, PartialEq, Eq, Structural)]
pub enum KeyEvent {
    /// A character key.
    Char(char),
    /// A character key with the control key held.
    CtrlChar(char),
    /// A character key with the alt key held.
    AltChar(char),
}

/// A key binding of the dashboard.
#[derive(Debug, Clone, Copy, PartialEq, Eq, Structural)]
pub struct KbdEvent {
    pub event: KeyEvent,
}

/// Why a text names no key binding.
#[derive(Debug, Clone, Copy, PartialEq, Eq, Structural)]
pub enum KeyBindingError {
    /// The text names no key at all.
    NoKey,
    /// The text ends after the mark of a modifier.
    NoKeyAfter(char),
}

/// Whether the character counts in a binding: it is ASCII and no white
/// space.
pub open spec fn counts(c: char) -> bool {
    (c as u32) < 128 && !(c == ' ' || ('\t' <= c && c <= '\r'))
}

/// The characters of a text that count in a binding, in their order.
pub open spec fn counting(text: Seq<char>) -> Seq<char>
    decreases text.len(),
{
    if text.len() == 0 {
        text
    } else if counts(text.last()) {
        counting(text.drop_last()).push(text.last())
    } else {
        counting(text.drop_last())
    }
}

/// The binding that the counting characters of a text name: the mark of a
/// modifier and a key, or a key alone. What follows is passed over.
pub open spec fn binding_of(keys: Seq<char>) -> Result<KbdEvent, KeyBindingError> {
    if keys.len() == 0 {
        Err(KeyBindingError::NoKey)
    } else if keys[0] == CTRL_REPR {
        if keys.len() > 1 {
            Ok(KbdEvent { event: KeyEvent::CtrlChar(keys[1]) })
        } else {
            Err(KeyBindingError::NoKeyAfter(CTRL_REPR))
        }
    } else if keys[0] == ALT_REPR {
        if keys.len() > 1 {
            Ok(KbdEvent { event: KeyEvent::AltChar(keys[1]) })
        } else {
            Err(KeyBindingError::NoKeyAfter(ALT_REPR))
        }
    } else {
        Ok(KbdEvent { event: KeyEvent::Char(keys[0]) })
    }
}

/// The text that names a binding.
pub open spec fn binding_text(binding: KbdEvent) -> Seq<char> {
    match binding.event {
        KeyEvent::Char(c) => seq![c],
        KeyEvent::CtrlChar(c) => seq![CTRL_REPR, c],
        KeyEvent::AltChar(c) => seq![ALT_REPR, c],
    }
}

impl KbdEvent {
    /// Reads a binding from the text that names it.
    pub fn parse(text: &str) -> (binding: Result<KbdEvent, KeyBindingError>)
        ensures
            binding == binding_of(counting(text@)),
    {
        let len = text.unicode_len();
        let mut keys: Vec<char> = Vec::new();
        let mut i: usize = 0;
        while i < len
            invariant
                i <= len,
                len == text@.len(),
                keys@ == counting(text@.take(i as int)),
            decreases len - i,
        {
            let c = text.get_char(i);
            assert(text@.take(i + 1).drop_last() =~= text@.take(i as int));
            if (c as u32) < 128 && !(c == ' ' || ('\t' <= c && c <= '\r')) {
                keys.push(c);
            }
            i += 1;
        }
        assert(text@.take(i as int) =~= text@);
        if keys.len() == 0 {
            return Err(KeyBindingError::NoKey);
        }
        let first = keys[0];
        if first == CTRL_REPR {
            if keys.len() > 1 {
                Ok(KbdEvent { event: KeyEvent::CtrlChar(keys[1]) })
            } else {
                Err(KeyBindingError::NoKeyAfter(CTRL_REPR))
            }
        } else if first == ALT_REPR {
            if keys.len() > 1 {
                Ok(KbdEvent { event: KeyEvent::AltChar(keys[1]) })
            } else {
                Err(KeyBindingError::NoKeyAfter(ALT_REPR))
            }
        } else {
            Ok(KbdEvent { event: KeyEvent::Char(first) })
        }
    }

    /// The text that names the binding.
    pub fn to_text(&self) -> (text: String)
        ensures
            text@ == binding_text(*self),
    {
        let mut text = String::new();
        match self.event {
            KeyEvent::Char(c) => {
                text.push(c);
            },
            KeyEvent::CtrlChar(c) => {
                text.push(CTRL_REPR);
                text.push(c);
            },
            KeyEvent::AltChar(c) => {
                text.push(ALT_REPR);
                text.push(c);
            },
        }
        text
    }
}

/// A binding whose keys count reads back from its text as itself.
pub proof fn law_binding_reads_back(binding: KbdEvent)
    requires
        match binding.event {
            KeyEvent::Char(c) => counts(c) && c != CTRL_REPR && c != ALT_REPR,
            KeyEvent::CtrlChar(c) => counts(c),
            KeyEvent::AltChar(c) => counts(c),
        },
    ensures
        binding_of(counting(binding_text(binding))) == Ok::<KbdEvent, KeyBindingError>(binding),
{
    reveal_with_fuel(counting, 3);
}

/// The names of the buttons of the dashboard and the keys bound to them.
#[derive(Clone, Debug, PartialEq, Eq)]
pub struct KeyConfig {
    pub start_btn_name: String,
    pub start_kbd_key: KbdEvent,
    pub stop_btn_name: String,
    pub stop_kbd_key: KbdEvent,
    pub remove_btn_name: String,
    pub remove_kbd_key: KbdEvent,
    pub logs_btn_name: String,
    pub logs_kbd_key: KbdEvent,
    pub help_btn_name: String,
    pub help_kbd_key: KbdEvent,
    pub quit_btn_name: String,
    pub quit_kbd_key: KbdEvent,
    pub describe_btn_name: String,
    pub describe_kbd_key: KbdEvent,
    pub redeploy_btn_name: String,
    pub redeploy_kbd_key: KbdEvent,
    pub redeploy_command: String,
}

/// The configuration of the dashboard.
#[derive(Clone, Debug, PartialEq, Eq)]
pub struct AppConfig {
    /// Seconds a container is given to stop before it is killed.
    pub stop_timeout: u8,
    /// How often per second the list of containers is asked for.
    pub container_list_refresh_fps: u8,
    /// How many lines of a log are asked for, counted from its end.
    pub log_tail_lines: u32,
    /// The socket of the container management.
    pub socket_path: String,
    pub keyconfig: KeyConfig,
}

} // verus!
