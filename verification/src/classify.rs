//! Classifiers: total functions from raw signals (user id, session
//! variables, exit status) to the small closed sets of display states.

use vstd::prelude::*;

use crate::ext;
use crate::strutil;

verus! {

/// The user shown in the prompt: the superuser, the expected user, or
/// somebody else.
pub enum PromptUid {
    Root,
    Normal,
    OtherUser,
}

/// The user/host display state: who we are and whether the session came in
/// over SSH.
pub struct UidAndHost {
    pub uid: PromptUid,
    pub via_ssh: bool,
}

/// How the user classifier reads its inputs: the superuser wins; otherwise
/// the session's username variable must be present and equal to the expected
/// name to count as normal.
pub open spec fn spec_classify_uid(
    is_root: bool,
    username_var: Option<String>,
    default_username: String,
) -> PromptUid {
    if is_root {
        PromptUid::Root
    } else {
        match username_var {
            Some(u) => {
                if u@ == default_username@ {
                    PromptUid::Normal
                } else {
                    PromptUid::OtherUser
                }
            },
            None => PromptUid::OtherUser,
        }
    }
}

/// Classifies the user and the SSH state. `is_root` is the live user-id
/// reading, `username_var` the session's username variable, `via_ssh` whether
/// the session's connection variable is set at all.
pub fn get_uid_and_host(
    is_root: bool,
    username_var: &Option<String>,
    default_username: &String,
    via_ssh: bool,
) -> (r: UidAndHost)
    ensures
        r.uid == spec_classify_uid(is_root, *username_var, *default_username),
        r.via_ssh == via_ssh,
{
    let uid = if is_root {
        PromptUid::Root
    } else {
        match username_var {
            Some(u) => {
                if strutil::str_eq(u.as_str(), default_username.as_str()) {
                    PromptUid::Normal
                } else {
                    PromptUid::OtherUser
                }
            },
            None => PromptUid::OtherUser,
        }
    };
    UidAndHost { uid, via_ssh }
}

/// The line editor's input mode, as shown in the prompt.
pub enum KeyMode {
    Emacs,
    Insert,
    Normal,
    Unknown(String),
}

/// The marker shown when the session's keymap variable is not set at all.
pub open spec fn spec_keymap_unset_marker() -> Seq<char> {
    "< $KEYMAP unset >"@
}

/// Classifies the session's keymap variable. The `main` keymap is emacs for
/// an emacs-configured caller and vi-insert for a vi-configured one; `vicmd`
/// is vi-normal; anything else is carried through for display.
pub fn key_mode(vi_mode: bool, keymap_var: &Option<String>) -> (r: KeyMode)
    ensures
        match *keymap_var {
            Some(k) => {
                if k@ == "main"@ {
                    r == if vi_mode {
                        KeyMode::Insert
                    } else {
                        KeyMode::Emacs
                    }
                } else if k@ == "vicmd"@ {
                    r == KeyMode::Normal
                } else {
                    match r {
                        KeyMode::Unknown(u) => u@ == k@,
                        _ => false,
                    }
                }
            },
            None => match r {
                KeyMode::Unknown(u) => u@ == spec_keymap_unset_marker(),
                _ => false,
            },
        },
{
    match keymap_var {
        Some(k) => {
            if strutil::str_eq(k.as_str(), "main") {
                if vi_mode {
                    KeyMode::Insert
                } else {
                    KeyMode::Emacs
                }
            } else if strutil::str_eq(k.as_str(), "vicmd") {
                KeyMode::Normal
            } else {
                KeyMode::Unknown(k.clone())
            }
        },
        None => KeyMode::Unknown("< $KEYMAP unset >".to_owned()),
    }
}

/// How the previous command ended: cleanly, with a nonzero status, or killed
/// by a signal (carried by name).
pub enum LastCommandExitStatus {
    Success,
    Error,
    Signal(String),
}

impl LastCommandExitStatus {
    /// Classifies a raw exit status. Zero is success; a status of 128 plus a
    /// valid signal number means the command died of that signal; every other
    /// value, including negatives and pseudo-signal codes that match no
    /// signal, is a plain error. Total over all inputs.
    pub fn from_exit_status(exit_status: i32) -> (r: LastCommandExitStatus)
        ensures
            exit_status == 0 <==> r is Success,
            exit_status != 0 && (exit_status < 128 || !ext::is_signal_code(exit_status - 128))
                ==> r is Error,
            exit_status >= 128 && ext::is_signal_code(exit_status - 128) ==> (r matches
                LastCommandExitStatus::Signal(name) && name@ == ext::signal_name(exit_status - 128)),
    {
        if exit_status == 0 {
            return LastCommandExitStatus::Success;
        }
        if 128 <= exit_status {
            if let Some(name) = ext::lookup_signal_name(exit_status - 128) {
                return LastCommandExitStatus::Signal(name);
            }
        }
        LastCommandExitStatus::Error
    }
}

/// The glyph that ends the prompt: one for the superuser, one for everyone
/// else.
pub enum CmdSymbol {
    Root,
    NotRoot,
}

/// Classifies the live user-id reading into the closing glyph.
pub fn cmd_symbol(is_root: bool) -> (r: CmdSymbol)
    ensures
        is_root <==> r is Root,
{
    if is_root {
        CmdSymbol::Root
    } else {
        CmdSymbol::NotRoot
    }
}

} // verus!
