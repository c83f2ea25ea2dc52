//! Formatting: each display state maps to a fixed fragment of the host
//! shell's inline escape syntax, and the fragments concatenate in a fixed
//! order into the final prompt string.

use vstd::prelude::*;

use crate::classify::{CmdSymbol, KeyMode, LastCommandExitStatus, PromptUid, UidAndHost};
use crate::git_head::{GitHead, Location};
use crate::strutil;
use crate::timing::LastCommandTiming;

verus! {

/// Whether the separator between user and host is shown: whenever the user
/// state is not the plain expected user — the superuser included, even
/// without SSH — or the session came in over SSH.
pub open spec fn spec_show_at(u: UidAndHost) -> bool {
    !(u.uid is Normal) || u.via_ssh
}

pub open spec fn spec_uid_name_part(uid: PromptUid) -> Seq<char> {
    match uid {
        PromptUid::Root => "%B%F{red}%n%f%b"@,
        PromptUid::Normal => Seq::<char>::empty(),
        PromptUid::OtherUser => "%B%F{yellow}%n%f%b"@,
    }
}

pub open spec fn spec_at_part(u: UidAndHost) -> Seq<char> {
    if spec_show_at(u) {
        if u.uid is Normal {
            "%F{green}@%f"@
        } else {
            "%F{yellow}@%f"@
        }
    } else {
        Seq::<char>::empty()
    }
}

pub open spec fn spec_host_part(u: UidAndHost) -> Seq<char> {
    if u.via_ssh {
        "%B%F{green}%M%f%b"@
    } else {
        Seq::<char>::empty()
    }
}

pub open spec fn spec_uid_trailer(u: UidAndHost) -> Seq<char> {
    if spec_show_at(u) {
        " "@
    } else {
        Seq::<char>::empty()
    }
}

/// The user/host fragment: the user marker, then the separator, then the
/// host marker, then one space, each part only in its state.
pub open spec fn spec_uid_fragment(u: UidAndHost) -> Seq<char> {
    spec_uid_name_part(u.uid) + spec_at_part(u) + spec_host_part(u) + spec_uid_trailer(u)
}

pub fn uid_fragment(u: &UidAndHost) -> (r: String)
    ensures
        r@ == spec_uid_fragment(*u),
{
    let mut s = String::new();
    match &u.uid {
        PromptUid::Root => s.append("%B%F{red}%n%f%b"),
        PromptUid::Normal => (),
        PromptUid::OtherUser => s.append("%B%F{yellow}%n%f%b"),
    }
    let is_normal = match &u.uid {
        PromptUid::Normal => true,
        _ => false,
    };
    let output_at = !is_normal || u.via_ssh;
    if output_at {
        if is_normal {
            s.append("%F{green}@%f");
        } else {
            s.append("%F{yellow}@%f");
        }
    }
    if u.via_ssh {
        s.append("%B%F{green}%M%f%b");
    }
    if output_at {
        s.append(" ");
    }
    proof {
        assert(s@ =~= spec_uid_fragment(*u));
    }
    s
}

/// The branch part of the location fragment: a green branch name, a yellow
/// detached-head note, or a red error marker.
pub open spec fn spec_branch_fragment(b: Result<GitHead, crate::git_head::HeadError>) -> Seq<
    char,
> {
    match b {
        Ok(GitHead::Branch(name)) => "%F{green}"@ + name@ + "%f"@,
        Ok(GitHead::Detached(c)) => "%F{yellow}(detached HEAD: "@ + c@ + ")%f"@,
        Err(_) => "%B%F{red}(err)%f%b"@,
    }
}

/// The prefix part of the location fragment: the path below the root in
/// blue, or a red error marker.
pub open spec fn spec_prefix_fragment(p: Option<String>) -> Seq<char> {
    match p {
        Some(path) => "%B%F{blue}/"@ + path@ + "%f%b"@,
        None => "%B%F{red}(err)%f%b"@,
    }
}

/// The location fragment: repository glyph, name, branch and prefix when
/// inside a repository, else the plain current-directory indicator.
pub open spec fn spec_location_fragment(loc: Location) -> Seq<char> {
    match loc {
        Location::Git { repo, branch, prefix } => "%F{green}±%f %B"@ + repo@ + "%b:"@
            + spec_branch_fragment(branch) + ":"@ + spec_prefix_fragment(prefix),
        Location::NotGit => "%B%F{blue}%~%f%b"@,
    }
}

pub fn location_fragment(loc: &Location) -> (r: String)
    ensures
        r@ == spec_location_fragment(*loc),
{
    match loc {
        Location::Git { repo, branch, prefix } => {
            let mut s = "%F{green}±%f %B".to_owned();
            s.append(repo.as_str());
            s.append("%b:");
            match branch {
                Ok(GitHead::Branch(name)) => {
                    s.append("%F{green}");
                    s.append(name.as_str());
                    s.append("%f");
                },
                Ok(GitHead::Detached(c)) => {
                    s.append("%F{yellow}(detached HEAD: ");
                    s.append(c.as_str());
                    s.append(")%f");
                },
                Err(_) => s.append("%B%F{red}(err)%f%b"),
            }
            s.append(":");
            match prefix {
                Some(path) => {
                    s.append("%B%F{blue}/");
                    s.append(path.as_str());
                    s.append("%f%b");
                },
                None => s.append("%B%F{red}(err)%f%b"),
            }
            proof {
                assert(s@ =~= spec_location_fragment(*loc));
            }
            s
        },
        Location::NotGit => "%B%F{blue}%~%f%b".to_owned(),
    }
}

/// The pretty form of an elapsed time: below one second, plain milliseconds;
/// from one second on, days, hours, minutes and seconds, where each larger
/// unit appears only when it or a still larger one is nonzero, single spaces
/// stand between the units and none before the first, and the millisecond
/// remainder appears only below one hour.
pub open spec fn spec_pretty_elapsed(ms: nat) -> Seq<char> {
    if ms < 1000 {
        strutil::dec_seq(ms) + "ms"@
    } else {
        let days = ms / 86400000;
        let hours = (ms % 86400000) / 3600000;
        let minutes = (ms % 3600000) / 60000;
        let seconds = (ms % 60000) / 1000;
        let subms = ms % 1000;
        (if days > 0 {
            strutil::dec_seq(days) + "d "@
        } else {
            Seq::<char>::empty()
        }) + (if days > 0 || hours > 0 {
            strutil::dec_seq(hours) + "h "@
        } else {
            Seq::<char>::empty()
        }) + (if days > 0 || hours > 0 || minutes > 0 {
            strutil::dec_seq(minutes) + "m "@
        } else {
            Seq::<char>::empty()
        }) + strutil::dec_seq(seconds) + (if ms < 3600000 {
            "."@ + strutil::pad3_seq(subms)
        } else {
            Seq::<char>::empty()
        }) + "s"@
    }
}

pub fn pretty_elapsed(ms: u128) -> (r: String)
    ensures
        r@ == spec_pretty_elapsed(ms as nat),
{
    if ms < 1000 {
        let mut s = strutil::u128_to_string(ms);
        s.append("ms");
        s
    } else {
        let days = ms / 86400000;
        let hours = (ms % 86400000) / 3600000;
        let minutes = (ms % 3600000) / 60000;
        let seconds = (ms % 60000) / 1000;
        let subms = ms % 1000;
        let mut s = String::new();
        if days > 0 {
            let d = strutil::u128_to_string(days);
            s.append(d.as_str());
            s.append("d ");
        }
        if days > 0 || hours > 0 {
            let h = strutil::u128_to_string(hours);
            s.append(h.as_str());
            s.append("h ");
        }
        if days > 0 || hours > 0 || minutes > 0 {
            let m = strutil::u128_to_string(minutes);
            s.append(m.as_str());
            s.append("m ");
        }
        let sec = strutil::u128_to_string(seconds);
        s.append(sec.as_str());
        if ms < 3600000 {
            s.append(".");
            let frac = strutil::u128_to_padded3(subms);
            s.append(frac.as_str());
        }
        s.append("s");
        proof {
            assert(s@ =~= spec_pretty_elapsed(ms as nat));
        }
        s
    }
}

/// Whether the elapsed time of the previous command is shown at all: only
/// when one was measured and it reaches the threshold.
pub open spec fn spec_timing_shown(elapsed_ms: Option<u128>, threshold_ms: u32) -> bool {
    elapsed_ms matches Some(ms) && threshold_ms <= ms
}

/// The elapsed-time fragment: the timer glyph, the pretty duration and a
/// line break when shown, else nothing.
pub open spec fn spec_timing_fragment(elapsed_ms: Option<u128>, threshold_ms: u32) -> Seq<char> {
    match elapsed_ms {
        Some(ms) => if threshold_ms <= ms {
            "⏱"@ + spec_pretty_elapsed(ms as nat) + "\n"@
        } else {
            Seq::<char>::empty()
        },
        None => Seq::<char>::empty(),
    }
}

pub fn timing_fragment(timing: &LastCommandTiming, threshold_ms: u32) -> (r: String)
    ensures
        r@ == spec_timing_fragment(timing.elapsed_ms, threshold_ms),
{
    match &timing.elapsed_ms {
        Some(ms) => {
            if (threshold_ms as u128) <= *ms {
                let mut s = "⏱".to_owned();
                let p = pretty_elapsed(*ms);
                s.append(p.as_str());
                s.append("\n");
                proof {
                    assert(s@ =~= spec_timing_fragment(timing.elapsed_ms, threshold_ms));
                }
                s
            } else {
                String::new()
            }
        },
        None => String::new(),
    }
}

/// The elapsed time is shown exactly when it reaches the threshold; a new
/// threshold moves this boundary for the renders that follow, and for them
/// alone, since every render reads the threshold afresh and the fragment is
/// a pure function of its two inputs.
pub proof fn lemma_timing_shown_boundary(elapsed_ms: u128, threshold_ms: u32)
    ensures
        spec_timing_fragment(Some(elapsed_ms), threshold_ms).len() > 0 <==> threshold_ms
            <= elapsed_ms,
        spec_timing_shown(Some(elapsed_ms), threshold_ms) <==> threshold_ms <= elapsed_ms,
{
    reveal_strlit("⏱");
    reveal_strlit("\n");
}

/// The end-timestamp note inside the failure fragment, present when a
/// wall-clock end time is known.
pub open spec fn spec_end_fragment(end: Option<String>) -> Seq<char> {
    match end {
        Some(ts) => "%b; failed at "@ + ts@ + "%B"@,
        None => Seq::<char>::empty(),
    }
}

/// The last-exit fragment: nothing after success; a red note with the status
/// expansion after an error; a red note with the signal's name after a
/// signal; each annotated with the end timestamp when known.
pub open spec fn spec_exit_fragment(status: LastCommandExitStatus, end: Option<String>) -> Seq<
    char,
> {
    match status {
        LastCommandExitStatus::Success => Seq::<char>::empty(),
        LastCommandExitStatus::Error => "%F{red}%B(last command returned %?"@ + spec_end_fragment(
            end,
        ) + "%)%b%f\n"@,
        LastCommandExitStatus::Signal(name) => "%F{red}%B(last command got signal "@ + name@
            + spec_end_fragment(end) + ")%b%f\n"@,
    }
}

pub fn exit_fragment(status: &LastCommandExitStatus, end: &Option<String>) -> (r: String)
    ensures
        r@ == spec_exit_fragment(*status, *end),
{
    match status {
        LastCommandExitStatus::Success => String::new(),
        LastCommandExitStatus::Error => {
            let mut s = "%F{red}%B(last command returned %?".to_owned();
            append_end_fragment(&mut s, end);
            s.append("%)%b%f\n");
            proof {
                assert(s@ =~= spec_exit_fragment(*status, *end));
            }
            s
        },
        LastCommandExitStatus::Signal(name) => {
            let mut s = "%F{red}%B(last command got signal ".to_owned();
            s.append(name.as_str());
            append_end_fragment(&mut s, end);
            s.append(")%b%f\n");
            proof {
                assert(s@ =~= spec_exit_fragment(*status, *end));
            }
            s
        },
    }
}

fn append_end_fragment(s: &mut String, end: &Option<String>)
    ensures
        final(s)@ == old(s)@ + spec_end_fragment(*end),
{
    match end {
        Some(ts) => {
            s.append("%b; failed at ");
            s.append(ts.as_str());
            s.append("%B");
            proof {
                assert(s@ =~= old(s)@ + spec_end_fragment(*end));
            }
        },
        None => {
            proof {
                assert(s@ =~= old(s)@ + spec_end_fragment(*end));
            }
        },
    }
}

/// The edit-mode fragment: nothing for emacs, a bracketed marker for the vi
/// modes, and a bracketed question note carrying the raw keymap otherwise.
pub open spec fn spec_keymode_fragment(m: KeyMode) -> Seq<char> {
    match m {
        KeyMode::Emacs => Seq::<char>::empty(),
        KeyMode::Insert => "[%{\x1b[92m%}i%{\x1b[0m%}] "@,
        KeyMode::Normal => "[%{\x1b[93m%}n%{\x1b[0m%}] "@,
        KeyMode::Unknown(map) => "[? ("@ + map@ + ")] "@,
    }
}

pub fn keymode_fragment(m: &KeyMode) -> (r: String)
    ensures
        r@ == spec_keymode_fragment(*m),
{
    match m {
        KeyMode::Emacs => String::new(),
        KeyMode::Insert => "[%{\x1b[92m%}i%{\x1b[0m%}] ".to_owned(),
        KeyMode::Normal => "[%{\x1b[93m%}n%{\x1b[0m%}] ".to_owned(),
        KeyMode::Unknown(map) => {
            let mut s = "[? (".to_owned();
            s.append(map.as_str());
            s.append(")] ");
            proof {
                assert(s@ =~= spec_keymode_fragment(*m));
            }
            s
        },
    }
}

/// The closing glyph: a red hash for the superuser, a blue chevron
/// otherwise.
pub open spec fn spec_cmd_fragment(c: CmdSymbol) -> Seq<char> {
    match c {
        CmdSymbol::Root => "%F{red}%B#%b%f"@,
        CmdSymbol::NotRoot => "%{\x1b[1;38;5;033m%}»%{\x1b[0m%}"@,
    }
}

pub fn cmd_fragment(c: &CmdSymbol) -> (r: String)
    ensures
        r@ == spec_cmd_fragment(*c),
{
    match c {
        CmdSymbol::Root => "%F{red}%B#%b%f".to_owned(),
        CmdSymbol::NotRoot => "%{\x1b[1;38;5;033m%}»%{\x1b[0m%}".to_owned(),
    }
}

/// The whole prompt: user/host, location, a line break, then the
/// elapsed-time and last-exit notes (each carrying its own line break when
/// shown), the edit-mode marker, the closing glyph and one trailing space.
pub open spec fn spec_compose(
    u: UidAndHost,
    loc: Location,
    elapsed_ms: Option<u128>,
    threshold_ms: u32,
    status: LastCommandExitStatus,
    end: Option<String>,
    mode: KeyMode,
    sym: CmdSymbol,
) -> Seq<char> {
    spec_uid_fragment(u) + spec_location_fragment(loc) + "\n"@ + spec_timing_fragment(
        elapsed_ms,
        threshold_ms,
    ) + spec_exit_fragment(status, end) + spec_keymode_fragment(mode) + spec_cmd_fragment(sym)
        + " "@
}

/// Concatenates the fragments of the already-classified display states in
/// their fixed order.
pub fn compose_prompt(
    u: &UidAndHost,
    loc: &Location,
    timing: &LastCommandTiming,
    threshold_ms: u32,
    status: &LastCommandExitStatus,
    end: &Option<String>,
    mode: &KeyMode,
    sym: &CmdSymbol,
) -> (r: String)
    ensures
        r@ == spec_compose(*u, *loc, timing.elapsed_ms, threshold_ms, *status, *end, *mode, *sym),
{
    let mut s = uid_fragment(u);
    let part = location_fragment(loc);
    s.append(part.as_str());
    s.append("\n");
    let part = timing_fragment(timing, threshold_ms);
    s.append(part.as_str());
    let part = exit_fragment(status, end);
    s.append(part.as_str());
    let part = keymode_fragment(mode);
    s.append(part.as_str());
    let part = cmd_fragment(sym);
    s.append(part.as_str());
    s.append(" ");
    proof {
        assert(s@ =~= spec_compose(
            *u,
            *loc,
            timing.elapsed_ms,
            threshold_ms,
            *status,
            *end,
            *mode,
            *sym,
        ));
    }
    s
}

} // verus!
