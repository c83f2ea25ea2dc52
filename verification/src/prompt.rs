//! The render entry point: argument validation, classification of the
//! gathered state, and composition of the final prompt string.

use vstd::prelude::*;

use crate::classify;
use crate::classify::{CmdSymbol, LastCommandExitStatus, PromptUid, UidAndHost};
use crate::ext;
use crate::git_head;
use crate::git_head::{Location, RepoQuery};
use crate::render;
use crate::strutil;
use crate::timing::{LastCommandTiming, TimingInfo};

verus! {

/// Why a render call was refused before any output was produced.
#[derive(Debug)]
pub enum ArgError {
    /// Not exactly three arguments were given.
    WrongCount,
    /// The previous exit status is not a signed integer.
    ExitStatusNotInteger,
    /// The edit-mode token is neither of the two accepted literals.
    BadModeToken,
}

impl ArgError {
    /// The message the host prints to its error output for this failure.
    pub fn message(&self) -> (r: String)
        ensures
            self is WrongCount ==> r@
                == "Usage:\n\t_rust-prompt-alpha \"$?\" \"$_PROMPT_ALPHA_DEFAULT_USER\" \"emacs|vi\""@,
            self is ExitStatusNotInteger ==> r@ == "Could not convert $1 to integer"@,
            self is BadModeToken ==> r@ == "The emacs|vi arg must be emacs, or vi."@,
    {
        match self {
            ArgError::WrongCount => "Usage:\n\t_rust-prompt-alpha \"$?\" \"$_PROMPT_ALPHA_DEFAULT_USER\" \"emacs|vi\"".to_owned(),
            ArgError::ExitStatusNotInteger => "Could not convert $1 to integer".to_owned(),
            ArgError::BadModeToken => "The emacs|vi arg must be emacs, or vi.".to_owned(),
        }
    }

    /// The exit code reported for this failure.
    pub fn exit_code(&self) -> (r: i32)
        ensures
            r == 1,
    {
        1
    }
}

/// The three positional inputs of one render call, validated.
pub struct Args {
    /// The previous command's exit status.
    pub last_exit_status: i32,
    /// The username the session is expected to run under.
    pub default_username: String,
    /// Whether the caller runs the line editor in vi mode.
    pub vi_mode: bool,
}

/// Whether a raw argument list is accepted: exactly three entries, the first
/// a signed integer, the third one of the two mode literals.
pub open spec fn spec_args_valid(args: Seq<String>) -> bool {
    &&& args.len() == 3
    &&& strutil::is_i32_numeral(args[0]@)
    &&& (args[2]@ == "emacs"@ || args[2]@ == "vi"@)
}

/// Validates the raw argument list: the count, then the exit status, then
/// the mode token, refusing at the first failure as the host reports them.
pub fn parse_args(args: &Vec<String>) -> (r: Result<Args, ArgError>)
    ensures
        args@.len() != 3 ==> r == Err::<Args, ArgError>(ArgError::WrongCount),
        args@.len() == 3 && !strutil::is_i32_numeral(args@[0]@) ==> r == Err::<Args, ArgError>(
            ArgError::ExitStatusNotInteger,
        ),
        args@.len() == 3 && strutil::is_i32_numeral(args@[0]@) && args@[2]@ != "emacs"@
            && args@[2]@ != "vi"@ ==> r == Err::<Args, ArgError>(ArgError::BadModeToken),
        spec_args_valid(args@) ==> (r matches Ok(a) && a.last_exit_status
            == strutil::i32_numeral_value(args@[0]@) && a.default_username@ == args@[1]@
            && a.vi_mode == (args@[2]@ == "vi"@)),
{
    if args.len() != 3 {
        return Err(ArgError::WrongCount);
    }
    let last_exit_status = match strutil::parse_i32(args[0].as_str()) {
        Some(v) => v,
        None => {
            return Err(ArgError::ExitStatusNotInteger);
        },
    };
    proof {
        reveal_strlit("emacs");
        reveal_strlit("vi");
        assert("emacs"@.len() != "vi"@.len());
    }
    let vi_mode = if strutil::str_eq(args[2].as_str(), "emacs") {
        false
    } else if strutil::str_eq(args[2].as_str(), "vi") {
        true
    } else {
        return Err(ArgError::BadModeToken);
    };
    Ok(Args { last_exit_status, default_username: args[1].clone(), vi_mode })
}

/// The session state the host gathered for one render: the relevant session
/// variables and what the repository queries returned.
pub struct PromptEnv {
    /// The session's username variable, when set.
    pub username_var: Option<String>,
    /// Whether the session's SSH connection variable is set at all.
    pub ssh_connection_set: bool,
    /// The session's keymap variable, when set.
    pub keymap_var: Option<String>,
    /// What the repository queries found around the current directory.
    pub repo: RepoQuery,
}

/// The user classification over the username variable's text alone.
pub open spec fn spec_classify_uid_text(
    is_root: bool,
    username_var: Option<String>,
    default_username: Seq<char>,
) -> PromptUid {
    if is_root {
        PromptUid::Root
    } else {
        match username_var {
            Some(u) => {
                if u@ == default_username {
                    PromptUid::Normal
                } else {
                    PromptUid::OtherUser
                }
            },
            None => PromptUid::OtherUser,
        }
    }
}

/// The user/host fragment, straight from the render's inputs.
pub open spec fn spec_uid_fragment_of(
    is_root: bool,
    username_var: Option<String>,
    default_username: Seq<char>,
    ssh: bool,
) -> Seq<char> {
    render::spec_uid_fragment(
        UidAndHost {
            uid: spec_classify_uid_text(is_root, username_var, default_username),
            via_ssh: ssh,
        },
    )
}

/// The branch part of the location fragment, straight from the raw text of
/// the head-reference file.
pub open spec fn spec_branch_fragment_of_file(head_file: Option<String>) -> Seq<char> {
    match head_file {
        None => "%B%F{red}(err)%f%b"@,
        Some(text) => {
            if !git_head::has_final_newline(text@) {
                "%B%F{red}(err)%f%b"@
            } else if strutil::seq_starts_with(text@.drop_last(), "ref: refs/heads/"@) {
                "%F{green}"@ + text@.drop_last().skip(16) + "%f"@
            } else if strutil::seq_starts_with(text@.drop_last(), "ref: "@) {
                "%B%F{red}(err)%f%b"@
            } else {
                "%F{yellow}(detached HEAD: "@ + text@.drop_last() + ")%f"@
            }
        },
    }
}

/// The prefix part of the location fragment, straight from the raw prefix.
pub open spec fn spec_prefix_fragment_of_raw(raw: Option<String>) -> Seq<char> {
    match raw {
        None => "%B%F{red}(err)%f%b"@,
        Some(p) => "%B%F{blue}/"@ + (if p@.len() > 0 && p@.last() == '/' {
            p@.drop_last()
        } else {
            p@
        }) + "%f%b"@,
    }
}

/// The location fragment, straight from what the repository queries
/// returned.
pub open spec fn spec_location_fragment_of_query(q: RepoQuery) -> Seq<char> {
    match q {
        RepoQuery::NotInRepo => "%B%F{blue}%~%f%b"@,
        RepoQuery::InRepo { root, head_file, prefix } => "%F{green}±%f %B"@
            + git_head::spec_repo_display_name(root@) + "%b:"@ + spec_branch_fragment_of_file(
            head_file,
        ) + ":"@ + spec_prefix_fragment_of_raw(prefix),
    }
}

/// A location that matches a query renders to the query's fragment.
proof fn lemma_location_fragment_of_query(q: RepoQuery, loc: Location)
    requires
        git_head::spec_location_matches(q, loc),
    ensures
        render::spec_location_fragment(loc) == spec_location_fragment_of_query(q),
{
}

/// The last-exit fragment, straight from the raw exit status.
pub open spec fn spec_exit_fragment_of(exit_status: int, end: Option<String>) -> Seq<char> {
    if exit_status == 0 {
        Seq::<char>::empty()
    } else if exit_status >= 128 && ext::is_signal_code(exit_status - 128) {
        "%F{red}%B(last command got signal "@ + ext::signal_name(exit_status - 128)
            + render::spec_end_fragment(end) + ")%b%f\n"@
    } else {
        "%F{red}%B(last command returned %?"@ + render::spec_end_fragment(end) + "%)%b%f\n"@
    }
}

/// The edit-mode fragment, straight from the keymap variable.
pub open spec fn spec_keymode_fragment_of(vi_mode: bool, keymap_var: Option<String>) -> Seq<
    char,
> {
    match keymap_var {
        Some(k) => {
            if k@ == "main"@ {
                if vi_mode {
                    "[%{\x1b[92m%}i%{\x1b[0m%}] "@
                } else {
                    Seq::<char>::empty()
                }
            } else if k@ == "vicmd"@ {
                "[%{\x1b[93m%}n%{\x1b[0m%}] "@
            } else {
                "[? ("@ + k@ + ")] "@
            }
        },
        None => "[? ("@ + classify::spec_keymap_unset_marker() + ")] "@,
    }
}

/// The whole rendered prompt, straight from the render's inputs. The two
/// leading booleans are the two live user-id readings: one classifies the
/// user display, the other the closing glyph.
pub open spec fn spec_render(
    root_user: bool,
    root_sym: bool,
    exit_status: int,
    default_username: Seq<char>,
    vi_mode: bool,
    env: PromptEnv,
    elapsed_ms: Option<u128>,
    threshold_ms: u32,
    end: Option<String>,
) -> Seq<char> {
    spec_uid_fragment_of(root_user, env.username_var, default_username, env.ssh_connection_set)
        + spec_location_fragment_of_query(env.repo) + "\n"@ + render::spec_timing_fragment(
        elapsed_ms,
        threshold_ms,
    ) + spec_exit_fragment_of(exit_status, end) + spec_keymode_fragment_of(vi_mode, env.keymap_var)
        + render::spec_cmd_fragment(
        if root_sym {
            CmdSymbol::Root
        } else {
            CmdSymbol::NotRoot
        },
    ) + " "@
}

/// The rendered prompt for a raw, already-valid argument list.
pub open spec fn spec_render_for(
    root_user: bool,
    root_sym: bool,
    args: Seq<String>,
    env: PromptEnv,
    elapsed_ms: Option<u128>,
    threshold_ms: u32,
    end: Option<String>,
) -> Seq<char> {
    spec_render(
        root_user,
        root_sym,
        strutil::i32_numeral_value(args[0]@),
        args[1]@,
        args[2]@ == "vi"@,
        env,
        elapsed_ms,
        threshold_ms,
        end,
    )
}

/// One full render: validates the three arguments, reads the live user id,
/// classifies every state and returns the composed prompt string. The only
/// failure is argument validation; every collaborator failure is already a
/// value inside `env` and renders as an in-place error marker.
pub fn prompt(args: &Vec<String>, timing: &TimingInfo, threshold_ms: u32, env: &PromptEnv) -> (r:
    Result<String, ArgError>)
    ensures
        args@.len() != 3 ==> r == Err::<String, ArgError>(ArgError::WrongCount),
        args@.len() == 3 && !strutil::is_i32_numeral(args@[0]@) ==> r == Err::<String, ArgError>(
            ArgError::ExitStatusNotInteger,
        ),
        args@.len() == 3 && strutil::is_i32_numeral(args@[0]@) && args@[2]@ != "emacs"@
            && args@[2]@ != "vi"@ ==> r == Err::<String, ArgError>(ArgError::BadModeToken),
        spec_args_valid(args@) ==> (r matches Ok(out) && exists|root_user: bool, root_sym: bool|
            out@ == #[trigger] spec_render_for(
                root_user,
                root_sym,
                args@,
                *env,
                timing.last_duration_ms,
                threshold_ms,
                timing.last_end,
            )),
{
    let a = match parse_args(args) {
        Ok(a) => a,
        Err(e) => {
            return Err(e);
        },
    };
    let root_user = ext::uid_is_root();
    let uid_and_host = classify::get_uid_and_host(
        root_user,
        &env.username_var,
        &a.default_username,
        env.ssh_connection_set,
    );
    let location = git_head::get_location(&env.repo);
    let timing_read = LastCommandTiming::get(timing);
    let status = LastCommandExitStatus::from_exit_status(a.last_exit_status);
    let mode = classify::key_mode(a.vi_mode, &env.keymap_var);
    let root_sym = ext::uid_is_root();
    let sym = classify::cmd_symbol(root_sym);
    let out = render::compose_prompt(
        &uid_and_host,
        &location,
        &timing_read,
        threshold_ms,
        &status,
        &timing.last_end,
        &mode,
        &sym,
    );
    proof {
        lemma_location_fragment_of_query(env.repo, location);
        assert(uid_and_host == UidAndHost {
            uid: spec_classify_uid_text(root_user, env.username_var, a.default_username@),
            via_ssh: env.ssh_connection_set,
        });
        assert(render::spec_exit_fragment(status, timing.last_end) == spec_exit_fragment_of(
            a.last_exit_status as int,
            timing.last_end,
        ));
        assert(render::spec_keymode_fragment(mode) == spec_keymode_fragment_of(
            a.vi_mode,
            env.keymap_var,
        ));
        assert(out@ == spec_render_for(
            root_user,
            root_sym,
            args@,
            *env,
            timing.last_duration_ms,
            threshold_ms,
            timing.last_end,
        ));
    }
    Ok(out)
}

} // verus!
