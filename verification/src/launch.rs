use vstd::prelude::*;
use crate::config::{first_some, join_path, joined_path};
use crate::text::concat;
use crate::capture::{backend_choice, natural_backend, CaptureBackend};
use crate::env::EnvState;

verus! {

/// The command-line switches of the server.
#[derive(Debug, Clone, Copy, PartialEq, Eq)]
pub struct CliFlags {
    /// `--diagnostics`: print the session report, validate, and exit.
    pub diagnostics: bool,
    /// `--x11`: force the X11 capture backend.
    pub force_x11: bool,
    /// `--wayland`: force the Wayland capture backend.
    pub force_wayland: bool,
}

/// The backend forced on the command line: X11 for `--x11` (which wins over
/// `--wayland`), Wayland for `--wayland`, none otherwise.
pub open spec fn forced_choice(flags: CliFlags) -> Option<CaptureBackend> {
    if flags.force_x11 {
        Some(CaptureBackend::X11)
    } else if flags.force_wayland {
        Some(CaptureBackend::Wayland)
    } else {
        None
    }
}

impl CliFlags {
    /// The backend forced by the switches, if any.
    pub fn forced_backend(&self) -> (b: Option<CaptureBackend>)
        ensures
            b == forced_choice(*self),
    {
        if self.force_x11 {
            Some(CaptureBackend::X11)
        } else if self.force_wayland {
            Some(CaptureBackend::Wayland)
        } else {
            None
        }
    }
}

/// The capture switches decide the backend whatever the session looks like:
/// with `--x11` X11 is chosen, with only `--wayland` Wayland is tried first,
/// and without either the session decides.
pub proof fn lemma_cli_override_decides(flags: CliFlags, env: EnvState, wayland_socket_found: bool)
    ensures
        flags.force_x11 ==> backend_choice(env, wayland_socket_found, forced_choice(flags))
            == CaptureBackend::X11,
        !flags.force_x11 && flags.force_wayland ==> backend_choice(
            env,
            wayland_socket_found,
            forced_choice(flags),
        ) == CaptureBackend::Wayland,
        !flags.force_x11 && !flags.force_wayland ==> backend_choice(
            env,
            wayland_socket_found,
            forced_choice(flags),
        ) == natural_backend(env, wayland_socket_found),
{
}

/// Some argument equals `flag`.
pub open spec fn has_arg(args: Seq<String>, flag: Seq<char>) -> bool {
    exists|k: int| 0 <= k < args.len() && #[trigger] args[k]@ == flag
}

/// Whether some argument equals `flag`.
pub fn has_flag(args: &Vec<String>, flag: &str) -> (found: bool)
    ensures
        found == has_arg(args@, flag@),
{
    let wanted = String::from_str(flag);
    let mut k: usize = 0;
    while k < args.len()
        invariant
            wanted@ == flag@,
            k <= args@.len(),
            forall|j: int| 0 <= j < k ==> args@[j]@ != flag@,
        decreases args@.len() - k,
    {
        if args[k] == wanted {
            return true;
        }
        k += 1;
    }
    false
}

/// Reads the switches from the process arguments (the program name included).
pub fn parse_cli_flags(args: &Vec<String>) -> (flags: CliFlags)
    ensures
        flags.diagnostics == has_arg(args@, "--diagnostics"@),
        flags.force_x11 == has_arg(args@, "--x11"@),
        flags.force_wayland == has_arg(args@, "--wayland"@),
{
    CliFlags {
        diagnostics: has_flag(args, "--diagnostics"),
        force_x11: has_flag(args, "--x11"),
        force_wayland: has_flag(args, "--wayland"),
    }
}

/// Exit status of a diagnostics run: 0 when backend validation passed, 1 otherwise.
pub fn diagnostics_exit_code(pass: bool) -> (code: i32)
    ensures
        code == (if pass { 0i32 } else { 1i32 }),
{
    if pass {
        0
    } else {
        1
    }
}

/// Where the unified log goes: the configured directory, else the user's
/// data directory, else root's.
pub open spec fn logs_dir_text(log_dir: Option<String>, user: Option<String>) -> Seq<char> {
    match log_dir {
        Some(d) => d@,
        None => match user {
            Some(u) => "/home/"@ + u@ + "/.local/share/nyxframe/logs"@,
            None => "/root/.local/share/nyxframe/logs"@,
        },
    }
}

/// Resolves the log directory from the configured one and the `USER` variable.
pub fn resolve_logs_dir(log_dir: Option<String>, user: Option<String>) -> (dir: String)
    ensures
        dir@ == logs_dir_text(log_dir, user),
{
    match log_dir {
        Some(d) => d,
        None => match user {
            Some(u) => {
                let mut dir = String::from_str("/home/");
                dir.append(u.as_str());
                dir.append("/.local/share/nyxframe/logs");
                assert(dir@ =~= "/home/"@ + u@ + "/.local/share/nyxframe/logs"@);
                dir
            },
            None => String::from_str("/root/.local/share/nyxframe/logs"),
        },
    }
}

/// Name of the log file: the start time stamp followed by `.log`, or
/// `log.log` when no time stamp could be read.
pub fn log_file_name(time_stamp: Option<String>) -> (name: String)
    ensures
        name@ == (match time_stamp {
            Some(t) => t@,
            None => "log"@,
        }) + ".log"@,
{
    match time_stamp {
        Some(t) => concat(t.as_str(), ".log"),
        None => {
            proof {
                reveal_strlit("log.log");
                reveal_strlit("log");
                reveal_strlit(".log");
            }
            let name = String::from_str("log.log");
            assert(name@ =~= "log"@ + ".log"@);
            name
        },
    }
}

/// Where the gateway's sources are looked for, in order: `server/go` next to
/// the executable, then `go` and `server/go` three levels above it.
pub fn go_dir_candidates(exe_dir: &str) -> (dirs: Vec<String>)
    ensures
        dirs@.len() == 3,
        dirs@[0]@ == joined_path(exe_dir@, "server/go"@),
        dirs@[1]@ == joined_path(exe_dir@, "../../../go"@),
        dirs@[2]@ == joined_path(exe_dir@, "../../../server/go"@),
{
    let mut dirs: Vec<String> = Vec::new();
    dirs.push(join_path(exe_dir, "server/go"));
    dirs.push(join_path(exe_dir, "../../../go"));
    dirs.push(join_path(exe_dir, "../../../server/go"));
    dirs
}

/// Chooses the gateway directory: the primary candidate when it exists,
/// else the first fallback that resolved, else the primary candidate anyway.
pub fn select_go_dir(primary: String, primary_exists: bool, fallbacks: Vec<Option<String>>) -> (dir:
    String)
    ensures
        primary_exists ==> dir == primary,
        !primary_exists && (exists|k: int|
            0 <= k < fallbacks@.len() && #[trigger] fallbacks@[k] is Some) ==> exists|k: int|
            0 <= k < fallbacks@.len() && (forall|j: int|
                0 <= j < k ==> #[trigger] fallbacks@[j] is None) && fallbacks@[k] == Some(dir),
        !primary_exists && (forall|k: int| 0 <= k < fallbacks@.len() ==> #[trigger] fallbacks@[k] is None)
            ==> dir == primary,
{
    if primary_exists {
        return primary;
    }
    match first_some(fallbacks) {
        Some(d) => d,
        None => primary,
    }
}

/// A modification time, as seconds and nanoseconds since the epoch.
pub open spec fn earlier(a: (u64, u32), b: (u64, u32)) -> bool {
    a.0 < b.0 || (a.0 == b.0 && a.1 < b.1)
}

/// Whether the gateway binary must be (re)built: it is missing, or its
/// source `main.go` is newer than it (when both times could be read).
pub fn go_build_needed(
    binary_exists: bool,
    binary_modified: Option<(u64, u32)>,
    source_modified: Option<(u64, u32)>,
) -> (needed: bool)
    ensures
        needed == (!binary_exists || (binary_modified matches Some(b) && source_modified matches Some(
            s,
        ) && earlier(b, s))),
{
    if !binary_exists {
        return true;
    }
    match (binary_modified, source_modified) {
        (Some(b), Some(s)) => b.0 < s.0 || (b.0 == s.0 && b.1 < s.1),
        _ => false,
    }
}

/// The environment of the gateway child process: under `sudo`, the invoking
/// user's X authority file (when it exists), home and name; then the display
/// and the log file path.
pub open spec fn go_child_env_text(
    sudo_user: Option<String>,
    xauthority_exists: bool,
    log_path: Seq<char>,
) -> Seq<(Seq<char>, Seq<char>)> {
    let user_vars = match sudo_user {
        Some(u) => (if xauthority_exists {
            seq![("XAUTHORITY"@, "/home/"@ + u@ + "/.Xauthority"@)]
        } else {
            Seq::empty()
        }) + seq![("HOME"@, "/home/"@ + u@), ("USER"@, u@)],
        None => Seq::empty(),
    };
    user_vars + seq![("DISPLAY"@, ":0"@), ("LOG_FILE_PATH"@, log_path)]
}

/// The X authority file of `user`: `/home/<user>/.Xauthority`.
pub fn xauthority_path(user: &str) -> (path: String)
    ensures
        path@ == "/home/"@ + user@ + "/.Xauthority"@,
{
    let mut path = String::from_str("/home/");
    path.append(user);
    path.append("/.Xauthority");
    assert(path@ =~= "/home/"@ + user@ + "/.Xauthority"@);
    path
}

/// The variables to set for the gateway child process.
pub fn go_child_env(sudo_user: &Option<String>, xauthority_exists: bool, log_path: &str) -> (vars: Vec<
    (String, String),
>)
    ensures
        vars@.map_values(|v: (String, String)| (v.0@, v.1@)) == go_child_env_text(
            *sudo_user,
            xauthority_exists,
            log_path@,
        ),
{
    let mut vars: Vec<(String, String)> = Vec::new();
    match sudo_user {
        Some(u) => {
            if xauthority_exists {
                vars.push((String::from_str("XAUTHORITY"), xauthority_path(u.as_str())));
            }
            vars.push((String::from_str("HOME"), concat("/home/", u.as_str())));
            vars.push((String::from_str("USER"), u.clone()));
        },
        None => {},
    }
    vars.push((String::from_str("DISPLAY"), String::from_str(":0")));
    vars.push((String::from_str("LOG_FILE_PATH"), String::from_str(log_path)));
    assert(vars@.map_values(|v: (String, String)| (v.0@, v.1@)) =~= go_child_env_text(
        *sudo_user,
        xauthority_exists,
        log_path@,
    ));
    vars
}

/// Longest wait between gateway restarts, in seconds.
pub open spec fn max_backoff_secs() -> u64 {
    30
}

/// The wait before the next gateway restart: twice the last one, at most 30 s.
pub fn next_backoff_secs(backoff_secs: u64) -> (next: u64)
    requires
        backoff_secs <= u64::MAX / 2,
    ensures
        next == (if 2 * backoff_secs <= 30 { 2 * backoff_secs } else { 30 }),
{
    let doubled = backoff_secs * 2;
    if doubled <= 30 {
        doubled
    } else {
        30
    }
}

/// Restart waits stay within bounds: starting from any wait of 1 to 30
/// seconds, the next wait is at least as long and at most 30 seconds.
pub proof fn lemma_backoff_bounded(backoff_secs: u64, next: u64)
    requires
        1 <= backoff_secs <= max_backoff_secs(),
        next == (if 2 * backoff_secs <= 30 { 2 * backoff_secs } else { 30 }),
    ensures
        backoff_secs <= next <= max_backoff_secs(),
{
}

} // verus!
