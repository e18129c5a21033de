use vstd::prelude::*;

verus! {

/// What is known of the desktop session the server runs in, and how strongly
/// it points at a Wayland or an X11 capture backend (0 to 100).
#[derive(Debug)]
pub struct EnvState {
    pub wayland_confidence: u32,
    pub x11_confidence: u32,
    pub xdg_session_type: Option<String>,
    pub xdg_current_desktop: Option<String>,
    pub display: Option<String>,
    pub wayland_display: Option<String>,
    pub has_xdotool: bool,
    pub has_xclip: bool,
    pub has_adb: bool,
}

/// The raw session facts gathered from the process environment and the
/// installed tools.
#[derive(Debug)]
pub struct SessionProbe {
    pub xdg_session_type: Option<String>,
    pub xdg_current_desktop: Option<String>,
    pub display: Option<String>,
    pub wayland_display: Option<String>,
    pub has_xdotool: bool,
    pub has_xclip: bool,
    pub has_adb: bool,
}

/// `value` is present and equal to `text`.
pub open spec fn names(value: Option<String>, text: Seq<char>) -> bool {
    value matches Some(s) && s@ == text
}

/// Wayland confidence of a session: certain when the session type says
/// Wayland, none when it says X11, otherwise 80 when a Wayland display is set.
pub open spec fn wayland_score(probe: SessionProbe) -> u32 {
    if names(probe.xdg_session_type, "wayland"@) {
        100
    } else if names(probe.xdg_session_type, "x11"@) {
        0
    } else if probe.wayland_display.is_some() {
        80
    } else {
        0
    }
}

/// X11 confidence of a session: certain when the session type says X11, none
/// when it says Wayland, otherwise 80 when an X display is set.
pub open spec fn x11_score(probe: SessionProbe) -> u32 {
    if names(probe.xdg_session_type, "wayland"@) {
        0
    } else if names(probe.xdg_session_type, "x11"@) {
        100
    } else if probe.display.is_some() {
        80
    } else {
        0
    }
}

/// Whether `value` is present and equal to `text`.
pub fn is_named(value: &Option<String>, text: &str) -> (r: bool)
    ensures
        r == names(*value, text@),
{
    match value {
        Some(s) => *s == String::from_str(text),
        None => false,
    }
}

/// A copy of an optional string.
pub fn copy_opt(value: &Option<String>) -> (r: Option<String>)
    ensures
        r == *value,
{
    match value {
        Some(s) => Some(s.clone()),
        None => None,
    }
}

/// Scores the session from the probed facts and records them.
pub fn recover_environment(probe: SessionProbe) -> (env: EnvState)
    ensures
        env.wayland_confidence == wayland_score(probe),
        env.x11_confidence == x11_score(probe),
        env.xdg_session_type == probe.xdg_session_type,
        env.xdg_current_desktop == probe.xdg_current_desktop,
        env.display == probe.display,
        env.wayland_display == probe.wayland_display,
        env.has_xdotool == probe.has_xdotool,
        env.has_xclip == probe.has_xclip,
        env.has_adb == probe.has_adb,
{
    let mut wayland_confidence: u32 = 0;
    let mut x11_confidence: u32 = 0;

    if is_named(&probe.xdg_session_type, "wayland") {
        wayland_confidence = 100;
    } else if is_named(&probe.xdg_session_type, "x11") {
        x11_confidence = 100;
    } else {
        if probe.wayland_display.is_some() {
            wayland_confidence = 80;
        }
        if probe.display.is_some() {
            x11_confidence = 80;
        }
    }

    EnvState {
        wayland_confidence,
        x11_confidence,
        xdg_session_type: probe.xdg_session_type,
        xdg_current_desktop: probe.xdg_current_desktop,
        display: probe.display,
        wayland_display: probe.wayland_display,
        has_xdotool: probe.has_xdotool,
        has_xclip: probe.has_xclip,
        has_adb: probe.has_adb,
    }
}

/// A capture backend is usable when either confidence is positive.
pub fn validate_backends(env: &EnvState) -> (pass: bool)
    ensures
        pass == (env.wayland_confidence > 0 || env.x11_confidence > 0),
{
    env.wayland_confidence > 0 || env.x11_confidence > 0
}

/// Warnings about missing helper tools, in report order.
pub open spec fn tool_warnings(has_xdotool: bool, has_xclip: bool) -> Seq<Seq<char>> {
    let first = if has_xdotool {
        Seq::<Seq<char>>::empty()
    } else {
        seq!["[WARN] xdotool is missing. Input emulation will fail."@]
    };
    if has_xclip {
        first
    } else {
        first.push("[WARN] xclip is missing. Clipboard sync will fail."@)
    }
}

/// The warnings that backend validation reports about missing helper tools.
pub fn backend_warnings(env: &EnvState) -> (warnings: Vec<String>)
    ensures
        warnings@.map_values(|w: String| w@) == tool_warnings(env.has_xdotool, env.has_xclip),
{
    let mut warnings: Vec<String> = Vec::new();
    if !env.has_xdotool {
        warnings.push(String::from_str("[WARN] xdotool is missing. Input emulation will fail."));
    }
    if !env.has_xclip {
        warnings.push(String::from_str("[WARN] xclip is missing. Clipboard sync will fail."));
    }
    proof {
        assert(warnings@.map_values(|w: String| w@) =~= tool_warnings(env.has_xdotool, env.has_xclip));
    }
    warnings
}

/// The session's backend confidences after the command-line overrides:
/// `--x11` (which wins over `--wayland`) sets X11 to certain and Wayland to
/// none, `--wayland` the reverse; all other facts are kept. The backend
/// itself is forced through `CliFlags::forced_backend`.
pub fn apply_backend_override(env: &EnvState, force_x11: bool, force_wayland: bool) -> (r: EnvState)
    ensures
        force_x11 ==> r.wayland_confidence == 0 && r.x11_confidence == 100,
        !force_x11 && force_wayland ==> r.wayland_confidence == 100 && r.x11_confidence == 0,
        !force_x11 && !force_wayland ==> r.wayland_confidence == env.wayland_confidence
            && r.x11_confidence == env.x11_confidence,
        r.xdg_session_type == env.xdg_session_type,
        r.xdg_current_desktop == env.xdg_current_desktop,
        r.display == env.display,
        r.wayland_display == env.wayland_display,
        r.has_xdotool == env.has_xdotool,
        r.has_xclip == env.has_xclip,
        r.has_adb == env.has_adb,
{
    let (wayland_confidence, x11_confidence) = if force_x11 {
        (0, 100)
    } else if force_wayland {
        (100, 0)
    } else {
        (env.wayland_confidence, env.x11_confidence)
    };
    EnvState {
        wayland_confidence,
        x11_confidence,
        xdg_session_type: copy_opt(&env.xdg_session_type),
        xdg_current_desktop: copy_opt(&env.xdg_current_desktop),
        display: copy_opt(&env.display),
        wayland_display: copy_opt(&env.wayland_display),
        has_xdotool: env.has_xdotool,
        has_xclip: env.has_xclip,
        has_adb: env.has_adb,
    }
}

/// A session whose type is named is decided outright: exactly one backend is
/// fully trusted and the other not at all.
pub proof fn lemma_named_session_is_decisive(probe: SessionProbe)
    requires
        names(probe.xdg_session_type, "wayland"@) || names(probe.xdg_session_type, "x11"@),
    ensures
        (wayland_score(probe) == 100 && x11_score(probe) == 0) || (wayland_score(probe) == 0
            && x11_score(probe) == 100),
{
    reveal_strlit("wayland");
    reveal_strlit("x11");
}

/// Backend validation passes exactly when the session has a display of either
/// kind or a named session type.
pub proof fn lemma_validation_needs_a_display(probe: SessionProbe)
    ensures
        (wayland_score(probe) > 0 || x11_score(probe) > 0) <==> (names(
            probe.xdg_session_type,
            "wayland"@,
        ) || names(probe.xdg_session_type, "x11"@) || probe.wayland_display.is_some()
            || probe.display.is_some()),
{
    reveal_strlit("wayland");
    reveal_strlit("x11");
}

/// Without a named session type each display variable speaks for its own
/// backend only: Wayland confidence is 80 exactly when `WAYLAND_DISPLAY` is
/// set and 0 otherwise, X11 confidence is 80 exactly when `DISPLAY` is set
/// and 0 otherwise (so a session with only `DISPLAY` set has no Wayland
/// confidence).
pub proof fn lemma_unnamed_session_scores(probe: SessionProbe)
    requires
        !names(probe.xdg_session_type, "wayland"@),
        !names(probe.xdg_session_type, "x11"@),
    ensures
        wayland_score(probe) == (if probe.wayland_display is Some { 80u32 } else { 0u32 }),
        x11_score(probe) == (if probe.display is Some { 80u32 } else { 0u32 }),
{
}

/// The Wayland confidence does not depend on `DISPLAY`, and the X11
/// confidence does not depend on `WAYLAND_DISPLAY`: two probes that differ
/// only in the other backend's display variable score the same.
pub proof fn lemma_scores_ignore_the_other_display(a: SessionProbe, b: SessionProbe)
    requires
        a.xdg_session_type == b.xdg_session_type,
    ensures
        a.wayland_display == b.wayland_display ==> wayland_score(a) == wayland_score(b),
        a.display == b.display ==> x11_score(a) == x11_score(b),
{
}

} // verus!
