use vstd::prelude::*;
use crate::text::{
    append_decimal, chars_of, concat, contains, contains_exec, decimal, lowercase_of,
    signed_decimal, append_signed_decimal, starts_with, starts_with_exec, text_with_number,
    to_lowercase,
};

verus! {

/// The user ids whose runtime directories are probed for a desktop session
/// when the server runs under `sudo`: 999 to 1005.
pub open spec fn probed_uid(k: int) -> int {
    999 + k
}

/// Number of probed user ids.
pub open spec fn probed_uid_count() -> int {
    7
}

/// Runtime directory of user `uid`.
pub open spec fn runtime_dir_text(uid: nat) -> Seq<char> {
    "/run/user/"@ + decimal(uid)
}

/// The runtime directory of user `uid`: `/run/user/<uid>`.
pub fn runtime_dir(uid: u32) -> (dir: String)
    ensures
        dir@ == runtime_dir_text(uid as nat),
{
    text_with_number("/run/user/", uid as u64)
}

/// The runtime directories of the probed users, in uid order.
pub fn user_runtime_dirs() -> (dirs: Vec<String>)
    ensures
        dirs@.len() == probed_uid_count(),
        forall|k: int|
            0 <= k < probed_uid_count() ==> #[trigger] dirs@[k]@ == runtime_dir_text(
                probed_uid(k) as nat,
            ),
{
    let mut dirs: Vec<String> = Vec::new();
    let mut uid: u32 = 999;
    while uid <= 1005
        invariant
            999 <= uid <= 1006,
            dirs@.len() == uid - 999,
            forall|k: int|
                0 <= k < dirs@.len() ==> #[trigger] dirs@[k]@ == runtime_dir_text(
                    probed_uid(k) as nat,
                ),
        decreases 1006 - uid,
    {
        dirs.push(runtime_dir(uid));
        uid += 1;
    }
    dirs
}

/// `dir` followed by `/` and `name`.
pub open spec fn in_dir(dir: Seq<char>, name: Seq<char>) -> Seq<char> {
    dir + "/"@ + name
}

/// `dir/name`, joined with a single `/` as text.
pub fn file_in(dir: &str, name: &str) -> (path: String)
    ensures
        path@ == in_dir(dir@, name@),
{
    let mut path = String::from_str(dir);
    path.append("/");
    path.append(name);
    assert(path@ =~= in_dir(dir@, name@));
    path
}

/// The Wayland sockets whose presence shows a Wayland session of a probed
/// user: `wayland-0` and `wayland-1` in each probed runtime directory.
pub fn wayland_socket_candidates() -> (paths: Vec<String>)
    ensures
        paths@.len() == 2 * probed_uid_count(),
        forall|k: int|
            0 <= k < probed_uid_count() ==> {
                &&& #[trigger] paths@[2 * k]@ == in_dir(
                    runtime_dir_text(probed_uid(k) as nat),
                    "wayland-0"@,
                )
                &&& paths@[2 * k + 1]@ == in_dir(
                    runtime_dir_text(probed_uid(k) as nat),
                    "wayland-1"@,
                )
            },
{
    let dirs = user_runtime_dirs();
    let mut paths: Vec<String> = Vec::new();
    let mut k: usize = 0;
    while k < dirs.len()
        invariant
            dirs@.len() == probed_uid_count(),
            forall|j: int|
                0 <= j < probed_uid_count() ==> #[trigger] dirs@[j]@ == runtime_dir_text(
                    probed_uid(j) as nat,
                ),
            k <= dirs@.len(),
            paths@.len() == 2 * k,
            forall|j: int|
                0 <= j < k ==> {
                    &&& #[trigger] paths@[2 * j]@ == in_dir(
                        runtime_dir_text(probed_uid(j) as nat),
                        "wayland-0"@,
                    )
                    &&& paths@[2 * j + 1]@ == in_dir(
                        runtime_dir_text(probed_uid(j) as nat),
                        "wayland-1"@,
                    )
                },
        decreases dirs@.len() - k,
    {
        assert(dirs@[k as int]@ == runtime_dir_text(probed_uid(k as int) as nat));
        paths.push(file_in(dirs[k].as_str(), "wayland-0"));
        paths.push(file_in(dirs[k].as_str(), "wayland-1"));
        k += 1;
    }
    paths
}

/// The session bus socket in a runtime directory.
pub fn session_bus_path(runtime_dir: &str) -> (path: String)
    ensures
        path@ == in_dir(runtime_dir@, "bus"@),
{
    file_in(runtime_dir, "bus")
}

/// The session variables to restore from runtime directory `dir`: the bus
/// address (`unix:path=<dir>/bus`) unless one is set, then the runtime
/// directory unless one is set. A variable already set is never touched.
pub open spec fn session_env_text(dir: Seq<char>, bus_address_set: bool, runtime_dir_set: bool) -> Seq<
    (Seq<char>, Seq<char>),
> {
    (if bus_address_set {
        Seq::empty()
    } else {
        seq![("DBUS_SESSION_BUS_ADDRESS"@, "unix:path="@ + in_dir(dir, "bus"@))]
    }) + (if runtime_dir_set {
        Seq::empty()
    } else {
        seq![("XDG_RUNTIME_DIR"@, dir)]
    })
}

/// The variables to set so that the desktop portal can be reached from a
/// root process, from a runtime directory holding a session bus.
pub fn session_env_updates(runtime_dir: &str, bus_address_set: bool, runtime_dir_set: bool) -> (vars:
    Vec<(String, String)>)
    ensures
        vars@.map_values(|v: (String, String)| (v.0@, v.1@)) == session_env_text(
            runtime_dir@,
            bus_address_set,
            runtime_dir_set,
        ),
{
    let mut vars: Vec<(String, String)> = Vec::new();
    if !bus_address_set {
        let bus = session_bus_path(runtime_dir);
        let address = concat("unix:path=", bus.as_str());
        vars.push((String::from_str("DBUS_SESSION_BUS_ADDRESS"), address));
    }
    if !runtime_dir_set {
        vars.push((String::from_str("XDG_RUNTIME_DIR"), String::from_str(runtime_dir)));
    }
    assert(vars@.map_values(|v: (String, String)| (v.0@, v.1@)) =~= session_env_text(
        runtime_dir@,
        bus_address_set,
        runtime_dir_set,
    ));
    vars
}

/// `k` is the first index at which `flags` holds.
pub open spec fn first_true(flags: Seq<bool>, k: int) -> bool {
    &&& 0 <= k < flags.len()
    &&& flags[k]
    &&& forall|j: int| 0 <= j < k ==> !#[trigger] flags[j]
}

/// The session variables to restore, given for each probed runtime
/// directory (uids 999 to 1005, in order) whether it holds a session bus:
/// those of the first directory that does, none when no directory does.
pub fn session_env_plan(bus_exists: Vec<bool>, bus_address_set: bool, runtime_dir_set: bool) -> (vars:
    Vec<(String, String)>)
    requires
        bus_exists@.len() == probed_uid_count(),
    ensures
        forall|k: int|
            first_true(bus_exists@, k) ==> vars@.map_values(|v: (String, String)| (v.0@, v.1@))
                == #[trigger] session_env_text(
                runtime_dir_text(probed_uid(k) as nat),
                bus_address_set,
                runtime_dir_set,
            ),
        (forall|k: int| 0 <= k < bus_exists@.len() ==> !#[trigger] bus_exists@[k]) ==> vars@.len()
            == 0,
{
    let mut k: usize = 0;
    while k < bus_exists.len()
        invariant
            bus_exists@.len() == probed_uid_count(),
            k <= bus_exists@.len(),
            forall|j: int| 0 <= j < k ==> !#[trigger] bus_exists@[j],
        decreases bus_exists@.len() - k,
    {
        if bus_exists[k] {
            let dir = runtime_dir(999 + k as u32);
            let vars = session_env_updates(dir.as_str(), bus_address_set, runtime_dir_set);
            assert forall|m: int| first_true(bus_exists@, m) implies m == k by {
                if m < k {
                } else if m > k {
                    assert(!bus_exists@[k as int]);
                }
            }
            return vars;
        }
        k += 1;
    }
    Vec::new()
}

/// The Wayland display names to try, in order, with the socket that must
/// exist in the runtime directory for each.
pub fn wayland_display_candidates(runtime_dir: &str) -> (candidates: Vec<(String, String)>)
    ensures
        candidates@.len() == 2,
        candidates@[0].0@ == in_dir(runtime_dir@, "wayland-0"@),
        candidates@[0].1@ == "wayland-0"@,
        candidates@[1].0@ == in_dir(runtime_dir@, "wayland-1"@),
        candidates@[1].1@ == "wayland-1"@,
{
    let mut candidates: Vec<(String, String)> = Vec::new();
    candidates.push((file_in(runtime_dir, "wayland-0"), String::from_str("wayland-0")));
    candidates.push((file_in(runtime_dir, "wayland-1"), String::from_str("wayland-1")));
    candidates
}

/// The Wayland display to set, given whether `WAYLAND_DISPLAY` is set and
/// whether the sockets `wayland-0` and `wayland-1` exist in the runtime
/// directory: none when it is set, else the first whose socket exists.
pub open spec fn display_choice(wayland_display_set: bool, socket_exists: Seq<bool>) -> Option<
    Seq<char>,
> {
    if wayland_display_set {
        None
    } else if socket_exists[0] {
        Some("wayland-0"@)
    } else if socket_exists[1] {
        Some("wayland-1"@)
    } else {
        None
    }
}

/// Chooses the Wayland display to set from the socket probes of
/// `wayland_display_candidates`, in that order.
pub fn wayland_display_choice(wayland_display_set: bool, socket_exists: Vec<bool>) -> (name: Option<
    String,
>)
    requires
        socket_exists@.len() == 2,
    ensures
        match name {
            Some(n) => display_choice(wayland_display_set, socket_exists@) == Some(n@),
            None => display_choice(wayland_display_set, socket_exists@) is None,
        },
{
    if wayland_display_set {
        None
    } else if socket_exists[0] {
        Some(String::from_str("wayland-0"))
    } else if socket_exists[1] {
        Some(String::from_str("wayland-1"))
    } else {
        None
    }
}

/// The desktop named by `XDG_CURRENT_DESKTOP` is Niri: its lowercase form
/// contains `niri`.
pub open spec fn is_niri(desktop: Seq<char>) -> bool {
    contains(lowercase_of(desktop), "niri"@)
}

/// On Niri, GL is forced to software rendering (`LIBGL_ALWAYS_SOFTWARE=1`);
/// elsewhere nothing is set.
pub open spec fn gl_env_text(desktop: Seq<char>) -> Seq<(Seq<char>, Seq<char>)> {
    if is_niri(desktop) {
        seq![("LIBGL_ALWAYS_SOFTWARE"@, "1"@)]
    } else {
        Seq::empty()
    }
}

/// The GL variables to set for the desktop `desktop`.
pub fn gl_env_updates(desktop: &str) -> (vars: Vec<(String, String)>)
    ensures
        vars@.map_values(|v: (String, String)| (v.0@, v.1@)) == gl_env_text(desktop@),
{
    let mut vars: Vec<(String, String)> = Vec::new();
    if is_niri_desktop(desktop) {
        vars.push((String::from_str("LIBGL_ALWAYS_SOFTWARE"), String::from_str("1")));
    }
    assert(vars@.map_values(|v: (String, String)| (v.0@, v.1@)) =~= gl_env_text(desktop@));
    vars
}

/// Whether the desktop named by `XDG_CURRENT_DESKTOP` is Niri: its lowercase
/// form contains `niri`.
pub fn is_niri_desktop(desktop: &str) -> (niri: bool)
    ensures
        niri == contains(lowercase_of(desktop@), "niri"@),
{
    let lower = to_lowercase(desktop);
    let lower_chars = chars_of(lower.as_str());
    let pattern = chars_of("niri");
    contains_exec(&lower_chars, &pattern)
}

/// A file name in a runtime directory names an X authority file: a Mutter
/// Xwayland authority file, or any name whose lowercase form contains `xauth`.
pub open spec fn xauth_name(name: Seq<char>) -> bool {
    starts_with(name, ".mutter-Xwaylandauth"@) || contains(lowercase_of(name), "xauth"@)
}

/// No X authority file comes before entry `j` of directory `i`, scanning
/// the directories in order and each directory's entries in order.
pub open spec fn no_xauth_before(names: Seq<Vec<String>>, i: int, j: int) -> bool {
    forall|a: int, b: int|
        0 <= a < names.len() && 0 <= b < names[a]@.len() && (a < i || (a == i && b < j))
            ==> !#[trigger] xauth_name(names[a]@[b]@)
}

/// The X authority file to use when `XAUTHORITY` is unset: the first entry,
/// scanning the listed directories in order, whose name is an X authority
/// file, as (directory, entry) indices; none when `XAUTHORITY` is set or no
/// entry matches.
pub fn first_xauthority(xauthority_set: bool, names: &Vec<Vec<String>>) -> (r: Option<(usize, usize)>)
    ensures
        xauthority_set ==> r is None,
        r matches Some((i, j)) ==> {
            &&& i < names@.len()
            &&& j < names@[i as int]@.len()
            &&& xauth_name(names@[i as int]@[j as int]@)
            &&& no_xauth_before(names@, i as int, j as int)
        },
        !xauthority_set && r is None ==> no_xauth_before(names@, names@.len() as int, 0),
{
    if xauthority_set {
        return None;
    }
    let mut i: usize = 0;
    while i < names.len()
        invariant
            !xauthority_set,
            i <= names@.len(),
            no_xauth_before(names@, i as int, 0),
        decreases names@.len() - i,
    {
        let dir = &names[i];
        let mut j: usize = 0;
        while j < dir.len()
            invariant
                !xauthority_set,
                i < names@.len(),
                *dir == names@[i as int],
                j <= dir@.len(),
                no_xauth_before(names@, i as int, j as int),
            decreases dir@.len() - j,
        {
            let found = is_xauthority_file_name(dir[j].as_str());
            assert(dir@[j as int] == names@[i as int]@[j as int]);
            if found {
                return Some((i, j));
            }
            assert(!xauth_name(names@[i as int]@[j as int]@));
            j += 1;
        }
        assert(no_xauth_before(names@, i + 1, 0)) by {
            assert forall|a: int, b: int|
                0 <= a < names@.len() && 0 <= b < names@[a]@.len() && (a < i + 1 || (a == i + 1
                    && b < 0)) implies !#[trigger] xauth_name(names@[a]@[b]@) by {
                if a == i {
                    assert(no_xauth_before(names@, i as int, j as int));
                }
            }
        }
        i += 1;
    }
    None
}

/// Whether a file name in a runtime directory is an X authority file: a
/// Mutter Xwayland authority file, or any name whose lowercase form contains `xauth`.
pub fn is_xauthority_file_name(name: &str) -> (xauth: bool)
    ensures
        xauth == (starts_with(name@, ".mutter-Xwaylandauth"@) || contains(
            lowercase_of(name@),
            "xauth"@,
        )),
{
    let chars = chars_of(name);
    let prefix = chars_of(".mutter-Xwaylandauth");
    if starts_with_exec(&chars, &prefix) {
        return true;
    }
    let lower = to_lowercase(name);
    let lower_chars = chars_of(lower.as_str());
    let pattern = chars_of("xauth");
    contains_exec(&lower_chars, &pattern)
}

/// The GStreamer pipeline that pulls BGRx frames from the portal's PipeWire
/// stream `node_id` over the remote `fd`; on Niri the frames go through GL
/// upload and download so that they reach system memory.
pub open spec fn pipeline_text(fd: int, node_id: nat, niri: bool) -> Seq<char> {
    "pipewiresrc fd="@ + signed_decimal(fd) + " path="@ + decimal(node_id) + (if niri {
        " ! glupload ! glcolorconvert ! gldownload ! video/x-raw,format=BGRx ! appsink name=sink max-buffers=2 drop=true emit-signals=false"@
    } else {
        " ! videoconvert ! video/x-raw,format=BGRx ! appsink name=sink max-buffers=2 drop=true emit-signals=false"@
    })
}

/// The capture pipeline description for a portal stream.
pub fn capture_pipeline_description(fd: i32, node_id: u32, niri: bool) -> (desc: String)
    ensures
        desc@ == pipeline_text(fd as int, node_id as nat, niri),
{
    let mut desc = String::from_str("pipewiresrc fd=");
    append_signed_decimal(&mut desc, fd as i64);
    desc.append(" path=");
    append_decimal(&mut desc, node_id as u64);
    if niri {
        desc.append(
            " ! glupload ! glcolorconvert ! gldownload ! video/x-raw,format=BGRx ! appsink name=sink max-buffers=2 drop=true emit-signals=false",
        );
    } else {
        desc.append(
            " ! videoconvert ! video/x-raw,format=BGRx ! appsink name=sink max-buffers=2 drop=true emit-signals=false",
        );
    }
    assert(desc@ =~= pipeline_text(fd as int, node_id as nat, niri));
    desc
}

/// The capture pipeline for the desktop `desktop`: the GL stages on Niri,
/// `videoconvert` elsewhere.
pub fn pipeline_for_desktop(fd: i32, node_id: u32, desktop: &str) -> (desc: String)
    ensures
        desc@ == pipeline_text(fd as int, node_id as nat, is_niri(desktop@)),
{
    capture_pipeline_description(fd, node_id, is_niri_desktop(desktop))
}

} // verus!
