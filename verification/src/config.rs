use vstd::prelude::*;

verus! {

/// Settings of the OpenH264 software encoder.
#[derive(Debug, Clone, Copy, PartialEq, Eq)]
pub struct OpenH264Config {
    pub target_bitrate_bps: u32,
    pub enable_skip_frame: bool,
}

/// Settings of the NVENC hardware encoder.
#[derive(Debug, Clone, Copy, PartialEq, Eq)]
pub struct NvencConfig {
    pub target_bitrate_bps: u32,
    pub max_bitrate_bps: u32,
    pub buffer_size_kb: u32,
    pub keyframe_interval: u32,
}

/// Server configuration, as read from `config.json`.
#[derive(Debug)]
pub struct ServerSideConfig {
    pub network_port: String,
    pub uds_socket_path: String,
    pub window_manager_cmd: String,
    pub default_discovery_hostname: String,
    pub default_capture_protocol: String,
    pub openh264_settings: OpenH264Config,
    pub nvenc_settings: NvencConfig,
    pub log_dir: Option<String>,
}

/// The built-in configuration used when no configuration file can be read.
pub open spec fn is_default_config(c: ServerSideConfig) -> bool {
    &&& c.network_port@ == "9090"@
    &&& c.uds_socket_path@ == "/tmp/nyxframe3.sock"@
    &&& c.window_manager_cmd@ == "i3-msg"@
    &&& c.default_discovery_hostname@ == "nyxframe"@
    &&& c.default_capture_protocol@ == "x11"@
    &&& c.openh264_settings == OpenH264Config { target_bitrate_bps: 5_000_000, enable_skip_frame: false }
    &&& c.nvenc_settings == NvencConfig {
        target_bitrate_bps: 3_000_000,
        max_bitrate_bps: 4_000_000,
        buffer_size_kb: 256,
        keyframe_interval: 300,
    }
    &&& c.log_dir matches Some(d) && d@ == "/var/log/nyxframe/logs"@
}

/// The built-in configuration.
pub fn default_server_config() -> (c: ServerSideConfig)
    ensures
        is_default_config(c),
{
    ServerSideConfig {
        network_port: String::from_str("9090"),
        uds_socket_path: String::from_str("/tmp/nyxframe3.sock"),
        window_manager_cmd: String::from_str("i3-msg"),
        default_discovery_hostname: String::from_str("nyxframe"),
        default_capture_protocol: String::from_str("x11"),
        openh264_settings: OpenH264Config { target_bitrate_bps: 5_000_000, enable_skip_frame: false },
        nvenc_settings: NvencConfig {
            target_bitrate_bps: 3_000_000,
            max_bitrate_bps: 4_000_000,
            buffer_size_kb: 256,
            keyframe_interval: 300,
        },
        log_dir: Some(String::from_str("/var/log/nyxframe/logs")),
    }
}

/// The first present item of `items`, if any: the item at the lowest
/// index that holds one.
pub fn first_some<T>(items: Vec<Option<T>>) -> (r: Option<T>)
    ensures
        r matches Some(x) ==> exists|k: int|
            0 <= k < items@.len() && (forall|j: int| 0 <= j < k ==> #[trigger] items@[j] is None)
                && items@[k] == Some(x),
        r is None <==> (forall|k: int| 0 <= k < items@.len() ==> #[trigger] items@[k] is None),
{
    let ghost all = items@;
    let total = items.len();
    let mut rest = items;
    let mut taken: usize = 0;
    while rest.len() > 0
        invariant
            all == items@,
            all.len() == total,
            all.len() == taken + rest@.len(),
            forall|j: int| 0 <= j < rest@.len() ==> #[trigger] rest@[j] == all[taken + j],
            forall|j: int| 0 <= j < taken ==> #[trigger] all[j] is None,
        decreases rest@.len(),
    {
        let next = rest.remove(0);
        match next {
            Some(x) => {
                assert(all[taken as int] == Some(x));
                assert(0 <= taken < all.len() && (forall|j: int|
                    0 <= j < taken ==> #[trigger] all[j] is None) && all[taken as int] == Some(x));
                return Some(x);
            },
            None => {
                assert(all[taken as int] is None);
                taken += 1;
            },
        }
    }
    None
}

/// Chooses the configuration from the candidate files, tried in order: the
/// first one that was read and parsed wins; when none was, the built-in
/// configuration is used.
pub fn load_server_config(candidates: Vec<Option<ServerSideConfig>>) -> (c: ServerSideConfig)
    ensures
        (exists|k: int| 0 <= k < candidates@.len() && #[trigger] candidates@[k] is Some) ==> exists|
            k: int,
        |
            0 <= k < candidates@.len() && (forall|j: int|
                0 <= j < k ==> #[trigger] candidates@[j] is None) && candidates@[k] == Some(c),
        (forall|k: int| 0 <= k < candidates@.len() ==> #[trigger] candidates@[k] is None)
            ==> is_default_config(c),
{
    match first_some(candidates) {
        Some(conf) => conf,
        None => default_server_config(),
    }
}

/// `rel` joined onto the directory path `base` as `Path::join` does for a
/// relative `rel`: with a `/` between them unless `base` is empty or already
/// ends with one.
pub open spec fn joined_path(base: Seq<char>, rel: Seq<char>) -> Seq<char> {
    if base.len() == 0 || base.last() == '/' {
        base + rel
    } else {
        base + "/"@ + rel
    }
}

/// Joins a relative path onto a directory path.
pub fn join_path(base: &str, rel: &str) -> (p: String)
    ensures
        p@ == joined_path(base@, rel@),
{
    let n = base.unicode_len();
    let mut p = String::from_str(base);
    if n > 0 && base.get_char(n - 1) != '/' {
        p.append("/");
    }
    p.append(rel);
    proof {
        if !(base@.len() == 0 || base@.last() == '/') {
            assert(p@ =~= base@ + "/"@ + rel@);
        }
    }
    p
}

/// Where the configuration file is looked for, in order: next to the
/// executable, three levels above it (in `server/` and directly), then in the
/// working directory (in `server/` and directly).
pub fn config_search_paths(exe_dir: &str) -> (paths: Vec<String>)
    ensures
        paths@.len() == 5,
        paths@[0]@ == joined_path(exe_dir@, "server/config.json"@),
        paths@[1]@ == joined_path(exe_dir@, "../../../server/config.json"@),
        paths@[2]@ == joined_path(exe_dir@, "../../../config.json"@),
        paths@[3]@ == "server/config.json"@,
        paths@[4]@ == "config.json"@,
{
    let mut paths: Vec<String> = Vec::new();
    paths.push(join_path(exe_dir, "server/config.json"));
    paths.push(join_path(exe_dir, "../../../server/config.json"));
    paths.push(join_path(exe_dir, "../../../config.json"));
    paths.push(String::from_str("server/config.json"));
    paths.push(String::from_str("config.json"));
    paths
}

} // verus!
