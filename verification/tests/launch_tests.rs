use nyxframe::config::{
    config_search_paths, default_server_config, join_path, load_server_config, ServerSideConfig,
};
use nyxframe::discovery::{discovery_broadcast_args, has_connected_device, hostname_or_default};
use nyxframe::launch::{
    diagnostics_exit_code, go_build_needed, go_child_env, go_dir_candidates, log_file_name,
    next_backoff_secs, parse_cli_flags, resolve_logs_dir, select_go_dir, xauthority_path,
};

fn custom_config(port: &str) -> ServerSideConfig {
    let mut c = default_server_config();
    c.network_port = port.to_string();
    c.log_dir = None;
    c
}

#[test]
fn default_configuration_values() {
    let c = default_server_config();
    assert_eq!(c.network_port, "9090");
    assert_eq!(c.uds_socket_path, "/tmp/nyxframe3.sock");
    assert_eq!(c.window_manager_cmd, "i3-msg");
    assert_eq!(c.default_discovery_hostname, "nyxframe");
    assert_eq!(c.default_capture_protocol, "x11");
    assert_eq!(c.openh264_settings.target_bitrate_bps, 5_000_000);
    assert!(!c.openh264_settings.enable_skip_frame);
    assert_eq!(c.nvenc_settings.target_bitrate_bps, 3_000_000);
    assert_eq!(c.nvenc_settings.max_bitrate_bps, 4_000_000);
    assert_eq!(c.nvenc_settings.buffer_size_kb, 256);
    assert_eq!(c.nvenc_settings.keyframe_interval, 300);
    assert_eq!(c.log_dir.as_deref(), Some("/var/log/nyxframe/logs"));
}

#[test]
fn first_readable_configuration_wins() {
    let c = load_server_config(vec![None, Some(custom_config("1111")), Some(custom_config("2222"))]);
    assert_eq!(c.network_port, "1111");
    assert_eq!(c.log_dir, None);
    let d = load_server_config(vec![None, None]);
    assert_eq!(d.network_port, "9090");
    let e = load_server_config(vec![]);
    assert_eq!(e.uds_socket_path, "/tmp/nyxframe3.sock");
}

#[test]
fn configuration_search_order() {
    let p = config_search_paths("/opt/nyx/bin");
    assert_eq!(
        p,
        vec![
            "/opt/nyx/bin/server/config.json",
            "/opt/nyx/bin/../../../server/config.json",
            "/opt/nyx/bin/../../../config.json",
            "server/config.json",
            "config.json",
        ]
    );
    assert_eq!(join_path("/", "a"), "/a");
    assert_eq!(join_path("", "a/b"), "a/b");
    assert_eq!(join_path("x/", "y"), "x/y");
}

#[test]
fn adb_device_detection() {
    assert!(!has_connected_device("List of devices attached\n\n"));
    assert!(has_connected_device("List of devices attached\nR58M12ABCDE\tdevice\n\n"));
    assert!(has_connected_device("List of devices attached\r\nemulator-5554\tdevice\r\n"));
    assert!(!has_connected_device("List of devices attached\nR58M12ABCDE\tunauthorized\n"));
    assert!(!has_connected_device(""));
    assert!(has_connected_device("serial device"));
}

#[test]
fn discovery_broadcast() {
    let args = discovery_broadcast_args("box", "192.168.1.5", "100.64.0.2");
    assert_eq!(
        args,
        vec![
            "shell", "am", "broadcast", "-a", "com.nyxframe.app.DISCOVER_IP", "--es", "host_name",
            "box", "--es", "lan_ip", "192.168.1.5", "--es", "tailscale_ip", "100.64.0.2",
        ]
    );
    assert_eq!(hostname_or_default(None), "nyxframe");
    assert_eq!(hostname_or_default(Some("ws".to_string())), "ws");
}

#[test]
fn command_line_flags() {
    let args: Vec<String> = vec!["server".into(), "--x11".into(), "--diagnostics".into()];
    let f = parse_cli_flags(&args);
    assert!(f.diagnostics && f.force_x11 && !f.force_wayland);
    let none = parse_cli_flags(&vec!["server".to_string(), "--x11x".to_string()]);
    assert!(!none.diagnostics && !none.force_x11 && !none.force_wayland);
    assert_eq!(diagnostics_exit_code(true), 0);
    assert_eq!(diagnostics_exit_code(false), 1);
}

#[test]
fn log_locations() {
    assert_eq!(resolve_logs_dir(Some("/var/log/x".into()), Some("ann".into())), "/var/log/x");
    assert_eq!(resolve_logs_dir(None, Some("ann".into())), "/home/ann/.local/share/nyxframe/logs");
    assert_eq!(resolve_logs_dir(None, None), "/root/.local/share/nyxframe/logs");
    assert_eq!(log_file_name(Some("2024-01-02_03-04-05".into())), "2024-01-02_03-04-05.log");
    assert_eq!(log_file_name(None), "log.log");
}

#[test]
fn gateway_location_and_build() {
    let dirs = go_dir_candidates("/srv/bin");
    assert_eq!(dirs, vec!["/srv/bin/server/go", "/srv/bin/../../../go", "/srv/bin/../../../server/go"]);
    assert_eq!(select_go_dir("a".into(), true, vec![Some("b".into())]), "a");
    assert_eq!(select_go_dir("a".into(), false, vec![None, Some("c".into()), Some("d".into())]), "c");
    assert_eq!(select_go_dir("a".into(), false, vec![None, None]), "a");
    assert!(go_build_needed(false, None, None));
    assert!(!go_build_needed(true, None, Some((5, 0))));
    assert!(go_build_needed(true, Some((5, 0)), Some((6, 0))));
    assert!(go_build_needed(true, Some((5, 1)), Some((5, 2))));
    assert!(!go_build_needed(true, Some((5, 2)), Some((5, 2))));
    assert!(!go_build_needed(true, Some((7, 0)), Some((6, 9))));
}

#[test]
fn gateway_child_environment() {
    assert_eq!(xauthority_path("ann"), "/home/ann/.Xauthority");
    let env = go_child_env(&Some("ann".to_string()), true, "/var/log/x.log");
    assert_eq!(
        env,
        vec![
            ("XAUTHORITY".to_string(), "/home/ann/.Xauthority".to_string()),
            ("HOME".to_string(), "/home/ann".to_string()),
            ("USER".to_string(), "ann".to_string()),
            ("DISPLAY".to_string(), ":0".to_string()),
            ("LOG_FILE_PATH".to_string(), "/var/log/x.log".to_string()),
        ]
    );
    let plain = go_child_env(&None, true, "l");
    assert_eq!(plain.len(), 2);
    assert_eq!(go_child_env(&Some("b".into()), false, "l").len(), 4);
}

#[test]
fn restart_backoff_doubles_up_to_30_seconds() {
    let mut b = 1u64;
    let mut seen = vec![];
    for _ in 0..7 {
        b = next_backoff_secs(b);
        seen.push(b);
    }
    assert_eq!(seen, vec![2, 4, 8, 16, 30, 30, 30]);
}
