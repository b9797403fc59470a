use nvsleepify::system::logged_in_from_rows;
use nvsleepify::system::{
    charging_candidates, get_charging_status, is_user_logged_in, load_modules, lsof_command,
    parse_processes, start_services, stop_services, unload_modules,
};

fn pairs(out: &str) -> Vec<(String, String)> {
    parse_processes(out).into_iter().map(|p| (p.name, p.pid)).collect()
}

#[test]
fn lsof_lines_become_name_pid_pairs() {
    assert_eq!(
        pairs("chromium 4242\nXorg 1200 extra\n"),
        vec![
            ("chromium".to_string(), "4242".to_string()),
            ("Xorg".to_string(), "1200".to_string())
        ]
    );
}

#[test]
fn lsof_service_daemons_are_left_out() {
    assert_eq!(
        pairs("nvidia-po 900\nnvidia-pe 901\nnvidia-smi 902\n"),
        vec![("nvidia-smi".to_string(), "902".to_string())]
    );
}

#[test]
fn lsof_pairs_are_deduplicated_and_short_lines_skipped() {
    assert_eq!(
        pairs("  chromium   4242 \r\nchromium 4242\nlonely\n\nchromium 4243\n"),
        vec![
            ("chromium".to_string(), "4242".to_string()),
            ("chromium".to_string(), "4243".to_string())
        ]
    );
    assert!(pairs("").is_empty());
}

#[test]
fn lsof_command_names_all_device_paths() {
    assert_eq!(
        lsof_command(&vec!["/dev/dri/card1".to_string(), "/dev/dri/renderD128".to_string()]),
        "lsof -w /dev/nvidia[0-9]* /dev/dri/card1 /dev/dri/renderD128 | grep -v PID | awk '{print $1, $2}' | sort -u"
    );
    assert_eq!(
        lsof_command(&vec![]),
        "lsof -w /dev/nvidia[0-9]* | grep -v PID | awk '{print $1, $2}' | sort -u"
    );
}

#[test]
fn service_calls_run_in_order() {
    let stop = stop_services();
    assert_eq!(stop.first(), Some(&("stop", "nvidia-persistenced")));
    assert_eq!(stop.last(), Some(&("mask", "nvidia-fallback.service")));
    assert_eq!(stop.len(), 9);
    let start = start_services();
    assert_eq!(start.first(), Some(&("unmask", "nvidia-fallback.service")));
    assert_eq!(start[1], ("start", "nvidia-persistenced"));
    assert_eq!(start.last(), Some(&("enable", "nvidia-powerd.service")));
}

#[test]
fn modules_unload_in_reverse_load_order() {
    assert_eq!(unload_modules(), vec!["-r", "nvidia_drm", "nvidia_modeset", "nvidia_uvm", "nvidia"]);
    assert_eq!(load_modules(), vec!["nvidia", "nvidia_uvm", "nvidia_modeset", "nvidia_drm"]);
}

#[test]
fn no_online_file_means_charging() {
    assert!(get_charging_status(&vec![None, None, None]));
    assert!(get_charging_status(&vec![]));
}

#[test]
fn first_existing_online_file_decides() {
    assert!(!get_charging_status(&vec![None, Some("0\n".to_string()), Some("1".to_string())]));
    assert!(get_charging_status(&vec![Some("1\n".to_string()), Some("0".to_string())]));
    assert!(!get_charging_status(&vec![Some("garbage".to_string())]));
    assert_eq!(charging_candidates()[0], "/sys/class/power_supply/ACAD/online");
    assert_eq!(charging_candidates().len(), 3);
}

#[test]
fn user_session_from_listing_or_runtime_dirs() {
    assert!(is_user_logged_in(Some(" 1000 alice\n"), None));
    assert!(!is_user_logged_in(Some("  0 root\n65534 nobody\n"), None));
    assert!(!is_user_logged_in(Some(""), Some(&vec!["0".to_string(), "999".to_string()])));
    assert!(is_user_logged_in(None, Some(&vec!["0".to_string(), "1001".to_string()])));
    assert!(!is_user_logged_in(None, Some(&vec!["65534".to_string(), "x".to_string()])));
    assert!(!is_user_logged_in(None, None));
    assert!(is_user_logged_in(Some("65533 bob"), None));
}

fn rows(lines: &[&[&str]]) -> Vec<Vec<String>> {
    lines.iter().map(|l| l.iter().map(|w| w.to_string()).collect()).collect()
}

#[test]
fn processes_from_split_rows() {
    let got = nvsleepify::system::procs_from_rows(&rows(&[
        &["chromium", "4242"],
        &["nvidia-powerd", "900"],
        &["chromium", "4242", "extra"],
        &["lonely"],
        &[],
        &["Xorg", "1200"],
    ]));
    let pairs: Vec<(String, String)> = got.into_iter().map(|p| (p.name, p.pid)).collect();
    assert_eq!(
        pairs,
        vec![
            ("chromium".to_string(), "4242".to_string()),
            ("Xorg".to_string(), "1200".to_string())
        ]
    );
}

#[test]
fn user_session_from_split_rows() {
    assert!(logged_in_from_rows(Some(&rows(&[&["0", "root"], &["1000", "alice"]])), None));
    assert!(!logged_in_from_rows(Some(&rows(&[&[], &["65534", "nobody"], &["alice", "1000"]])), None));
    assert!(logged_in_from_rows(Some(&rows(&[])), Some(&vec!["1001".to_string()])));
    assert!(!logged_in_from_rows(None, Some(&vec!["999".to_string()])));
}
