use nvsleepify::engine::Outcome;
use nvsleepify::manager::{restore_delay_contents, restore_delay_from, restore_delay_reply};
use nvsleepify::mode::Mode;
use nvsleepify::pci::PciDevice;
use nvsleepify::protocol::Response;
use nvsleepify::report::{info_logic, status_logic, GpuSnapshot};
use nvsleepify::system::BlockingProcess;

fn snapshot(nodes: &[&str], state: &str, procs: &[(&str, &str)]) -> GpuSnapshot {
    GpuSnapshot {
        device: PciDevice::new("0000:01:00.0"),
        nodes: nodes.iter().map(|n| n.to_string()).collect(),
        power_state: state.to_string(),
        processes: procs
            .iter()
            .map(|(n, p)| BlockingProcess { name: n.to_string(), pid: p.to_string() })
            .collect(),
    }
}

#[test]
fn info_without_gpu_is_not_found() {
    let i = info_logic(Mode::Integrated, None);
    assert_eq!(i.mode, "integrated");
    assert_eq!(i.power_state, "NotFound");
    assert!(i.processes.is_empty());
}

#[test]
fn info_with_gpu_carries_state_and_processes() {
    let i = info_logic(Mode::Optimized, Some(snapshot(&["/dev/dri/card1"], "D0", &[("chromium", "4242")])));
    assert_eq!(i.mode, "optimized");
    assert_eq!(i.power_state, "D0");
    assert_eq!(i.processes.len(), 1);
    assert_eq!(i.processes[0].name, "chromium");
    assert_eq!(i.processes[0].pid, "4242");
}

#[test]
fn status_report_for_busy_gpu() {
    let s = status_logic(
        Mode::Standard,
        Some(snapshot(&["/dev/dri/card1", "/dev/dri/renderD128"], "D0", &[("a", "1"), ("b", "2")])),
    );
    assert_eq!(
        s,
        "Mode:        Standard\n\
         Nvidia GPU Found:\n  PCI Address: 0000:01:00.0\n  PCI Path:    \"/sys/bus/pci/devices/0000:01:00.0\"\n  \
         Device Nodes: /dev/dri/card1, /dev/dri/renderD128\n  Power State: D0\n  \
         Status: Active (In Use)\n  Blocking Processes: 2\n"
    );
}

#[test]
fn status_report_by_power_state() {
    let s = status_logic(Mode::Integrated, Some(snapshot(&[], "D3cold", &[])));
    assert!(s.contains("  Device Nodes: None (Driver unbound or card off)\n"));
    assert!(s.ends_with("  Status: Off / D3cold\n"));
    let s = status_logic(Mode::Integrated, Some(snapshot(&[], "D3hot", &[])));
    assert!(s.ends_with("  Status: Suspended\n"));
    let s = status_logic(Mode::Integrated, Some(snapshot(&[], "D0", &[])));
    assert!(s.ends_with("  Status: Idle / D0\n"));
}

#[test]
fn status_report_without_gpu() {
    let s = status_logic(Mode::Optimized, None);
    assert_eq!(
        s,
        "Mode:        Optimized\nNo Nvidia GPU running on PCI bus (or currently hidden/powered off).\n\
         Select the standard mode to power it back on.\n"
    );
}

#[test]
fn restore_delay_round_trip_and_defaults() {
    assert_eq!(restore_delay_contents(15), "15");
    assert_eq!(restore_delay_from(Some("15\n")), 15);
    assert_eq!(restore_delay_from(Some(&restore_delay_contents(0))), 0);
    assert_eq!(restore_delay_from(Some("soon")), 0);
    assert_eq!(restore_delay_from(None), 0);
    assert_eq!(restore_delay_reply(30, Ok(())), "Restore delay set to 30 seconds.");
    assert_eq!(
        restore_delay_reply(30, Err("read-only file system".to_string())),
        "Failed to save restore delay: read-only file system"
    );
}

#[test]
fn response_from_outcome() {
    let ok = Outcome { ok: true, message: "Success".to_string(), blocking: vec![] };
    assert!(matches!(Response::from_outcome(ok), Response::Success));
    let blocked = Outcome {
        ok: false,
        message: "Blocking processes found".to_string(),
        blocking: vec![BlockingProcess { name: "chromium".to_string(), pid: "4242".to_string() }],
    };
    assert!(matches!(Response::from_outcome(blocked), Response::ProcessesRunning(ps) if ps.len() == 1));
    let failed = Outcome { ok: false, message: "Failed to load modules: x".to_string(), blocking: vec![] };
    assert!(matches!(Response::from_outcome(failed), Response::Error(m) if m == "Failed to load modules: x"));
}
