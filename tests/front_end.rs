use nvsleepify::ui::driver_in_lines;
use nvsleepify::mode::Mode;
use nvsleepify::system::BlockingProcess;
use nvsleepify::ui::{is_gpu_driver_loaded, kill_prompt, needs_kill_confirmation, set_mode_failure, UiState};

fn procs(ps: &[(&str, &str)]) -> Vec<BlockingProcess> {
    ps.iter().map(|(n, p)| BlockingProcess { name: n.to_string(), pid: p.to_string() }).collect()
}

fn state(mode: Mode, power: &str, ps: &[(&str, &str)], err: Option<&str>) -> UiState {
    UiState {
        mode,
        power_state: power.to_string(),
        processes: procs(ps),
        last_error: err.map(|e| e.to_string()),
    }
}

#[test]
fn refresh_from_info_clears_error() {
    let s = UiState::from_info(Ok(("integrated".to_string(), "D3cold".to_string(), procs(&[]))));
    assert_eq!(s.mode, Mode::Integrated);
    assert_eq!(s.power_state, "D3cold");
    assert!(s.last_error.is_none());
    let s = UiState::from_info(Ok(("weird".to_string(), "D0".to_string(), procs(&[("a", "1")]))));
    assert_eq!(s.mode, Mode::Standard);
    assert_eq!(s.processes.len(), 1);
}

#[test]
fn failed_refresh_keeps_only_the_error() {
    let s = UiState::from_info(Err("no bus".to_string()));
    assert_eq!(s.mode, Mode::Standard);
    assert_eq!(s.power_state, "");
    assert_eq!(
        s.last_error.as_deref(),
        Some("Failed to query daemon: no bus (is nvsleepifyd.service running?)")
    );
}

#[test]
fn icon_names_by_state() {
    assert_eq!(state(Mode::Standard, "D0", &[("a", "1")], None).icon_name_for_state(), "nvsleepify-gpu-active");
    assert_eq!(state(Mode::Standard, "D3cold", &[], None).icon_name_for_state(), "nvsleepify-gpu-suspended");
    assert_eq!(state(Mode::Standard, "NotFound", &[], None).icon_name_for_state(), "nvsleepify-gpu-off");
    assert_eq!(state(Mode::Integrated, "D0", &[], None).icon_name_for_state(), "nvsleepify-gpu-off");
    assert_eq!(state(Mode::Optimized, "D0", &[], None).icon_name_for_state(), "nvsleepify-gpu-active");
}

#[test]
fn titles_by_state() {
    assert_eq!(state(Mode::Standard, "D0", &[("a", "1"), ("b", "2")], None).title_for_state(), "GPU Active (2 proc)");
    assert_eq!(state(Mode::Standard, "D3cold", &[], None).title_for_state(), "GPU Suspended (D3cold)");
    assert_eq!(state(Mode::Optimized, "D0", &[], None).title_for_state(), "nvsleepify (Optimized)");
}

#[test]
fn tooltip_lists_power_processes_and_error() {
    let s = state(Mode::Integrated, "D0", &[("chromium", "4242")], Some("Set Mode failed: x"));
    assert_eq!(
        s.tooltip_for_state(),
        "Mode: Integrated\nPower: D0\nProcesses using GPU:\n- chromium (PID 4242)\nError: Set Mode failed: x"
    );
    assert_eq!(state(Mode::Standard, "NotFound", &[], None).tooltip_for_state(), "Mode: Standard");
    assert_eq!(state(Mode::Standard, "", &[], None).tooltip_for_state(), "Mode: Standard");
}

#[test]
fn kill_prompt_lists_processes() {
    assert_eq!(
        kill_prompt(&procs(&[("chromium", "4242"), ("blender", "77")])),
        "The following processes are using the Nvidia GPU and may need to be killed to sleep it:\n\n\
         - chromium (PID 4242)\n- blender (PID 77)\n"
    );
}

#[test]
fn confirmation_only_for_forced_sleep_with_processes() {
    assert!(needs_kill_confirmation(Mode::Integrated, &procs(&[("a", "1")])));
    assert!(!needs_kill_confirmation(Mode::Integrated, &procs(&[])));
    assert!(!needs_kill_confirmation(Mode::Optimized, &procs(&[("a", "1")])));
}

#[test]
fn driver_loaded_from_module_listing() {
    assert!(is_gpu_driver_loaded("snd 1 0 - Live\nnvidia 123 4 nvidia_drm, Live\n"));
    assert!(!is_gpu_driver_loaded("nvidia_drm 1 0 - Live\n"));
    assert!(!is_gpu_driver_loaded(""));
}

#[test]
fn notifications_on_refresh() {
    let asleep = state(Mode::Integrated, "D3cold", &[], None);
    let awake = state(Mode::Standard, "D0", &[], None);
    assert_eq!(
        asleep.notifications(&awake, true),
        vec!["GPU Woke up (D0)".to_string(), "Mode changed to Standard".to_string()]
    );
    assert_eq!(asleep.notifications(&awake, false), vec!["Mode changed to Standard".to_string()]);
    assert_eq!(awake.notifications(&asleep, true), vec!["GPU Suspended (D3cold)".to_string(), "Mode changed to Integrated".to_string()]);
    assert!(awake.notifications(&state(Mode::Standard, "D0", &[], None), true).is_empty());
    assert_eq!(set_mode_failure("Blocking processes found"), "Set Mode failed: Blocking processes found");
}

#[test]
fn driver_found_in_split_lines() {
    assert!(driver_in_lines(&vec!["snd 1".to_string(), "nvidia 123 4".to_string()]));
    assert!(!driver_in_lines(&vec!["nvidia_uvm 1".to_string(), "nvidia".to_string()]));
    assert!(!driver_in_lines(&vec![]));
}
