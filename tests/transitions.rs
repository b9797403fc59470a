use nvsleepify::engine::{Action, Event, Plan, Transition, KILL_GRACE_MS, SETTLE_MS};
use nvsleepify::manager::{plan_for_mode, resume_wait, Reconciler, RESUME_SETTLE_MS};
use nvsleepify::mode::Mode;
use nvsleepify::pci::{slots_to_power_on, PciDevice, PciEntry, SlotReading};
use nvsleepify::system::{parse_processes, BlockingProcess};

/// What a simulated machine answers for each action, and what the run did.
struct Sim {
    gpu: bool,
    procs: Vec<(String, String)>,
    fail_at: Option<&'static str>,
    on_ac: bool,
    saved: Option<String>,
    log: Vec<String>,
}

fn sim(gpu: bool, procs: &[(&str, &str)]) -> Sim {
    Sim {
        gpu,
        procs: procs.iter().map(|(n, p)| (n.to_string(), p.to_string())).collect(),
        fail_at: None,
        on_ac: true,
        saved: None,
        log: vec![],
    }
}

fn done(s: &Sim, step: &'static str) -> Event {
    if s.fail_at == Some(step) {
        Event::Done(Err("exit status 1".to_string()))
    } else {
        Event::Done(Ok(()))
    }
}

/// Runs a plan to its end; returns (ok, message, blocking pairs).
fn run(plan: Plan, s: &mut Sim) -> (bool, String, Vec<(String, String)>) {
    drive(Transition::start(plan), s)
}

fn drive(start: (Transition, Action), s: &mut Sim) -> (bool, String, Vec<(String, String)>) {
    let (mut t, mut a) = start;
    loop {
        let ev = match a {
            Action::PersistMode(m) => {
                s.log.push(format!("persist {}", m.as_str()));
                s.saved = Some(m.as_str().to_string());
                done(s, "persist")
            }
            Action::ReadCharging => {
                s.log.push("read-charging".into());
                Event::Charging(s.on_ac)
            }
            Action::FindGpu => {
                s.log.push("find".into());
                Event::Gpu(s.gpu)
            }
            Action::ListProcesses => {
                s.log.push("list".into());
                Event::Processes(Ok(s
                    .procs
                    .iter()
                    .map(|(n, p)| BlockingProcess { name: n.clone(), pid: p.clone() })
                    .collect()))
            }
            Action::KillProcesses(ps) => {
                for p in &ps {
                    s.log.push(format!("kill {}", p.pid));
                }
                Event::Done(Ok(()))
            }
            Action::Pause(ms) => {
                s.log.push(format!("pause {}", ms));
                Event::Done(Ok(()))
            }
            Action::StopServices => {
                s.log.push("stop-services".into());
                done(s, "stop-services")
            }
            Action::UnloadModules => {
                s.log.push("unload-modules".into());
                done(s, "unload-modules")
            }
            Action::UnbindDriver => {
                s.log.push("unbind".into());
                done(s, "unbind")
            }
            Action::SlotPowerOff => {
                s.log.push("slot-power-0".into());
                done(s, "slot-power-0")
            }
            Action::PowerOnSlots => {
                s.log.push("power-on-slots".into());
                Event::Done(Ok(()))
            }
            Action::Rescan => {
                s.log.push("rescan".into());
                Event::Done(Ok(()))
            }
            Action::LoadModules => {
                s.log.push("load-modules".into());
                done(s, "load-modules")
            }
            Action::StartServices => {
                s.log.push("start-services".into());
                done(s, "start-services")
            }
            Action::Finish(o) => {
                assert!(t.is_finished());
                return (
                    o.ok,
                    o.message,
                    o.blocking.into_iter().map(|p| (p.name, p.pid)).collect(),
                );
            }
        };
        let (t2, a2) = t.advance(ev);
        t = t2;
        a = a2;
    }
}

#[test]
fn sleep_happy_path() {
    let entries = vec![PciEntry {
        name: "0000:01:00.0".to_string(),
        vendor: Some("0x10de\n".to_string()),
        class: Some("0x030000\n".to_string()),
    }];
    let gpu = PciDevice::find_nvidia_gpu(&entries).unwrap();
    assert_eq!(gpu.address, "0000:01:00.0");
    let mode = Mode::parse("integrated").unwrap();
    assert_eq!(mode.as_str(), "integrated");
    let mut s = sim(true, &[]);
    let r = run(plan_for_mode(mode, false), &mut s);
    assert_eq!(r, (true, "Success".to_string(), vec![]));
    assert_eq!(s.log, vec!["find", "list", "stop-services", "unload-modules", "unbind", "slot-power-0"]);
}

#[test]
fn soft_sleep_blocked_by_process() {
    let procs = parse_processes("chromium 4242\n");
    let pairs: Vec<(&str, &str)> = procs.iter().map(|p| (p.name.as_str(), p.pid.as_str())).collect();
    assert_eq!(pairs, vec![("chromium", "4242")]);
    let mode = Mode::parse("optimized").unwrap();
    assert_eq!(mode.as_str(), "optimized");
    let mut s = sim(true, &pairs);
    let r = run(plan_for_mode(mode, false), &mut s);
    assert_eq!(
        r,
        (false, "Blocking processes found".to_string(), vec![("chromium".to_string(), "4242".to_string())])
    );
    assert!(s.log.iter().all(|l| !l.starts_with("kill")));
    assert_eq!(s.log, vec!["find", "list"]);
}

#[test]
fn forced_sleep_kills_blocking_process() {
    let mode = Mode::parse("integrated").unwrap();
    let mut s = sim(true, &[("chromium", "4242")]);
    let r = run(plan_for_mode(mode, false), &mut s);
    assert_eq!(r, (true, "Success".to_string(), vec![]));
    assert_eq!(
        s.log,
        vec![
            "find",
            "list",
            "kill 4242",
            "pause 500",
            "stop-services",
            "unload-modules",
            "unbind",
            "slot-power-0"
        ]
    );
    assert_eq!(KILL_GRACE_MS, 500);
}

#[test]
fn wake_with_gpu_absent() {
    let slots = vec![
        SlotReading { power_path: "/sys/bus/pci/slots/0/power".to_string(), power: Some("0".to_string()) },
        SlotReading { power_path: "/sys/bus/pci/slots/1/power".to_string(), power: Some("1".to_string()) },
    ];
    assert_eq!(slots_to_power_on(&slots), vec!["/sys/bus/pci/slots/0/power".to_string()]);
    let mode = Mode::parse("standard").unwrap();
    let mut s = sim(false, &[]);
    let r = run(plan_for_mode(mode, false), &mut s);
    assert_eq!(r, (true, "Success".to_string(), vec![]));
    assert_eq!(
        s.log,
        vec!["power-on-slots", "rescan", "pause 1000", "load-modules", "start-services"]
    );
    assert_eq!(SETTLE_MS, 1000);
}

#[test]
fn wake_twice_succeeds_both_times() {
    let mut s = sim(true, &[]);
    assert!(run(Plan::Wake, &mut s).0);
    assert!(run(Plan::Wake, &mut s).0);
}

#[test]
fn forced_sleep_without_gpu_says_not_found() {
    let mut s = sim(false, &[]);
    let (ok, msg, procs) = run(Plan::Sleep { force: true }, &mut s);
    assert!(ok);
    assert!(msg.starts_with("Nvidia GPU not found"));
    assert!(procs.is_empty());
    assert_eq!(s.log, vec!["find"]);
}

#[test]
fn failed_step_ends_the_transition() {
    let mut s = sim(true, &[]);
    s.fail_at = Some("unload-modules");
    let r = run(Plan::Sleep { force: true }, &mut s);
    assert_eq!(r, (false, "Failed to unload modules: exit status 1".to_string(), vec![]));
    assert_eq!(s.log, vec!["find", "list", "stop-services", "unload-modules"]);

    let mut s = sim(true, &[]);
    s.fail_at = Some("load-modules");
    let r = run(Plan::Wake, &mut s);
    assert_eq!(r, (false, "Failed to load modules: exit status 1".to_string(), vec![]));

    let mut s = sim(true, &[]);
    s.fail_at = Some("slot-power-0");
    let r = run(Plan::Sleep { force: false }, &mut s);
    assert_eq!(r.1, "Failed to power off slot: exit status 1");
}

#[test]
fn listing_failure_and_unexpected_event() {
    let (t, _) = Transition::start(Plan::Sleep { force: false });
    let (t, _) = t.advance(Event::Gpu(true));
    let (t, a) = t.advance(Event::Processes(Err("lsof missing".to_string())));
    assert!(t.is_finished());
    assert!(matches!(a, Action::Finish(o) if !o.ok && o.message == "Failed checking processes: lsof missing"));
    let (t, _) = Transition::start(Plan::Wake);
    let (_, a) = t.advance(Event::Gpu(true));
    assert!(matches!(a, Action::Finish(o) if !o.ok && o.message == "Internal error: unexpected event"));
}

#[test]
fn mode_table_picks_transitions() {
    assert_eq!(plan_for_mode(Mode::Standard, false), Plan::Wake);
    assert_eq!(plan_for_mode(Mode::Integrated, true), Plan::Sleep { force: true });
    assert_eq!(plan_for_mode(Mode::Optimized, true), Plan::Wake);
    assert_eq!(plan_for_mode(Mode::Optimized, false), Plan::Sleep { force: false });
}

#[test]
fn optimized_wakes_after_ac_plug_settles() {
    let mut r = Reconciler::new(false, 0);
    assert_eq!(r.tick(Mode::Optimized, true, 10_000, Some("D3cold")), None);
    assert_eq!(r, Reconciler { last_charging: true, stable_since: 10_000 });
    assert_eq!(r.tick(Mode::Optimized, true, 12_000, Some("D3cold")), Some(Plan::Wake));
}

#[test]
fn optimized_flip_and_back_starts_nothing() {
    let mut r = Reconciler::new(false, 0);
    assert_eq!(r.tick(Mode::Optimized, true, 10_000, None), None);
    assert_eq!(r.tick(Mode::Optimized, false, 12_000, None), None);
    assert_eq!(r.tick(Mode::Optimized, false, 13_000, None), None);
    assert_eq!(r.tick(Mode::Optimized, false, 14_000, None), Some(Plan::Sleep { force: false }));
}

#[test]
fn reconciler_converges_per_mode() {
    let mut r = Reconciler::new(true, 0);
    assert_eq!(r.tick(Mode::Standard, false, 2_000, Some("D0")), None);
    assert_eq!(r.tick(Mode::Standard, true, 4_000, Some("D0")), None);
    assert_eq!(r.tick(Mode::Integrated, true, 6_000, Some("D0")), Some(Plan::Sleep { force: true }));
    assert_eq!(r.tick(Mode::Integrated, true, 8_000, Some("Unknown")), Some(Plan::Sleep { force: true }));
    assert_eq!(r.tick(Mode::Integrated, true, 10_000, Some("D3cold")), None);
    assert_eq!(r.tick(Mode::Integrated, true, 12_000, None), None);
    assert_eq!(r.tick(Mode::Integrated, true, 14_000, Some("D3hot")), None);
}

#[test]
fn resume_reapplies_persisted_mode() {
    assert_eq!(resume_wait(true), None);
    assert_eq!(resume_wait(false), Some(5000));
    assert_eq!(RESUME_SETTLE_MS, 5000);
    let persisted = Mode::from_persisted(Some("integrated\n"));
    assert_eq!(plan_for_mode(persisted, true), Plan::Sleep { force: true });
}

#[test]
fn set_mode_persists_before_any_transition_step() {
    let mut s = sim(true, &[]);
    let r = drive(Transition::set_mode("integrated"), &mut s);
    assert_eq!(r, (true, "Success".to_string(), vec![]));
    assert_eq!(s.saved.as_deref(), Some("integrated"));
    assert_eq!(s.log[0], "persist integrated");
    assert_eq!(Mode::from_persisted(s.saved.as_deref()), Mode::Integrated);
}

#[test]
fn set_mode_keeps_persisted_mode_when_transition_fails() {
    let mut s = sim(true, &[("chromium", "4242")]);
    s.on_ac = false;
    let r = drive(Transition::set_mode("Optimized"), &mut s);
    assert!(!r.0);
    assert_eq!(s.saved.as_deref(), Some("optimized"));
    assert_eq!(s.log, vec!["persist optimized", "read-charging", "find", "list"]);
}

#[test]
fn set_mode_optimized_on_ac_wakes() {
    let mut s = sim(true, &[]);
    s.on_ac = true;
    let r = drive(Transition::set_mode("auto"), &mut s);
    assert!(r.0);
    assert_eq!(s.log[..3], ["persist optimized", "read-charging", "power-on-slots"]);
}

#[test]
fn set_mode_unknown_persists_nothing() {
    let mut s = sim(true, &[]);
    let r = drive(Transition::set_mode("turbo"), &mut s);
    assert_eq!(r, (false, "Unknown mode: turbo".to_string(), vec![]));
    assert!(s.saved.is_none());
    assert!(s.log.is_empty());
}

#[test]
fn set_mode_save_failure_is_reported() {
    let mut s = sim(true, &[]);
    s.fail_at = Some("persist");
    let r = drive(Transition::set_mode("standard"), &mut s);
    assert_eq!(r, (false, "Failed to save mode: exit status 1".to_string(), vec![]));
    assert_eq!(s.log, vec!["persist standard"]);
}

#[test]
fn apply_mode_does_not_persist() {
    let mut s = sim(false, &[]);
    let r = drive(Transition::apply(Mode::Integrated), &mut s);
    assert!(r.0);
    assert!(s.saved.is_none());
    assert_eq!(s.log, vec!["find"]);
}

#[test]
fn each_failing_step_names_itself() {
    let cases = [
        ("stop-services", Plan::Sleep { force: true }, "Failed to stop services: exit status 1"),
        ("unbind", Plan::Sleep { force: true }, "Failed to unbind driver: exit status 1"),
        ("start-services", Plan::Wake, "Failed to start services: exit status 1"),
    ];
    for (step, plan, msg) in cases {
        let mut s = sim(true, &[]);
        s.fail_at = Some(step);
        let r = run(plan, &mut s);
        assert_eq!(r, (false, msg.to_string(), vec![]));
        assert_eq!(s.log.last().map(|l| l.as_str()), Some(step));
    }
}

#[test]
fn failed_kill_ends_the_sleep() {
    let (t, _) = Transition::start(Plan::Sleep { force: true });
    let (t, _) = t.advance(Event::Gpu(true));
    let ps = vec![BlockingProcess { name: "x".to_string(), pid: "1".to_string() }];
    let (t, a) = t.advance(Event::Processes(Ok(ps)));
    assert!(matches!(a, Action::KillProcesses(ref v) if v.len() == 1));
    let (t, a) = t.advance(Event::Done(Err("denied".to_string())));
    assert!(t.is_finished());
    assert!(matches!(a, Action::Finish(o) if !o.ok && o.message == "Failed to kill processes: denied"));
}
