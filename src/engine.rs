//! The power-transition engine: sleep and wake as step machines.
//!
//! A runner starts a transition, performs the action that it is handed, reports
//! the outcome as an event, and repeats until the action is `Finish`. The machine
//! fixes the order of the steps and decides when the transition ends.
use vstd::prelude::*;

use crate::manager::plan_for;
use crate::mode::{parse_spec, persisted_mode, Mode};
use crate::system::{proc_views, BlockingProcess};
use crate::text::has_prefix;

verus! {

/// The pause after terminating blocking processes, in milliseconds.
pub const KILL_GRACE_MS: u64 = 500;

/// The pause after a bus rescan, in milliseconds.
pub const SETTLE_MS: u64 = 1000;

/// The step whose action is pending.
#[derive(PartialEq, Eq, Structural, Clone, Copy, Debug)]
pub enum Step {
    PersistMode,
    ReadCharging,
    FindGpu,
    ListProcesses,
    KillProcesses,
    KillGrace,
    StopServices,
    UnloadModules,
    UnbindDriver,
    SlotPowerOff,
    PowerOnSlots,
    Rescan,
    Settle,
    LoadModules,
    StartServices,
    Finished,
}

/// A transition to run: wake, or sleep with or without terminating the processes
/// that hold the GPU.
#[derive(PartialEq, Eq, Structural, Clone, Copy, Debug)]
pub enum Plan {
    Wake,
    Sleep { force: bool },
}

/// What a finished transition reports: success, a message, and the processes that
/// blocked a soft sleep.
#[derive(Debug)]
pub struct Outcome {
    pub ok: bool,
    pub message: String,
    pub blocking: Vec<BlockingProcess>,
}

/// What the runner is asked to do next.
#[derive(Debug)]
pub enum Action {
    /// Write the mode's tag to the persisted mode file.
    PersistMode(Mode),
    /// Read whether the machine is on AC power.
    ReadCharging,
    /// Locate the Nvidia GPU.
    FindGpu,
    /// List the processes that hold the GPU's devices open.
    ListProcesses,
    /// Send `SIGTERM` to these processes.
    KillProcesses(Vec<BlockingProcess>),
    /// Wait this many milliseconds.
    Pause(u64),
    /// Stop and disable the GPU's services.
    StopServices,
    /// Unload the Nvidia kernel modules.
    UnloadModules,
    /// Detach the driver from the GPU.
    UnbindDriver,
    /// Write `0` to the GPU slot's `power` file.
    SlotPowerOff,
    /// Write `1` to every slot `power` file that reads `0`.
    PowerOnSlots,
    /// Ask the PCI bus to rescan.
    Rescan,
    /// Load the Nvidia kernel modules.
    LoadModules,
    /// Start and enable the GPU's services.
    StartServices,
    /// The transition is over.
    Finish(Outcome),
}

/// What the runner observed when it performed the pending action.
#[derive(Debug)]
pub enum Event {
    /// Whether the machine is on AC power.
    Charging(bool),
    /// Whether the GPU was found.
    Gpu(bool),
    /// The processes that hold the GPU, or why they could not be listed.
    Processes(Result<Vec<BlockingProcess>, String>),
    /// The action was carried out, or why it failed.
    Done(Result<(), String>),
}

/// The mathematical form of an event.
pub enum EventView {
    Charging(bool),
    Gpu(bool),
    Processes(Result<Seq<(Seq<char>, Seq<char>)>, Seq<char>>),
    Done(Result<(), Seq<char>>),
}

/// The mathematical form of an action.
pub enum ActionView {
    PersistMode(Mode),
    ReadCharging,
    FindGpu,
    ListProcesses,
    KillProcesses(Seq<(Seq<char>, Seq<char>)>),
    Pause(u64),
    StopServices,
    UnloadModules,
    UnbindDriver,
    SlotPowerOff,
    PowerOnSlots,
    Rescan,
    LoadModules,
    StartServices,
    Finish(bool, Seq<char>, Seq<(Seq<char>, Seq<char>)>),
}

impl View for Event {
    type V = EventView;

    open spec fn view(&self) -> EventView {
        match self {
            Event::Charging(b) => EventView::Charging(*b),
            Event::Gpu(b) => EventView::Gpu(*b),
            Event::Processes(Ok(ps)) => EventView::Processes(Ok(proc_views(ps@))),
            Event::Processes(Err(e)) => EventView::Processes(Err(e@)),
            Event::Done(Ok(())) => EventView::Done(Ok(())),
            Event::Done(Err(e)) => EventView::Done(Err(e@)),
        }
    }
}

impl View for Action {
    type V = ActionView;

    open spec fn view(&self) -> ActionView {
        match self {
            Action::PersistMode(m) => ActionView::PersistMode(*m),
            Action::ReadCharging => ActionView::ReadCharging,
            Action::FindGpu => ActionView::FindGpu,
            Action::ListProcesses => ActionView::ListProcesses,
            Action::KillProcesses(ps) => ActionView::KillProcesses(proc_views(ps@)),
            Action::Pause(ms) => ActionView::Pause(*ms),
            Action::StopServices => ActionView::StopServices,
            Action::UnloadModules => ActionView::UnloadModules,
            Action::UnbindDriver => ActionView::UnbindDriver,
            Action::SlotPowerOff => ActionView::SlotPowerOff,
            Action::PowerOnSlots => ActionView::PowerOnSlots,
            Action::Rescan => ActionView::Rescan,
            Action::LoadModules => ActionView::LoadModules,
            Action::StartServices => ActionView::StartServices,
            Action::Finish(o) => ActionView::Finish(o.ok, o.message@, proc_views(o.blocking@)),
        }
    }
}

/// The action that a pending step asks for; `Finished` asks for none.
pub open spec fn action_of(s: Step) -> ActionView {
    match s {
        Step::ReadCharging => ActionView::ReadCharging,
        Step::FindGpu => ActionView::FindGpu,
        Step::ListProcesses => ActionView::ListProcesses,
        Step::KillGrace => ActionView::Pause(KILL_GRACE_MS),
        Step::StopServices => ActionView::StopServices,
        Step::UnloadModules => ActionView::UnloadModules,
        Step::UnbindDriver => ActionView::UnbindDriver,
        Step::SlotPowerOff => ActionView::SlotPowerOff,
        Step::PowerOnSlots => ActionView::PowerOnSlots,
        Step::Rescan => ActionView::Rescan,
        Step::Settle => ActionView::Pause(SETTLE_MS),
        Step::LoadModules => ActionView::LoadModules,
        Step::StartServices => ActionView::StartServices,
        // not reached: these steps carry a payload
        _ => ActionView::FindGpu,
    }
}

/// Move on to step `s`.
pub open spec fn go(s: Step) -> (Step, ActionView) {
    (s, action_of(s))
}

/// End the transition.
pub open spec fn finish(ok: bool, msg: Seq<char>, blocking: Seq<(Seq<char>, Seq<char>)>) -> (
    Step,
    ActionView,
) {
    (Step::Finished, ActionView::Finish(ok, msg, blocking))
}

/// End the transition with a failure of one step.
pub open spec fn fail(prefix: Seq<char>, e: Seq<char>) -> (Step, ActionView) {
    finish(false, prefix + e, Seq::empty())
}

/// The next step and action, given the pending step, whether the sleep is forced,
/// the mode whose transition this is, and the event that the pending action produced.
pub open spec fn next(s: Step, force: bool, mode: Mode, e: EventView) -> (Step, ActionView) {
    match (s, e) {
        (Step::PersistMode, EventView::Done(Err(m))) => fail("Failed to save mode: "@, m),
        (Step::PersistMode, EventView::Done(Ok(()))) => go(mode_step(mode)),
        (Step::ReadCharging, EventView::Charging(c)) => go(first_step(plan_for(Mode::Optimized, c))),
        (Step::FindGpu, EventView::Gpu(false)) => finish(
            true,
            "Nvidia GPU not found (already off?)"@,
            Seq::empty(),
        ),
        (Step::FindGpu, EventView::Gpu(true)) => go(Step::ListProcesses),
        (Step::ListProcesses, EventView::Processes(Err(m))) => fail(
            "Failed checking processes: "@,
            m,
        ),
        (Step::ListProcesses, EventView::Processes(Ok(ps))) => if ps.len() == 0 {
            go(Step::StopServices)
        } else if !force {
            finish(false, "Blocking processes found"@, ps)
        } else {
            (Step::KillProcesses, ActionView::KillProcesses(ps))
        },
        (Step::KillProcesses, EventView::Done(Err(m))) => fail("Failed to kill processes: "@, m),
        (Step::KillProcesses, EventView::Done(Ok(()))) => go(Step::KillGrace),
        (Step::KillGrace, EventView::Done(_)) => go(Step::StopServices),
        (Step::StopServices, EventView::Done(Err(m))) => fail("Failed to stop services: "@, m),
        (Step::StopServices, EventView::Done(Ok(()))) => go(Step::UnloadModules),
        (Step::UnloadModules, EventView::Done(Err(m))) => fail("Failed to unload modules: "@, m),
        (Step::UnloadModules, EventView::Done(Ok(()))) => go(Step::UnbindDriver),
        (Step::UnbindDriver, EventView::Done(Err(m))) => fail("Failed to unbind driver: "@, m),
        (Step::UnbindDriver, EventView::Done(Ok(()))) => go(Step::SlotPowerOff),
        (Step::SlotPowerOff, EventView::Done(Err(m))) => fail("Failed to power off slot: "@, m),
        (Step::SlotPowerOff, EventView::Done(Ok(()))) => finish(true, "Success"@, Seq::empty()),
        (Step::PowerOnSlots, EventView::Done(_)) => go(Step::Rescan),
        (Step::Rescan, EventView::Done(_)) => go(Step::Settle),
        (Step::Settle, EventView::Done(_)) => go(Step::LoadModules),
        (Step::LoadModules, EventView::Done(Err(m))) => fail("Failed to load modules: "@, m),
        (Step::LoadModules, EventView::Done(Ok(()))) => go(Step::StartServices),
        (Step::StartServices, EventView::Done(Err(m))) => fail("Failed to start services: "@, m),
        (Step::StartServices, EventView::Done(Ok(()))) => finish(true, "Success"@, Seq::empty()),
        _ => finish(false, "Internal error: unexpected event"@, Seq::empty()),
    }
}

/// The first step of a plan.
pub open spec fn first_step(p: Plan) -> Step {
    match p {
        Plan::Wake => Step::PowerOnSlots,
        Plan::Sleep { .. } => Step::FindGpu,
    }
}

/// The step that applying `mode` begins with: `Optimized` must first know whether
/// the machine is on AC power.
pub open spec fn mode_step(mode: Mode) -> Step {
    if mode == Mode::Optimized {
        Step::ReadCharging
    } else {
        first_step(plan_for(mode, true))
    }
}

/// The mode that a plan serves.
pub open spec fn mode_of(p: Plan) -> Mode {
    match p {
        Plan::Wake => Mode::Standard,
        Plan::Sleep { force } => if force {
            Mode::Integrated
        } else {
            Mode::Optimized
        },
    }
}

/// A running transition.
#[derive(PartialEq, Eq, Structural, Clone, Copy, Debug)]
pub struct Transition {
    /// Blocking processes are terminated rather than reported.
    pub force: bool,
    /// The step whose action is pending.
    pub step: Step,
    /// The mode whose transition this is; it decides the steps that choose the
    /// transition, before the first sleep or wake step.
    pub mode: Mode,
}

fn ok_outcome(ok: bool, message: &str) -> (r: Action)
    ensures
        r@ == ActionView::Finish(ok, message@, Seq::empty()),
{
    let blocking: Vec<BlockingProcess> = Vec::new();
    proof {
        assert(proc_views(blocking@) =~= Seq::empty());
    }
    Action::Finish(Outcome { ok, message: String::from_str(message), blocking })
}

fn failure(prefix: &str, e: &String) -> (r: Action)
    ensures
        r@ == ActionView::Finish(false, prefix@ + e@, Seq::empty()),
{
    let blocking: Vec<BlockingProcess> = Vec::new();
    proof {
        assert(proc_views(blocking@) =~= Seq::empty());
    }
    Action::Finish(
        Outcome { ok: false, message: String::from_str(prefix).concat(e.as_str()), blocking },
    )
}

impl Transition {
    /// Starts a transition: the machine and its first action.
    pub fn start(plan: Plan) -> (r: (Transition, Action))
        ensures
            r.0.step == first_step(plan),
            r.0.force == (plan matches Plan::Sleep { force } && force),
            r.0.mode == mode_of(plan),
            r.1@ == action_of(first_step(plan)),
    {
        match plan {
            Plan::Wake => (
                Transition { force: false, step: Step::PowerOnSlots, mode: Mode::Standard },
                Action::PowerOnSlots,
            ),
            Plan::Sleep { force } => (
                Transition {
                    force,
                    step: Step::FindGpu,
                    mode: if force {
                        Mode::Integrated
                    } else {
                        Mode::Optimized
                    },
                },
                Action::FindGpu,
            ),
        }
    }

    /// Applies `mode` without persisting it: `Standard` wakes, `Integrated` sleeps
    /// by force, and `Optimized` first asks whether the machine is on AC power.
    pub fn apply(mode: Mode) -> (r: (Transition, Action))
        ensures
            r.0.step == mode_step(mode),
            r.0.force == (mode == Mode::Integrated),
            r.0.mode == mode,
            r.1@ == action_of(mode_step(mode)),
    {
        let force = mode == Mode::Integrated;
        match mode {
            Mode::Standard => (
                Transition { force, step: Step::PowerOnSlots, mode },
                Action::PowerOnSlots,
            ),
            Mode::Integrated => (Transition { force, step: Step::FindGpu, mode }, Action::FindGpu),
            Mode::Optimized => (
                Transition { force, step: Step::ReadCharging, mode },
                Action::ReadCharging,
            ),
        }
    }

    /// A `SetMode` request: the mode named by `text` is persisted first, then
    /// applied. An unknown mode ends the request at once, persisting nothing.
    pub fn set_mode(text: &str) -> (r: (Transition, Action))
        ensures
            match parse_spec(text@) {
                Ok(m) => r.0.step == Step::PersistMode && r.0.mode == m && r.0.force == (m
                    == Mode::Integrated) && r.1@ == ActionView::PersistMode(m),
                Err(e) => r.0.step == Step::Finished && r.1@ == ActionView::Finish(
                    false,
                    e,
                    Seq::empty(),
                ),
            },
    {
        match Mode::parse(text) {
            Ok(m) => (
                Transition { force: m == Mode::Integrated, step: Step::PersistMode, mode: m },
                Action::PersistMode(m),
            ),
            Err(e) => {
                let blocking: Vec<BlockingProcess> = Vec::new();
                proof {
                    assert(proc_views(blocking@) =~= Seq::empty());
                }
                (
                    Transition { force: false, step: Step::Finished, mode: Mode::Standard },
                    Action::Finish(Outcome { ok: false, message: e, blocking }),
                )
            },
        }
    }

    /// Whether the transition is over.
    pub fn is_finished(&self) -> (r: bool)
        ensures
            r == (self.step == Step::Finished),
    {
        self.step == Step::Finished
    }

    /// Feeds the outcome of the pending action: the machine moves to the next step
    /// and hands out its action.
    pub fn advance(self, event: Event) -> (r: (Transition, Action))
        ensures
            r.0.force == self.force,
            r.0.mode == self.mode,
            (r.0.step, r.1@) == next(self.step, self.force, self.mode, event@),
    {
        let force = self.force;
        let mode = self.mode;
        let to = |s: Step| -> (t: Transition)
            ensures
                t.force == force,
                t.mode == mode,
                t.step == s,
            { Transition { force, step: s, mode } };
        match (self.step, event) {
            (Step::PersistMode, Event::Done(Err(e))) => {
                (to(Step::Finished), failure("Failed to save mode: ", &e))
            },
            (Step::PersistMode, Event::Done(Ok(()))) => match mode {
                Mode::Standard => (to(Step::PowerOnSlots), Action::PowerOnSlots),
                Mode::Integrated => (to(Step::FindGpu), Action::FindGpu),
                Mode::Optimized => (to(Step::ReadCharging), Action::ReadCharging),
            },
            (Step::ReadCharging, Event::Charging(c)) => {
                if c {
                    (to(Step::PowerOnSlots), Action::PowerOnSlots)
                } else {
                    (to(Step::FindGpu), Action::FindGpu)
                }
            },
            (Step::FindGpu, Event::Gpu(found)) => {
                if found {
                    (to(Step::ListProcesses), Action::ListProcesses)
                } else {
                    (to(Step::Finished), ok_outcome(true, "Nvidia GPU not found (already off?)"))
                }
            },
            (Step::ListProcesses, Event::Processes(Err(e))) => {
                (to(Step::Finished), failure("Failed checking processes: ", &e))
            },
            (Step::ListProcesses, Event::Processes(Ok(ps))) => {
                if ps.len() == 0 {
                    (to(Step::StopServices), Action::StopServices)
                } else if !force {
                    (
                        to(Step::Finished),
                        Action::Finish(
                            Outcome {
                                ok: false,
                                message: String::from_str("Blocking processes found"),
                                blocking: ps,
                            },
                        ),
                    )
                } else {
                    (to(Step::KillProcesses), Action::KillProcesses(ps))
                }
            },
            (Step::KillProcesses, Event::Done(Err(e))) => {
                (to(Step::Finished), failure("Failed to kill processes: ", &e))
            },
            (Step::KillProcesses, Event::Done(Ok(()))) => {
                (to(Step::KillGrace), Action::Pause(KILL_GRACE_MS))
            },
            (Step::KillGrace, Event::Done(_)) => (to(Step::StopServices), Action::StopServices),
            (Step::StopServices, Event::Done(Err(e))) => {
                (to(Step::Finished), failure("Failed to stop services: ", &e))
            },
            (Step::StopServices, Event::Done(Ok(()))) => {
                (to(Step::UnloadModules), Action::UnloadModules)
            },
            (Step::UnloadModules, Event::Done(Err(e))) => {
                (to(Step::Finished), failure("Failed to unload modules: ", &e))
            },
            (Step::UnloadModules, Event::Done(Ok(()))) => {
                (to(Step::UnbindDriver), Action::UnbindDriver)
            },
            (Step::UnbindDriver, Event::Done(Err(e))) => {
                (to(Step::Finished), failure("Failed to unbind driver: ", &e))
            },
            (Step::UnbindDriver, Event::Done(Ok(()))) => {
                (to(Step::SlotPowerOff), Action::SlotPowerOff)
            },
            (Step::SlotPowerOff, Event::Done(Err(e))) => {
                (to(Step::Finished), failure("Failed to power off slot: ", &e))
            },
            (Step::SlotPowerOff, Event::Done(Ok(()))) => {
                (to(Step::Finished), ok_outcome(true, "Success"))
            },
            (Step::PowerOnSlots, Event::Done(_)) => (to(Step::Rescan), Action::Rescan),
            (Step::Rescan, Event::Done(_)) => (to(Step::Settle), Action::Pause(SETTLE_MS)),
            (Step::Settle, Event::Done(_)) => (to(Step::LoadModules), Action::LoadModules),
            (Step::LoadModules, Event::Done(Err(e))) => {
                (to(Step::Finished), failure("Failed to load modules: ", &e))
            },
            (Step::LoadModules, Event::Done(Ok(()))) => {
                (to(Step::StartServices), Action::StartServices)
            },
            (Step::StartServices, Event::Done(Err(e))) => {
                (to(Step::Finished), failure("Failed to start services: ", &e))
            },
            (Step::StartServices, Event::Done(Ok(()))) => {
                (to(Step::Finished), ok_outcome(true, "Success"))
            },
            _ => (to(Step::Finished), ok_outcome(false, "Internal error: unexpected event")),
        }
    }
}

/// The position of a step in the order in which the steps run: choosing the
/// transition comes first, then a sleep's steps, a wake's, and `Finished` last.
pub open spec fn rank(s: Step) -> nat {
    match s {
        Step::PersistMode => 0,
        Step::ReadCharging => 1,
        Step::FindGpu => 2,
        Step::ListProcesses => 3,
        Step::KillProcesses => 4,
        Step::KillGrace => 5,
        Step::StopServices => 6,
        Step::UnloadModules => 7,
        Step::UnbindDriver => 8,
        Step::SlotPowerOff => 9,
        Step::PowerOnSlots => 10,
        Step::Rescan => 11,
        Step::Settle => 12,
        Step::LoadModules => 13,
        Step::StartServices => 14,
        Step::Finished => 15,
    }
}

/// A sleep step.
pub open spec fn is_sleep_step(s: Step) -> bool {
    2 <= rank(s) <= 9
}

/// Each event moves a transition strictly forward in the fixed order, and a sleep
/// never runs a wake step: so a transition ends after at most as many steps as
/// there are, and its steps never interleave with those of the other kind.
pub proof fn lemma_steps_move_forward(s: Step, force: bool, mode: Mode, e: EventView)
    requires
        s != Step::Finished,
    ensures
        rank(next(s, force, mode, e).0) > rank(s),
        is_sleep_step(s) ==> next(s, force, mode, e).0 == Step::Finished || is_sleep_step(
            next(s, force, mode, e).0,
        ),
{
}

/// A `SetMode` request persists before it acts: for a text that names mode `m`, the
/// request's first action persists `m` (see `Transition::set_mode`); from there the
/// only ways on are to fail or to begin applying `m`, so no sleep or wake step runs
/// before the mode is saved; and what is saved reads back as `m`.
pub proof fn lemma_persist_precedes_effect(text: Seq<char>, m: Mode, force: bool, e: EventView)
    requires
        parse_spec(text) == Ok::<Mode, Seq<char>>(m),
    ensures
        next(Step::PersistMode, force, m, e).0 == Step::Finished || next(
            Step::PersistMode,
            force,
            m,
            e,
        ).0 == mode_step(m),
        next(Step::PersistMode, force, m, EventView::Done(Ok(()))).0 == mode_step(m),
        rank(mode_step(m)) > rank(Step::PersistMode),
        persisted_mode(Some(m.tag())) == m,
{
    crate::mode::lemma_persisted_round_trip(m);
}

/// A sleep that finds no GPU succeeds at once, forced or not, saying that the GPU
/// was not found.
pub proof fn lemma_sleep_without_gpu_succeeds(force: bool, mode: Mode)
    ensures
        next(Step::FindGpu, force, mode, EventView::Gpu(false)) == finish(
            true,
            "Nvidia GPU not found (already off?)"@,
            Seq::empty(),
        ),
        has_prefix("Nvidia GPU not found (already off?)"@, "Nvidia GPU not found"@),
{
    reveal_strlit("Nvidia GPU not found (already off?)");
    reveal_strlit("Nvidia GPU not found");
    assert("Nvidia GPU not found (already off?)"@.subrange(0, 20) =~= "Nvidia GPU not found"@);
}

/// A soft sleep terminates no process: whatever the pending step and the event, the
/// action handed out is not `KillProcesses`.
pub proof fn lemma_soft_sleep_never_kills(s: Step, mode: Mode, e: EventView)
    ensures
        !(next(s, false, mode, e).1 is KillProcesses),
{
}

/// A soft sleep that meets blocking processes fails and reports exactly them.
pub proof fn lemma_soft_sleep_reports_blockers(ps: Seq<(Seq<char>, Seq<char>)>, mode: Mode)
    requires
        ps.len() > 0,
    ensures
        next(Step::ListProcesses, false, mode, EventView::Processes(Ok(ps))) == finish(
            false,
            "Blocking processes found"@,
            ps,
        ),
{
}

/// A wake succeeds whenever the modules load and the services start, whatever came
/// of powering the slots, the rescan and the pause; so a second wake in a row
/// succeeds as the first did.
pub proof fn lemma_wake_succeeds(e1: EventView, e2: EventView, e3: EventView, force: bool, mode: Mode)
    requires
        e1 is Done,
        e2 is Done,
        e3 is Done,
    ensures
        ({
            let s1 = next(Step::PowerOnSlots, force, mode, e1).0;
            let s2 = next(s1, force, mode, e2).0;
            let s3 = next(s2, force, mode, e3).0;
            let s4 = next(s3, force, mode, EventView::Done(Ok(()))).0;
            next(s4, force, mode, EventView::Done(Ok(()))) == finish(true, "Success"@, Seq::empty())
        }),
{
}

} // verus!
