//! What the front-ends show: the state that a client caches from `Info`, and the
//! texts for its icon, title, tooltip, prompts and notifications.
use vstd::prelude::*;

use crate::mode::{parse_spec, Mode};
use crate::system::{lines, lines_of, proc_views, BlockingProcess};
use crate::text::{decimal, decimal_text, has_prefix, same_text, starts_with};

verus! {

/// The state a client caches from the daemon's `Info` answer.
#[derive(Debug)]
pub struct UiState {
    pub mode: Mode,
    pub power_state: String,
    pub processes: Vec<BlockingProcess>,
    /// The last failure, cleared by the next successful refresh.
    pub last_error: Option<String>,
}

/// The mode that a reported mode text names, `Standard` when it names none.
pub open spec fn reported_mode(t: Seq<char>) -> Mode {
    match parse_spec(t) {
        Ok(m) => m,
        Err(_) => Mode::Standard,
    }
}

/// `- name (PID pid)`.
pub open spec fn proc_line(p: (Seq<char>, Seq<char>)) -> Seq<char> {
    "- "@ + p.0 + " (PID "@ + p.1 + ")"@
}

/// The process lines, each followed by `sep`.
pub open spec fn proc_lines(ps: Seq<(Seq<char>, Seq<char>)>, sep: Seq<char>) -> Seq<char>
    decreases ps.len(),
{
    if ps.len() == 0 {
        Seq::empty()
    } else {
        proc_lines(ps.drop_last(), sep) + proc_line(ps.last()) + sep
    }
}

/// The question asked before processes are terminated to put the GPU to sleep.
pub open spec fn kill_prompt_text(ps: Seq<(Seq<char>, Seq<char>)>) -> Seq<char> {
    "The following processes are using the Nvidia GPU and may need to be killed to sleep it:\n\n"@
        + proc_lines(ps, "\n"@)
}

/// The icon for a state.
pub open spec fn icon_spec(s: UiState) -> Seq<char> {
    if s.processes@.len() > 0 {
        "nvsleepify-gpu-active"@
    } else if s.power_state@ == "D3cold"@ {
        "nvsleepify-gpu-suspended"@
    } else if s.power_state@ == "NotFound"@ || s.mode == Mode::Integrated {
        "nvsleepify-gpu-off"@
    } else {
        "nvsleepify-gpu-active"@
    }
}

/// The title for a state.
pub open spec fn title_spec(s: UiState) -> Seq<char> {
    if s.processes@.len() > 0 {
        "GPU Active ("@ + decimal(s.processes@.len()) + " proc)"@
    } else if s.power_state@ == "D3cold"@ {
        "GPU Suspended (D3cold)"@
    } else {
        "nvsleepify ("@ + s.mode.title() + ")"@
    }
}

/// The tooltip for a state: its lines joined by line breaks.
pub open spec fn tooltip_spec(s: UiState) -> Seq<char> {
    "Mode: "@ + s.mode.title() + (if s.power_state@.len() > 0 && s.power_state@ != "NotFound"@ {
        "\nPower: "@ + s.power_state@
    } else {
        Seq::empty()
    }) + (if s.processes@.len() > 0 {
        "\nProcesses using GPU:"@ + proc_lines_before(proc_views(s.processes@))
    } else {
        Seq::empty()
    }) + match s.last_error {
        Some(e) => "\nError: "@ + e@,
        None => Seq::empty(),
    }
}

/// The process lines, each after a line break.
pub open spec fn proc_lines_before(ps: Seq<(Seq<char>, Seq<char>)>) -> Seq<char>
    decreases ps.len(),
{
    if ps.len() == 0 {
        Seq::empty()
    } else {
        proc_lines_before(ps.drop_last()) + "\n"@ + proc_line(ps.last())
    }
}

/// Some line of a module listing is the `nvidia` module's.
pub open spec fn lines_list_driver(ls: Seq<Seq<char>>) -> bool {
    exists|i: int| 0 <= i < ls.len() && has_prefix(#[trigger] ls[i], "nvidia "@)
}

/// The module listing has a line for the `nvidia` module.
pub open spec fn driver_listed(modules: Seq<char>) -> bool {
    lines_list_driver(lines_of(modules))
}

/// The notifications that a refresh from `last` to `new` raises.
pub open spec fn notices(last: UiState, new: UiState, driver_loaded: bool) -> Seq<Seq<char>> {
    (if last.power_state@ != "D0"@ && new.power_state@ == "D0"@ && driver_loaded {
        seq!["GPU Woke up (D0)"@]
    } else {
        Seq::empty()
    }) + (if last.power_state@ != "D3cold"@ && new.power_state@ == "D3cold"@ {
        seq!["GPU Suspended (D3cold)"@]
    } else {
        Seq::empty()
    }) + (if last.mode != new.mode {
        seq!["Mode changed to "@ + new.mode.title()]
    } else {
        Seq::empty()
    })
}

fn process_lines(procs: &Vec<BlockingProcess>, sep: &str) -> (r: String)
    ensures
        r@ == proc_lines(proc_views(procs@), sep@),
{
    let mut out = String::new();
    let mut i: usize = 0;
    while i < procs.len()
        invariant
            i <= procs@.len(),
            out@ == proc_lines(proc_views(procs@).subrange(0, i as int), sep@),
        decreases procs@.len() - i,
    {
        assert(proc_views(procs@).subrange(0, i + 1).drop_last() =~= proc_views(procs@).subrange(
            0,
            i as int,
        ));
        out = out.concat("- ").concat(procs[i].name.as_str()).concat(" (PID ").concat(
            procs[i].pid.as_str(),
        ).concat(")").concat(sep);
        i += 1;
    }
    assert(proc_views(procs@).subrange(0, i as int) =~= proc_views(procs@));
    out
}

fn process_lines_before(procs: &Vec<BlockingProcess>) -> (r: String)
    ensures
        r@ == proc_lines_before(proc_views(procs@)),
{
    let mut out = String::new();
    let mut i: usize = 0;
    while i < procs.len()
        invariant
            i <= procs@.len(),
            out@ == proc_lines_before(proc_views(procs@).subrange(0, i as int)),
        decreases procs@.len() - i,
    {
        assert(proc_views(procs@).subrange(0, i + 1).drop_last() =~= proc_views(procs@).subrange(
            0,
            i as int,
        ));
        out = out.concat("\n").concat("- ").concat(procs[i].name.as_str()).concat(" (PID ").concat(
            procs[i].pid.as_str(),
        ).concat(")");
        i += 1;
    }
    assert(proc_views(procs@).subrange(0, i as int) =~= proc_views(procs@));
    out
}

/// The question asked before `procs` are terminated; a client that finds no
/// process asks nothing.
pub fn kill_prompt(procs: &Vec<BlockingProcess>) -> (r: String)
    ensures
        r@ == kill_prompt_text(proc_views(procs@)),
{
    String::from_str(
        "The following processes are using the Nvidia GPU and may need to be killed to sleep it:\n\n",
    ).concat(process_lines(procs, "\n").as_str())
}

/// Whether switching to `mode` must first be confirmed: a forced sleep would
/// terminate the processes that hold the GPU.
pub fn needs_kill_confirmation(mode: Mode, procs: &Vec<BlockingProcess>) -> (r: bool)
    ensures
        r == (mode == Mode::Integrated && procs@.len() > 0),
{
    mode == Mode::Integrated && procs.len() > 0
}

/// Whether the lines of a module listing show the `nvidia` module loaded.
pub fn driver_in_lines(ls: &Vec<String>) -> (r: bool)
    ensures
        r == lines_list_driver(crate::pci::views(ls@)),
{
    let mut i: usize = 0;
    while i < ls.len()
        invariant
            i <= ls@.len(),
            forall|j: int| 0 <= j < i ==> !has_prefix(#[trigger] crate::pci::views(ls@)[j], "nvidia "@),
        decreases ls@.len() - i,
    {
        assert(crate::pci::views(ls@)[i as int] == ls@[i as int]@);
        if starts_with(ls[i].as_str(), "nvidia ") {
            return true;
        }
        i += 1;
    }
    false
}

/// Whether the module listing shows the `nvidia` module loaded.
pub fn is_gpu_driver_loaded(modules: &str) -> (r: bool)
    ensures
        r == driver_listed(modules@),
{
    driver_in_lines(&lines(modules))
}

/// The failure shown when a mode change was refused.
pub fn set_mode_failure(message: &str) -> (r: String)
    ensures
        r@ == "Set Mode failed: "@ + message@,
{
    String::from_str("Set Mode failed: ").concat(message)
}

impl UiState {
    /// The state before anything is known, or after the daemon could not be asked.
    pub fn unknown(last_error: Option<String>) -> (r: UiState)
        ensures
            r.mode == Mode::Standard,
            r.power_state@ == Seq::<char>::empty(),
            r.processes@.len() == 0,
            r.last_error == last_error,
    {
        UiState { mode: Mode::Standard, power_state: String::new(), processes: Vec::new(), last_error }
    }

    /// The state after a refresh: the `Info` answer `(mode, power state, processes)`
    /// clears the last error; a failed query leaves only the error.
    pub fn from_info(reply: Result<(String, String, Vec<BlockingProcess>), String>) -> (r: UiState)
        ensures
            match reply {
                Ok((m, p, ps)) => r.mode == reported_mode(m@) && r.power_state == p
                    && r.processes == ps && r.last_error is None,
                Err(e) => r.mode == Mode::Standard && r.power_state@ == Seq::<char>::empty()
                    && r.processes@.len() == 0 && (r.last_error matches Some(t) && t@
                    == "Failed to query daemon: "@ + e@ + " (is nvsleepifyd.service running?)"@),
            },
    {
        match reply {
            Ok((m, p, ps)) => {
                let mode = match Mode::parse(m.as_str()) {
                    Ok(x) => x,
                    Err(_) => Mode::Standard,
                };
                UiState { mode, power_state: p, processes: ps, last_error: None }
            },
            Err(e) => UiState::unknown(
                Some(
                    String::from_str("Failed to query daemon: ").concat(e.as_str()).concat(
                        " (is nvsleepifyd.service running?)",
                    ),
                ),
            ),
        }
    }

    /// The tray icon's name.
    pub fn icon_name_for_state(&self) -> (r: &'static str)
        ensures
            r@ == icon_spec(*self),
    {
        if self.processes.len() > 0 {
            "nvsleepify-gpu-active"
        } else if same_text(self.power_state.as_str(), "D3cold") {
            "nvsleepify-gpu-suspended"
        } else if same_text(self.power_state.as_str(), "NotFound") || self.mode
            == Mode::Integrated {
            "nvsleepify-gpu-off"
        } else {
            "nvsleepify-gpu-active"
        }
    }

    /// The tray title.
    pub fn title_for_state(&self) -> (r: String)
        ensures
            r@ == title_spec(*self),
    {
        if self.processes.len() > 0 {
            String::from_str("GPU Active (").concat(
                decimal_text(self.processes.len() as u64).as_str(),
            ).concat(" proc)")
        } else if same_text(self.power_state.as_str(), "D3cold") {
            String::from_str("GPU Suspended (D3cold)")
        } else {
            String::from_str("nvsleepify (").concat(self.mode.display_name()).concat(")")
        }
    }

    /// The tray tooltip's text.
    pub fn tooltip_for_state(&self) -> (r: String)
        ensures
            r@ == tooltip_spec(*self),
    {
        let mut out = String::from_str("Mode: ").concat(self.mode.display_name());
        let ps = self.power_state.as_str();
        if ps.unicode_len() > 0 && !same_text(ps, "NotFound") {
            out = out.concat("\nPower: ").concat(ps);
        }
        if self.processes.len() > 0 {
            out = out.concat("\nProcesses using GPU:").concat(
                process_lines_before(&self.processes).as_str(),
            );
        }
        match &self.last_error {
            Some(e) => out.concat("\nError: ").concat(e.as_str()),
            None => out,
        }
    }

    /// The notifications that a refresh from `self` to `new` raises, given whether
    /// the GPU driver is loaded.
    pub fn notifications(&self, new: &UiState, driver_loaded: bool) -> (r: Vec<String>)
        ensures
            crate::pci::views(r@) == notices(*self, *new, driver_loaded),
    {
        let mut out: Vec<String> = Vec::new();
        let old_ps = self.power_state.as_str();
        let new_ps = new.power_state.as_str();
        if !same_text(old_ps, "D0") && same_text(new_ps, "D0") && driver_loaded {
            out.push(String::from_str("GPU Woke up (D0)"));
        }
        let ghost first = out@;
        if !same_text(old_ps, "D3cold") && same_text(new_ps, "D3cold") {
            out.push(String::from_str("GPU Suspended (D3cold)"));
        }
        let ghost second = out@;
        if self.mode != new.mode {
            out.push(String::from_str("Mode changed to ").concat(new.mode.display_name()));
        }
        assert(crate::pci::views(out@) =~= notices(*self, *new, driver_loaded));
        out
    }
}

} // verus!
