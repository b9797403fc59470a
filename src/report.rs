//! The read-only reports: the machine-friendly `Info` triple and the status text.
use vstd::prelude::*;

use crate::mode::Mode;
use crate::pci::{views, PciDevice};
use crate::system::{proc_views, BlockingProcess};
use crate::text::{decimal, decimal_text, same_text};

verus! {

/// What the reports know of a GPU that was found.
#[derive(Debug)]
pub struct GpuSnapshot {
    pub device: PciDevice,
    pub nodes: Vec<String>,
    pub power_state: String,
    pub processes: Vec<BlockingProcess>,
}

/// The machine-friendly report: the mode, the GPU's power state (`NotFound` when
/// there is no GPU), and the processes that hold it.
#[derive(Debug)]
pub struct Info {
    pub mode: String,
    pub power_state: String,
    pub processes: Vec<BlockingProcess>,
}

/// The machine-friendly report for the persisted `mode` and what was found of the GPU.
pub fn info_logic(mode: Mode, gpu: Option<GpuSnapshot>) -> (r: Info)
    ensures
        r.mode@ == mode.tag(),
        match gpu {
            Some(g) => r.power_state@ == g.power_state@ && proc_views(r.processes@) == proc_views(
                g.processes@,
            ),
            None => r.power_state@ == "NotFound"@ && r.processes@.len() == 0,
        },
{
    let m = String::from_str(mode.as_str());
    match gpu {
        Some(g) => Info { mode: m, power_state: g.power_state, processes: g.processes },
        None => Info { mode: m, power_state: String::from_str("NotFound"), processes: Vec::new() },
    }
}

/// `a`, `b`, ... joined by `, `.
pub open spec fn joined(items: Seq<Seq<char>>) -> Seq<char>
    decreases items.len(),
{
    if items.len() == 0 {
        Seq::empty()
    } else if items.len() == 1 {
        items[0]
    } else {
        joined(items.drop_last()) + ", "@ + items.last()
    }
}

/// `needle` occurs in `s`.
pub open spec fn has_infix(s: Seq<char>, needle: Seq<char>) -> bool {
    exists|i: int| 0 <= i <= s.len() - needle.len() && #[trigger] s.subrange(i, i + needle.len()) == needle
}

/// The status line for a GPU, by what holds it and its power state.
pub open spec fn status_line(procs: nat, state: Seq<char>) -> Seq<char> {
    if procs > 0 {
        "  Status: Active (In Use)\n  Blocking Processes: "@ + decimal(procs) + "\n"@
    } else if state == "D3cold"@ {
        "  Status: Off / D3cold\n"@
    } else if has_infix(state, "D3"@) {
        "  Status: Suspended\n"@
    } else {
        "  Status: Idle / D0\n"@
    }
}

/// The device-node line.
pub open spec fn nodes_line(nodes: Seq<Seq<char>>) -> Seq<char> {
    if nodes.len() > 0 {
        "  Device Nodes: "@ + joined(nodes) + "\n"@
    } else {
        "  Device Nodes: None (Driver unbound or card off)\n"@
    }
}

/// The human-readable status report.
pub open spec fn status_text(mode: Mode, gpu: Option<GpuSnapshot>) -> Seq<char> {
    "Mode:        "@ + mode.title() + "\n"@ + match gpu {
        Some(g) => "Nvidia GPU Found:\n  PCI Address: "@ + g.device.address@ + "\n  PCI Path:    \""@
            + g.device.path@ + "\"\n"@ + nodes_line(views(g.nodes@)) + "  Power State: "@
            + g.power_state@ + "\n"@ + status_line(g.processes@.len(), g.power_state@),
        None => "No Nvidia GPU running on PCI bus (or currently hidden/powered off).\n"@
            + "Select the standard mode to power it back on.\n"@,
    }
}

fn contains_text(s: &str, needle: &str) -> (r: bool)
    ensures
        r == has_infix(s@, needle@),
{
    let n = s.unicode_len();
    let m = needle.unicode_len();
    if m > n {
        return false;
    }
    let last = n - m;
    let mut i: usize = 0;
    while i < last
        invariant
            n == s@.len(),
            m == needle@.len(),
            last == n - m,
            i <= last,
            forall|k: int| 0 <= k < i ==> #[trigger] s@.subrange(k, k + m) != needle@,
        decreases last - i,
    {
        if same_text(s.substring_char(i, i + m), needle) {
            return true;
        }
        i += 1;
    }
    let found = same_text(s.substring_char(last, n), needle);
    proof {
        if found {
            assert(s@.subrange(last as int, last + m) == needle@);
        } else {
            assert forall|k: int| 0 <= k <= last implies #[trigger] s@.subrange(k, k + m)
                != needle@ by {
                if k == last {
                    assert(s@.subrange(k, k + m) == s@.subrange(last as int, n as int));
                }
            }
        }
    }
    found
}

fn join_nodes(nodes: &Vec<String>) -> (r: String)
    ensures
        r@ == joined(views(nodes@)),
{
    let mut out = String::new();
    let mut i: usize = 0;
    while i < nodes.len()
        invariant
            i <= nodes@.len(),
            out@ == joined(views(nodes@).subrange(0, i as int)),
        decreases nodes@.len() - i,
    {
        assert(views(nodes@).subrange(0, i + 1).drop_last() =~= views(nodes@).subrange(0, i as int));
        if i == 0 {
            out = String::from_str(nodes[i].as_str());
        } else {
            out = out.concat(", ").concat(nodes[i].as_str());
        }
        i += 1;
    }
    assert(views(nodes@).subrange(0, i as int) =~= views(nodes@));
    out
}

/// The human-readable status report for the persisted `mode` and what was found
/// of the GPU.
pub fn status_logic(mode: Mode, gpu: Option<GpuSnapshot>) -> (r: String)
    ensures
        r@ == status_text(mode, gpu),
{
    let head = String::from_str("Mode:        ").concat(mode.display_name()).concat("\n");
    match gpu {
        Some(g) => {
            let nodes = if g.nodes.len() > 0 {
                String::from_str("  Device Nodes: ").concat(join_nodes(&g.nodes).as_str()).concat("\n")
            } else {
                String::from_str("  Device Nodes: None (Driver unbound or card off)\n")
            };
            let state = g.power_state.as_str();
            let status = if g.processes.len() > 0 {
                String::from_str("  Status: Active (In Use)\n  Blocking Processes: ").concat(
                    decimal_text(g.processes.len() as u64).as_str(),
                ).concat("\n")
            } else if same_text(state, "D3cold") {
                String::from_str("  Status: Off / D3cold\n")
            } else if contains_text(state, "D3") {
                String::from_str("  Status: Suspended\n")
            } else {
                String::from_str("  Status: Idle / D0\n")
            };
            head.concat("Nvidia GPU Found:\n  PCI Address: ").concat(g.device.address.as_str()).concat(
                "\n  PCI Path:    \"",
            ).concat(g.device.path.as_str()).concat("\"\n").concat(nodes.as_str()).concat(
                "  Power State: ",
            ).concat(state).concat("\n").concat(status.as_str())
        },
        None => head.concat("No Nvidia GPU running on PCI bus (or currently hidden/powered off).\n").concat(
            "Select the standard mode to power it back on.\n",
        ),
    }
}

} // verus!
