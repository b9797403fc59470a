//! The PCI probe: which device is the Nvidia GPU, and what its sysfs entries say.
//!
//! The caller reads sysfs and hands the contents over; these functions decide.
use vstd::prelude::*;

use crate::text::{has_prefix, same_text, starts_with, trim, trimmed};

verus! {

/// The characters of each string.
pub open spec fn views(v: Seq<String>) -> Seq<Seq<char>> {
    v.map_values(|s: String| s@)
}

/// A located Nvidia GPU: its PCI address and its sysfs directory.
#[derive(Clone, Debug)]
pub struct PciDevice {
    pub address: String,
    pub path: String,
}

/// The sysfs directory of the device at `address`.
pub open spec fn device_dir(address: Seq<char>) -> Seq<char> {
    "/sys/bus/pci/devices/"@ + address
}

/// One entry of the PCI device directory: its name (the address) and the contents
/// of its `vendor` and `class` files (`None` when absent or unreadable).
#[derive(Clone, Debug)]
pub struct PciEntry {
    pub name: String,
    pub vendor: Option<String>,
    pub class: Option<String>,
}

/// An Nvidia display-class device: vendor `0x10de`, class `0x03....`.
pub open spec fn is_nvidia_display(e: PciEntry) -> bool {
    &&& e.vendor matches Some(v) && trimmed(v@) == "0x10de"@
    &&& e.class matches Some(c) && has_prefix(c@, "0x03"@)
}

/// A device node name that the GPU exposes under `drm/`.
pub open spec fn is_node_name(n: Seq<char>) -> bool {
    has_prefix(n, "card"@) || has_prefix(n, "render"@)
}

/// The `/dev/dri` paths for the node names among `names`, in order.
pub open spec fn node_paths(names: Seq<Seq<char>>) -> Seq<Seq<char>>
    decreases names.len(),
{
    if names.len() == 0 {
        Seq::empty()
    } else {
        let rest = node_paths(names.drop_last());
        if is_node_name(names.last()) {
            rest.push("/dev/dri/"@ + names.last())
        } else {
            rest
        }
    }
}

/// The slot directory of a device: `slot_file` is the contents of its `slot` file,
/// `listed` the names under the slots directory (`None` when that is absent), and
/// `named_dir_exists` whether a slot directory named by the trimmed number exists.
pub open spec fn slot_dir(
    slot_file: Option<Seq<char>>,
    listed: Option<Seq<Seq<char>>>,
    named_dir_exists: bool,
) -> Option<Seq<char>> {
    match (slot_file, listed) {
        (Some(c), Some(names)) => {
            let n = trimmed(c);
            if names.contains(n) || named_dir_exists {
                Some("/sys/bus/pci/slots/"@ + n)
            } else {
                None
            }
        },
        _ => None,
    }
}

/// Why the slot power cannot be written.
#[derive(PartialEq, Eq, Structural, Clone, Copy, Debug)]
pub enum SlotPowerError {
    /// No slot directory was found for the device.
    NoSlot,
    /// The slot has no `power` file.
    NoPowerFile,
}

/// A slot as the wake step sees it: the path of its `power` file and that file's
/// contents (`None` when absent or unreadable).
#[derive(Clone, Debug)]
pub struct SlotReading {
    pub power_path: String,
    pub power: Option<String>,
}

/// The slot is powered off: its `power` file reads `0`.
pub open spec fn is_off(s: SlotReading) -> bool {
    s.power matches Some(p) && trimmed(p@) == "0"@
}

/// The `power` paths of the slots among `slots` that read `0`, in order.
pub open spec fn off_slots(slots: Seq<SlotReading>) -> Seq<Seq<char>>
    decreases slots.len(),
{
    if slots.len() == 0 {
        Seq::empty()
    } else {
        let rest = off_slots(slots.drop_last());
        if is_off(slots.last()) {
            rest.push(slots.last().power_path@)
        } else {
            rest
        }
    }
}

fn is_nvidia_entry(e: &PciEntry) -> (r: bool)
    ensures
        r == is_nvidia_display(*e),
{
    let vendor_ok = match &e.vendor {
        Some(v) => same_text(trim(v.as_str()), "0x10de"),
        None => false,
    };
    let class_ok = match &e.class {
        Some(c) => starts_with(c.as_str(), "0x03"),
        None => false,
    };
    vendor_ok && class_ok
}

impl PciDevice {
    /// The device at `address`, under the PCI devices directory.
    pub fn new(address: &str) -> (r: PciDevice)
        ensures
            r.address@ == address@,
            r.path@ == device_dir(address@),
    {
        PciDevice {
            address: String::from_str(address),
            path: String::from_str("/sys/bus/pci/devices/").concat(address),
        }
    }

    /// The first Nvidia display-class device among the entries of the PCI devices
    /// directory, or `None` when there is none.
    pub fn find_nvidia_gpu(entries: &Vec<PciEntry>) -> (r: Option<PciDevice>)
        ensures
            r is None <==> forall|i: int| 0 <= i < entries@.len() ==> !is_nvidia_display(#[trigger] entries@[i]),
            r matches Some(d) ==> exists|i: int|
                0 <= i < entries@.len() && is_nvidia_display(#[trigger] entries@[i])
                    && (forall|j: int| 0 <= j < i ==> !is_nvidia_display(#[trigger] entries@[j]))
                    && d.address@ == entries@[i].name@ && d.path@ == device_dir(entries@[i].name@),
    {
        let mut i: usize = 0;
        while i < entries.len()
            invariant
                i <= entries@.len(),
                forall|j: int| 0 <= j < i ==> !is_nvidia_display(#[trigger] entries@[j]),
            decreases entries@.len() - i,
        {
            if is_nvidia_entry(&entries[i]) {
                let d = PciDevice::new(entries[i].name.as_str());
                assert(is_nvidia_display(entries@[i as int]));
                return Some(d);
            }
            i += 1;
        }
        None
    }

    /// The power state, given the contents of `power_state` (`None` when it cannot
    /// be read): the trimmed contents, or `Unknown`.
    pub fn get_power_state(contents: Option<&str>) -> (r: String)
        ensures
            r@ == match contents {
                Some(c) => trimmed(c@),
                None => "Unknown"@,
            },
    {
        match contents {
            Some(c) => String::from_str(trim(c)),
            None => String::from_str("Unknown"),
        }
    }

    /// The device nodes, given the entry names under the device's `drm` directory:
    /// `/dev/dri/<name>` for each name that starts with `card` or `render`. None
    /// means that the driver is unbound.
    pub fn get_device_nodes(names: &Vec<String>) -> (r: Vec<String>)
        ensures
            views(r@) == node_paths(views(names@)),
    {
        let mut out: Vec<String> = Vec::new();
        let mut i: usize = 0;
        while i < names.len()
            invariant
                i <= names@.len(),
                views(out@) == node_paths(views(names@.subrange(0, i as int))),
            decreases names@.len() - i,
        {
            let n = names[i].as_str();
            let ghost before = out@;
            assert(views(names@.subrange(0, i + 1)).drop_last() =~= views(
                names@.subrange(0, i as int),
            ));
            if starts_with(n, "card") || starts_with(n, "render") {
                out.push(String::from_str("/dev/dri/").concat(n));
                assert(views(out@) =~= views(before).push("/dev/dri/"@ + n@));
            }
            i += 1;
        }
        assert(names@.subrange(0, i as int) =~= names@);
        out
    }

    /// The path of the driver's `unbind` file.
    pub fn unbind_path(&self) -> (r: String)
        ensures
            r@ == self.path@ + "/driver/unbind"@,
    {
        self.path.clone().concat("/driver/unbind")
    }

    /// What detaching the driver writes, given whether the driver's `unbind` file
    /// exists: the device address to that file, or nothing when the driver is
    /// already unbound.
    pub fn unbind_driver(&self, unbind_exists: bool) -> (r: Option<(String, String)>)
        ensures
            unbind_exists ==> (r matches Some((p, v)) && p@ == self.path@ + "/driver/unbind"@
                && v@ == self.address@),
            !unbind_exists ==> r is None,
    {
        if unbind_exists {
            Some((self.unbind_path(), self.address.clone()))
        } else {
            None
        }
    }

    /// The path of the device's `slot` file.
    pub fn slot_file_path(&self) -> (r: String)
        ensures
            r@ == self.path@ + "/slot"@,
    {
        self.path.clone().concat("/slot")
    }

    /// The path of the device's `power_state` file.
    pub fn power_state_path(&self) -> (r: String)
        ensures
            r@ == self.path@ + "/power_state"@,
    {
        self.path.clone().concat("/power_state")
    }

    /// The path of the device's `drm` directory.
    pub fn drm_path(&self) -> (r: String)
        ensures
            r@ == self.path@ + "/drm"@,
    {
        self.path.clone().concat("/drm")
    }

    /// The slot directory: the one under the slots directory whose name is the
    /// trimmed contents of the device's `slot` file, listed there or existing.
    pub fn get_slot_path(
        slot_file: Option<&str>,
        listed: Option<&Vec<String>>,
        named_dir_exists: bool,
    ) -> (r: Option<String>)
        ensures
            match r {
                Some(p) => slot_dir(
                    match slot_file {
                        Some(c) => Some(c@),
                        None => None,
                    },
                    match listed {
                        Some(v) => Some(views(v@)),
                        None => None,
                    },
                    named_dir_exists,
                ) == Some(p@),
                None => slot_dir(
                    match slot_file {
                        Some(c) => Some(c@),
                        None => None,
                    },
                    match listed {
                        Some(v) => Some(views(v@)),
                        None => None,
                    },
                    named_dir_exists,
                ) is None,
            },
    {
        match (slot_file, listed) {
            (Some(c), Some(names)) => {
                let n = trim(c);
                let mut found = false;
                let mut i: usize = 0;
                while i < names.len()
                    invariant
                        i <= names@.len(),
                        found == views(names@.subrange(0, i as int)).contains(n@),
                    decreases names@.len() - i,
                {
                    let ghost pre = views(names@.subrange(0, i as int));
                    let ghost post = views(names@.subrange(0, i + 1));
                    assert(post =~= pre.push(names@[i as int]@));
                    if same_text(names[i].as_str(), n) {
                        assert(post[i as int] == n@);
                        assert(post.contains(n@));
                        found = true;
                    } else {
                        proof {
                            if post.contains(n@) {
                                let k = choose|k: int| 0 <= k < post.len() && post[k] == n@;
                                assert(k < i);
                                assert(pre[k] == n@);
                            }
                            if pre.contains(n@) {
                                let k = choose|k: int| 0 <= k < pre.len() && pre[k] == n@;
                                assert(post[k] == n@);
                            }
                        }
                    }
                    i += 1;
                }
                assert(names@.subrange(0, i as int) =~= names@);
                if found || named_dir_exists {
                    Some(String::from_str("/sys/bus/pci/slots/").concat(n))
                } else {
                    None
                }
            },
            _ => None,
        }
    }

    /// Where and what to write to set the slot power: the slot's `power` file and
    /// `1` or `0`. Fails without a slot, or without a `power` file in it.
    pub fn set_slot_power(slot: Option<&str>, power_file_exists: bool, on: bool) -> (r: Result<
        (String, &'static str),
        SlotPowerError,
    >)
        ensures
            slot is None ==> r == Err::<(String, &'static str), SlotPowerError>(
                SlotPowerError::NoSlot,
            ),
            slot is Some && !power_file_exists ==> r == Err::<
                (String, &'static str),
                SlotPowerError,
            >(SlotPowerError::NoPowerFile),
            slot is Some && power_file_exists ==> (r matches Ok((p, v)) && p@ == slot->0@
                + "/power"@ && v@ == (if on {
                "1"@
            } else {
                "0"@
            })),
    {
        match slot {
            None => Err(SlotPowerError::NoSlot),
            Some(s) => {
                if !power_file_exists {
                    Err(SlotPowerError::NoPowerFile)
                } else {
                    let v = if on {
                        "1"
                    } else {
                        "0"
                    };
                    Ok((String::from_str(s).concat("/power"), v))
                }
            },
        }
    }
}

impl SlotPowerError {
    /// The message for this error, for the device at `address` and the slot
    /// `power` path `power_path`.
    pub fn message(&self, address: &str, power_path: &str) -> (r: String)
        ensures
            r@ == match self {
                SlotPowerError::NoSlot => "Could not find PCI slot for device "@ + address@
                    + ". (Is acpiphp loaded?)"@,
                SlotPowerError::NoPowerFile => "Slot power control file not found at "@
                    + power_path@,
            },
    {
        match self {
            SlotPowerError::NoSlot => String::from_str("Could not find PCI slot for device ").concat(
                address,
            ).concat(". (Is acpiphp loaded?)"),
            SlotPowerError::NoPowerFile => String::from_str(
                "Slot power control file not found at ",
            ).concat(power_path),
        }
    }
}

/// The `power` files that waking writes `1` to: those of the slots that read `0`.
pub fn slots_to_power_on(slots: &Vec<SlotReading>) -> (r: Vec<String>)
    ensures
        views(r@) == off_slots(slots@),
{
    let mut out: Vec<String> = Vec::new();
    let mut i: usize = 0;
    while i < slots.len()
        invariant
            i <= slots@.len(),
            views(out@) == off_slots(slots@.subrange(0, i as int)),
        decreases slots@.len() - i,
    {
        let s = &slots[i];
        let off = match &s.power {
            Some(p) => same_text(trim(p.as_str()), "0"),
            None => false,
        };
        let ghost before = out@;
        assert(slots@.subrange(0, i + 1).drop_last() =~= slots@.subrange(0, i as int));
        if off {
            out.push(s.power_path.clone());
            assert(views(out@) =~= views(before).push(s.power_path@));
        }
        i += 1;
    }
    assert(slots@.subrange(0, i as int) =~= slots@);
    out
}

/// After a wake has written `1` to every slot that read `0`, a second wake finds
/// no slot to power on.
pub proof fn lemma_wake_slots_idempotent(before: Seq<SlotReading>, after: Seq<SlotReading>)
    requires
        before.len() == after.len(),
        forall|i: int|
            0 <= i < before.len() ==> (#[trigger] after[i]).power_path == before[i].power_path,
        forall|i: int|
            0 <= i < before.len() ==> (is_off(#[trigger] before[i]) ==> (after[i].power matches Some(
                p,
            ) && p@ == "1"@)),
        forall|i: int|
            0 <= i < before.len() ==> (!is_off(#[trigger] before[i]) ==> after[i] == before[i]),
    ensures
        off_slots(after) == Seq::<Seq<char>>::empty(),
    decreases before.len(),
{
    reveal_strlit("1");
    reveal_strlit("0");
    if before.len() > 0 {
        let n = before.len() - 1;
        lemma_wake_slots_idempotent(before.drop_last(), after.drop_last());
        assert(after.drop_last() =~= after.subrange(0, n));
        if is_off(before[n]) {
            let p = after[n].power->0;
            assert(p@ == "1"@);
            assert(!crate::text::white_space(p@[0]));
            assert(crate::text::trim_front(p@) == p@);
            assert(crate::text::trim_back(p@) == p@);
            assert(trimmed(p@)[0] != "0"@[0]);
        }
        assert(!is_off(after[n]));
    }
}

} // verus!
