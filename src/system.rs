//! The system effector's decisions: which processes block the GPU, which service
//! and module commands to run in which order, whether the machine is on AC power,
//! and whether a user has logged in.
//!
//! The caller runs the commands and reads the files; these functions decide.
use vstd::prelude::*;

use crate::pci::views;
use crate::text::{decimal_u32, has_prefix, parse_u32, same_text, starts_with, trim, trimmed};

verus! {

/// A process that holds an Nvidia device node open: its command name and pid.
#[derive(Clone, Debug)]
pub struct BlockingProcess {
    pub name: String,
    pub pid: String,
}

impl BlockingProcess {
    pub open spec fn view_pair(self) -> (Seq<char>, Seq<char>) {
        (self.name@, self.pid@)
    }
}

/// The (name, pid) pairs of a list of processes.
pub open spec fn proc_views(v: Seq<BlockingProcess>) -> Seq<(Seq<char>, Seq<char>)> {
    v.map_values(|p: BlockingProcess| p.view_pair())
}

/// The lines of `s`, as `str::lines` splits them.
pub uninterp spec fn lines_of(s: Seq<char>) -> Seq<Seq<char>>;

/// The white-space separated words of `s`, as `str::split_whitespace` gives them.
pub uninterp spec fn words_of(s: Seq<char>) -> Seq<Seq<char>>;

/// Relies on `str::lines`: the lines of `s`, each without its line ending.
#[verifier::external_body]
pub(crate) fn lines(s: &str) -> (r: Vec<String>)
    ensures
        views(r@) == lines_of(s@),
{
    s.lines().map(|l| l.to_string()).collect()
}

/// Relies on `str::split_whitespace`: the words of `s`.
#[verifier::external_body]
fn words(s: &str) -> (r: Vec<String>)
    ensures
        views(r@) == words_of(s@),
{
    s.split_whitespace().map(|w| w.to_string()).collect()
}

/// The GPU power and persistence daemons, which the sleep step stops itself.
pub open spec fn is_service_name(n: Seq<char>) -> bool {
    has_prefix(n, "nvidia-po"@) || has_prefix(n, "nvidia-pe"@)
}

/// The words of each row.
pub open spec fn rows_view(rows: Seq<Vec<String>>) -> Seq<Seq<Seq<char>>> {
    rows.map_values(|r: Vec<String>| views(r@))
}

/// The lines of `s`, each split into its words.
pub open spec fn word_rows(s: Seq<char>) -> Seq<Seq<Seq<char>>> {
    lines_of(s).map_values(|l: Seq<char>| words_of(l))
}

/// The process that one row of the open-files listing names, if it names one that
/// counts: its first two words, unless the first is a service name.
pub open spec fn proc_of_row(w: Seq<Seq<char>>) -> Option<(Seq<char>, Seq<char>)> {
    if w.len() >= 2 && !is_service_name(w[0]) {
        Some((w[0], w[1]))
    } else {
        None
    }
}

/// The processes that the rows name, each once, in order of first appearance.
pub open spec fn procs_of_rows(rows: Seq<Seq<Seq<char>>>) -> Seq<(Seq<char>, Seq<char>)>
    decreases rows.len(),
{
    if rows.len() == 0 {
        Seq::empty()
    } else {
        let rest = procs_of_rows(rows.drop_last());
        match proc_of_row(rows.last()) {
            Some(p) => if rest.contains(p) {
                rest
            } else {
                rest.push(p)
            },
            None => rest,
        }
    }
}

/// The processes that an open-files listing names.
pub open spec fn lsof_procs(out: Seq<char>) -> Seq<(Seq<char>, Seq<char>)> {
    procs_of_rows(word_rows(out))
}

fn contains_proc(v: &Vec<BlockingProcess>, name: &str, pid: &str) -> (r: bool)
    ensures
        r == proc_views(v@).contains((name@, pid@)),
{
    let mut i: usize = 0;
    while i < v.len()
        invariant
            i <= v@.len(),
            forall|j: int| 0 <= j < i ==> proc_views(v@)[j] != (name@, pid@),
        decreases v@.len() - i,
    {
        if same_text(v[i].name.as_str(), name) && same_text(v[i].pid.as_str(), pid) {
            assert(proc_views(v@)[i as int] == (name@, pid@));
            return true;
        }
        i += 1;
    }
    false
}

/// The lines of `s`, each split into its words.
pub(crate) fn split_rows(s: &str) -> (r: Vec<Vec<String>>)
    ensures
        rows_view(r@) == word_rows(s@),
{
    let ls = lines(s);
    let mut rows: Vec<Vec<String>> = Vec::new();
    let mut i: usize = 0;
    while i < ls.len()
        invariant
            i <= ls@.len(),
            views(ls@) == lines_of(s@),
            rows@.len() == i,
            rows_view(rows@) == views(ls@).subrange(0, i as int).map_values(
                |l: Seq<char>| words_of(l),
            ),
        decreases ls@.len() - i,
    {
        let w = words(ls[i].as_str());
        let ghost before = rows@;
        let ghost wv = views(w@);
        assert(views(ls@)[i as int] == ls@[i as int]@);
        assert(wv == words_of(views(ls@)[i as int]));
        rows.push(w);
        assert(rows@ == before.push(w));
        assert forall|j: int| 0 <= j < i implies #[trigger] rows_view(rows@)[j] == rows_view(
            before,
        )[j] by {
            assert(rows@[j] == before[j]);
        }
        assert(rows_view(rows@)[i as int] == wv);
        assert(rows_view(rows@) =~= views(ls@).subrange(0, i + 1).map_values(
            |l: Seq<char>| words_of(l),
        ));
        i += 1;
    }
    assert(views(ls@).subrange(0, i as int) =~= views(ls@));
    assert(rows_view(rows@) =~= word_rows(s@));
    rows
}

/// The blocking processes that the rows of an open-files listing name: the first
/// two words of each row, without the GPU's own service daemons, each pair once.
pub fn procs_from_rows(rows: &Vec<Vec<String>>) -> (r: Vec<BlockingProcess>)
    ensures
        proc_views(r@) == procs_of_rows(rows_view(rows@)),
{
    let mut procs: Vec<BlockingProcess> = Vec::new();
    let mut i: usize = 0;
    while i < rows.len()
        invariant
            i <= rows@.len(),
            proc_views(procs@) == procs_of_rows(rows_view(rows@).subrange(0, i as int)),
        decreases rows@.len() - i,
    {
        assert(rows_view(rows@).subrange(0, i + 1).drop_last() =~= rows_view(rows@).subrange(
            0,
            i as int,
        ));
        let w = &rows[i];
        assert(rows_view(rows@).subrange(0, i + 1).last() == views(w@));
        if w.len() >= 2 {
            let name = w[0].as_str();
            let pid = w[1].as_str();
            assert(views(w@)[0] == name@ && views(w@)[1] == pid@);
            if !(starts_with(name, "nvidia-po") || starts_with(name, "nvidia-pe")) {
                if !contains_proc(&procs, name, pid) {
                    let ghost before = procs@;
                    procs.push(
                        BlockingProcess { name: String::from_str(name), pid: String::from_str(pid) },
                    );
                    assert(proc_views(procs@) =~= proc_views(before).push((name@, pid@)));
                }
            }
        }
        i += 1;
    }
    assert(rows_view(rows@).subrange(0, i as int) =~= rows_view(rows@));
    procs
}

/// The blocking processes named by the output of the open-files tool.
pub fn parse_processes(out: &str) -> (r: Vec<BlockingProcess>)
    ensures
        proc_views(r@) == lsof_procs(out@),
{
    procs_from_rows(&split_rows(out))
}

/// The device paths that the open-files tool is asked about: the Nvidia character
/// devices, then `extra`, each after a space.
pub open spec fn path_args(extra: Seq<Seq<char>>) -> Seq<char>
    decreases extra.len(),
{
    if extra.len() == 0 {
        "/dev/nvidia[0-9]*"@
    } else {
        path_args(extra.drop_last()) + " "@ + extra.last()
    }
}

/// The shell command that lists the (name, pid) pairs of processes holding the
/// Nvidia devices or the paths in `extra` open.
pub open spec fn lsof_command_text(extra: Seq<Seq<char>>) -> Seq<char> {
    "lsof -w "@ + path_args(extra) + " | grep -v PID | awk '{print $1, $2}' | sort -u"@
}

/// The shell command that lists the processes using the GPU, given the GPU's
/// device nodes.
pub fn lsof_command(extra: &Vec<String>) -> (r: String)
    ensures
        r@ == lsof_command_text(views(extra@)),
{
    let mut args = String::from_str("/dev/nvidia[0-9]*");
    let mut i: usize = 0;
    while i < extra.len()
        invariant
            i <= extra@.len(),
            args@ == path_args(views(extra@).subrange(0, i as int)),
        decreases extra@.len() - i,
    {
        assert(views(extra@).subrange(0, i + 1).drop_last() =~= views(extra@).subrange(0, i as int));
        args = args.concat(" ").concat(extra[i].as_str());
        i += 1;
    }
    assert(views(extra@).subrange(0, i as int) =~= views(extra@));
    String::from_str("lsof -w ").concat(args.as_str()).concat(
        " | grep -v PID | awk '{print $1, $2}' | sort -u",
    )
}

/// The views of a list of (action, unit) pairs.
pub open spec fn call_views(v: Seq<(&'static str, &'static str)>) -> Seq<(Seq<char>, Seq<char>)> {
    v.map_values(|c: (&'static str, &'static str)| (c.0@, c.1@))
}

/// The service-manager calls that stop the GPU's services, in order.
pub open spec fn stop_calls() -> Seq<(Seq<char>, Seq<char>)> {
    seq![
        ("stop"@, "nvidia-persistenced"@),
        ("stop"@, "nvidia-powerd"@),
        ("disable"@, "nvidia-suspend.service"@),
        ("disable"@, "nvidia-hibernate.service"@),
        ("disable"@, "nvidia-resume.service"@),
        ("disable"@, "nvidia-persistenced.service"@),
        ("disable"@, "nvidia-powerd.service"@),
        ("stop"@, "nvidia-fallback.service"@),
        ("mask"@, "nvidia-fallback.service"@),
    ]
}

/// The service-manager calls that start the GPU's services, in order.
pub open spec fn start_calls() -> Seq<(Seq<char>, Seq<char>)> {
    seq![
        ("unmask"@, "nvidia-fallback.service"@),
        ("start"@, "nvidia-persistenced"@),
        ("start"@, "nvidia-powerd"@),
        ("enable"@, "nvidia-suspend.service"@),
        ("enable"@, "nvidia-hibernate.service"@),
        ("enable"@, "nvidia-resume.service"@),
        ("enable"@, "nvidia-persistenced.service"@),
        ("enable"@, "nvidia-powerd.service"@),
    ]
}

/// The (action, unit) calls to the service manager that stop the GPU's services.
/// A call that fails is reported and the rest still run.
pub fn stop_services() -> (r: Vec<(&'static str, &'static str)>)
    ensures
        call_views(r@) == stop_calls(),
{
    let r = vec![
        ("stop", "nvidia-persistenced"),
        ("stop", "nvidia-powerd"),
        ("disable", "nvidia-suspend.service"),
        ("disable", "nvidia-hibernate.service"),
        ("disable", "nvidia-resume.service"),
        ("disable", "nvidia-persistenced.service"),
        ("disable", "nvidia-powerd.service"),
        ("stop", "nvidia-fallback.service"),
        ("mask", "nvidia-fallback.service"),
    ];
    assert(call_views(r@) =~= stop_calls());
    r
}

/// The (action, unit) calls to the service manager that start the GPU's services.
/// A call that fails is reported and the rest still run.
pub fn start_services() -> (r: Vec<(&'static str, &'static str)>)
    ensures
        call_views(r@) == start_calls(),
{
    let r = vec![
        ("unmask", "nvidia-fallback.service"),
        ("start", "nvidia-persistenced"),
        ("start", "nvidia-powerd"),
        ("enable", "nvidia-suspend.service"),
        ("enable", "nvidia-hibernate.service"),
        ("enable", "nvidia-resume.service"),
        ("enable", "nvidia-persistenced.service"),
        ("enable", "nvidia-powerd.service"),
    ];
    assert(call_views(r@) =~= start_calls());
    r
}

/// The views of a list of strings.
pub open spec fn str_views(v: Seq<&'static str>) -> Seq<Seq<char>> {
    v.map_values(|s: &'static str| s@)
}

/// The Nvidia kernel modules, in the order in which they are loaded.
pub open spec fn module_load_order() -> Seq<Seq<char>> {
    seq!["nvidia"@, "nvidia_uvm"@, "nvidia_modeset"@, "nvidia_drm"@]
}

/// The arguments to the module tool that unload the Nvidia modules: `-r`, then the
/// modules in the reverse of their load order. A failure ends the transition.
pub fn unload_modules() -> (r: Vec<&'static str>)
    ensures
        str_views(r@) == seq!["-r"@] + module_load_order().reverse(),
{
    let r = vec!["-r", "nvidia_drm", "nvidia_modeset", "nvidia_uvm", "nvidia"];
    assert(str_views(r@) =~= seq!["-r"@] + module_load_order().reverse());
    r
}

/// The arguments to the module tool that load the Nvidia modules, in load order.
/// A failure ends the transition.
pub fn load_modules() -> (r: Vec<&'static str>)
    ensures
        str_views(r@) == module_load_order(),
{
    let r = vec!["nvidia", "nvidia_uvm", "nvidia_modeset", "nvidia_drm"];
    assert(str_views(r@) =~= module_load_order());
    r
}

/// The AC adapter `online` files, in the order in which they are consulted.
pub fn charging_candidates() -> (r: Vec<&'static str>)
    ensures
        str_views(r@) == seq![
            "/sys/class/power_supply/ACAD/online"@,
            "/sys/class/power_supply/AC/online"@,
            "/sys/class/power_supply/ADP1/online"@,
        ],
{
    let r = vec![
        "/sys/class/power_supply/ACAD/online",
        "/sys/class/power_supply/AC/online",
        "/sys/class/power_supply/ADP1/online",
    ];
    assert(str_views(r@) =~= seq![
        "/sys/class/power_supply/ACAD/online"@,
        "/sys/class/power_supply/AC/online"@,
        "/sys/class/power_supply/ADP1/online"@,
    ]);
    r
}

/// Whether the machine is on AC power, given the contents of the candidate
/// `online` files in order (`None` for one that is absent or unreadable): the
/// first that exists decides, `1` meaning plugged in; with none, plugged in.
pub open spec fn charging_from(readings: Seq<Option<String>>) -> bool
    decreases readings.len(),
{
    if readings.len() == 0 {
        true
    } else {
        match readings[0] {
            Some(c) => trimmed(c@) == "1"@,
            None => charging_from(readings.drop_first()),
        }
    }
}

/// Whether the machine is on AC power. With no `online` file to read it answers
/// `true`, so that a machine of unknown state is never put to sleep.
pub fn get_charging_status(readings: &Vec<Option<String>>) -> (r: bool)
    ensures
        r == charging_from(readings@),
        (forall|i: int| 0 <= i < readings@.len() ==> (#[trigger] readings@[i]) is None) ==> r,
{
    let mut i: usize = 0;
    assert(readings@.subrange(0, readings@.len() as int) =~= readings@);
    while i < readings.len()
        invariant
            i <= readings@.len(),
            charging_from(readings@) == charging_from(readings@.subrange(i as int, readings@.len() as int)),
        decreases readings@.len() - i,
    {
        assert(readings@.subrange(i as int, readings@.len() as int).drop_first() =~= readings@.subrange(i + 1, readings@.len() as int));
        match &readings[i] {
            Some(c) => {
                return same_text(trim(c.as_str()), "1");
            },
            None => {},
        }
        i += 1;
    }
    proof {
        lemma_no_reading_is_charging(readings@);
    }
    true
}

/// With no `online` file present, the machine counts as plugged in.
pub proof fn lemma_no_reading_is_charging(readings: Seq<Option<String>>)
    ensures
        (forall|i: int| 0 <= i < readings.len() ==> (#[trigger] readings[i]) is None) ==> charging_from(readings),
    decreases readings.len(),
{
    if readings.len() > 0 && forall|i: int| 0 <= i < readings.len() ==> (#[trigger] readings[i]) is None {
        assert(readings[0] is None);
        assert forall|i: int| 0 <= i < readings.drop_first().len() implies (#[trigger] readings.drop_first()[i]) is None by {
            assert(readings[i + 1] is None);
        }
        lemma_no_reading_is_charging(readings.drop_first());
    }
}

/// A uid that belongs to a person rather than to the system.
pub open spec fn is_user_uid(u: u32) -> bool {
    1000 <= u && u < 65534
}

/// The text reads as a user uid.
pub open spec fn names_user(t: Seq<char>) -> bool {
    decimal_u32(t) matches Some(u) && is_user_uid(u)
}

/// Some row of the session manager's user listing starts with a user uid.
pub open spec fn rows_name_user(rows: Seq<Seq<Seq<char>>>) -> bool {
    exists|i: int| 0 <= i < rows.len() && (#[trigger] rows[i]).len() > 0 && names_user(rows[i][0])
}

/// Some entry name is a user uid.
pub open spec fn dirs_name_user(ds: Seq<Seq<char>>) -> bool {
    exists|i: int| 0 <= i < ds.len() && names_user(#[trigger] ds[i])
}

/// Whether a user has logged in, from the rows of the session manager's user
/// listing and the entry names of the runtime directory.
pub open spec fn logged_in_rows(
    listing: Option<Seq<Seq<Seq<char>>>>,
    runtime_dirs: Option<Seq<Seq<char>>>,
) -> bool {
    (listing matches Some(rows) && rows_name_user(rows)) || (runtime_dirs matches Some(ds)
        && dirs_name_user(ds))
}

/// Whether a user has logged in: some line of the session manager's user listing
/// starts with a user uid, or else some entry of the runtime directory is named by one.
pub open spec fn logged_in(listing: Option<Seq<char>>, runtime_dirs: Option<Seq<Seq<char>>>) -> bool {
    logged_in_rows(
        match listing {
            Some(out) => Some(word_rows(out)),
            None => None,
        },
        runtime_dirs,
    )
}

/// The characters of an optional text.
pub open spec fn opt_text(t: Option<&str>) -> Option<Seq<char>> {
    match t {
        Some(s) => Some(s@),
        None => None,
    }
}

/// The names in an optional list.
pub open spec fn opt_names(v: Option<&Vec<String>>) -> Option<Seq<Seq<char>>> {
    match v {
        Some(v) => Some(views(v@)),
        None => None,
    }
}

fn text_names_user(t: &str) -> (r: bool)
    ensures
        r == names_user(t@),
{
    match parse_u32(t) {
        Some(u) => 1000 <= u && u < 65534,
        None => false,
    }
}

/// The rows of an optional listing.
pub open spec fn opt_rows(v: Option<&Vec<Vec<String>>>) -> Option<Seq<Seq<Seq<char>>>> {
    match v {
        Some(v) => Some(rows_view(v@)),
        None => None,
    }
}

/// Whether a user has logged in, given the rows (lines split into words) of the
/// session manager's user listing and the entry names of the runtime directory
/// (`None` for either that could not be had).
pub fn logged_in_from_rows(listing: Option<&Vec<Vec<String>>>, runtime_dirs: Option<&Vec<String>>) -> (r: bool)
    ensures
        r == logged_in_rows(opt_rows(listing), opt_names(runtime_dirs)),
{
    let ghost l = opt_rows(listing);
    let ghost d = opt_names(runtime_dirs);
    match listing {
        Some(rows) => {
            let mut i: usize = 0;
            while i < rows.len()
                invariant
                    i <= rows@.len(),
                    l == Some(rows_view(rows@)),
                    l == opt_rows(listing),
                    forall|j: int|
                        0 <= j < i ==> !((#[trigger] rows_view(rows@)[j]).len() > 0 && names_user(
                            rows_view(rows@)[j][0],
                        )),
                decreases rows@.len() - i,
            {
                let w = &rows[i];
                assert(rows_view(rows@)[i as int] == views(w@));
                if w.len() > 0 && text_names_user(w[0].as_str()) {
                    assert(views(w@)[0] == w@[0]@);
                    assert(rows_name_user(rows_view(rows@)));
                    return true;
                }
                i += 1;
            }
        },
        None => {},
    }
    match runtime_dirs {
        Some(ds) => {
            let mut i: usize = 0;
            while i < ds.len()
                invariant
                    i <= ds@.len(),
                    d == Some(views(ds@)),
                    d == opt_names(runtime_dirs),
                    forall|j: int| 0 <= j < i ==> !names_user(#[trigger] views(ds@)[j]),
                decreases ds@.len() - i,
            {
                assert(views(ds@)[i as int] == ds@[i as int]@);
                if text_names_user(ds[i].as_str()) {
                    assert(names_user(views(ds@)[i as int]));
                    assert(dirs_name_user(views(ds@)));
                    return true;
                }
                i += 1;
            }
        },
        None => {},
    }
    false
}

/// Whether a user has logged in, given the output of the session manager's user
/// listing and the entry names of the runtime directory (`None` for either that
/// could not be had).
pub fn is_user_logged_in(listing: Option<&str>, runtime_dirs: Option<&Vec<String>>) -> (r: bool)
    ensures
        r == logged_in(opt_text(listing), opt_names(runtime_dirs)),
{
    match listing {
        Some(out) => {
            let rows = split_rows(out);
            logged_in_from_rows(Some(&rows), runtime_dirs)
        },
        None => logged_in_from_rows(None, runtime_dirs),
    }
}

} // verus!
