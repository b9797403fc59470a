//! The mode manager: which transition a mode asks for, and the reconciler that
//! enforces the persisted mode on every tick.
use vstd::prelude::*;

use crate::engine::Plan;
use crate::mode::Mode;
use crate::system::opt_text;
use crate::text::{
    all_digits, decimal, decimal_text, digit_value, decimal_u32, digit_char, digits_value, is_digit, parse_u32,
    trim, trim_back, trim_front, trimmed, white_space,
};

verus! {

/// The reconciler's period, in milliseconds.
pub const TICK_MS: u64 = 2000;

/// How long the charging state must hold before `Optimized` acts on it, in
/// milliseconds.
pub const DEBOUNCE_MS: u64 = 2000;

/// The wait after the system resumes before the mode is applied again, in
/// milliseconds.
pub const RESUME_SETTLE_MS: u64 = 5000;

/// The period at which startup polls for a logged-in user, in milliseconds.
pub const USER_POLL_MS: u64 = 2000;

/// The transition that applying `mode` runs.
pub open spec fn plan_for(mode: Mode, charging: bool) -> Plan {
    match mode {
        Mode::Standard => Plan::Wake,
        Mode::Integrated => Plan::Sleep { force: true },
        Mode::Optimized => if charging {
            Plan::Wake
        } else {
            Plan::Sleep { force: false }
        },
    }
}

/// The transition that applying `mode` runs: `Standard` wakes, `Integrated` sleeps
/// by force, `Optimized` wakes on AC power and sleeps softly on battery.
pub fn plan_for_mode(mode: Mode, charging: bool) -> (r: Plan)
    ensures
        r == plan_for(mode, charging),
{
    match mode {
        Mode::Standard => Plan::Wake,
        Mode::Integrated => Plan::Sleep { force: true },
        Mode::Optimized => if charging {
            Plan::Wake
        } else {
            Plan::Sleep { force: false }
        },
    }
}

/// What the reconciler remembers between ticks.
#[derive(PartialEq, Eq, Structural, Clone, Copy, Debug)]
pub struct Reconciler {
    /// The charging state seen last.
    pub last_charging: bool,
    /// When it was first seen, in milliseconds.
    pub stable_since: u64,
}

/// The charging state has held for the debounce window at time `now`.
pub open spec fn is_stable(st: Reconciler, now: u64) -> bool {
    now >= st.stable_since && now - st.stable_since >= DEBOUNCE_MS
}

/// The GPU is present and awake (or its state is unknown), so `Integrated` must
/// put it to sleep; `gpu` is its power state, `None` when it is not found.
pub open spec fn gpu_awake(gpu: Option<Seq<char>>) -> bool {
    gpu matches Some(p) && (p == "D0"@ || p == "Unknown"@)
}

/// One tick: the new reconciler state and the transition to run, if any.
pub open spec fn tick_spec(
    st: Reconciler,
    mode: Mode,
    charging: bool,
    now: u64,
    gpu: Option<Seq<char>>,
) -> (Reconciler, Option<Plan>) {
    match mode {
        Mode::Optimized => if charging != st.last_charging {
            (Reconciler { last_charging: charging, stable_since: now }, None)
        } else if is_stable(st, now) {
            (st, Some(plan_for(Mode::Optimized, charging)))
        } else {
            (st, None)
        },
        Mode::Integrated => (
            st,
            if gpu_awake(gpu) {
                Some(Plan::Sleep { force: true })
            } else {
                None
            },
        ),
        Mode::Standard => (st, None),
    }
}

impl Reconciler {
    /// A reconciler that starts out having seen `charging` at time `now`.
    pub fn new(charging: bool, now: u64) -> (r: Reconciler)
        ensures
            r.last_charging == charging,
            r.stable_since == now,
    {
        Reconciler { last_charging: charging, stable_since: now }
    }

    /// One tick of the control loop at time `now` (milliseconds), under the
    /// persisted `mode`, with the charging state and the GPU's power state (`None`
    /// when the GPU is not found). In `Optimized`, a change of the charging state is
    /// only recorded; once it has held for the debounce window the GPU is woken on
    /// AC power and softly put to sleep on battery. In `Integrated`, a GPU that is
    /// awake is put to sleep by force. `Standard` does nothing.
    pub fn tick(&mut self, mode: Mode, charging: bool, now: u64, gpu: Option<&str>) -> (r: Option<Plan>)
        ensures
            (*final(self), r) == tick_spec(*old(self), mode, charging, now, opt_text(gpu)),
    {
        match mode {
            Mode::Optimized => {
                if charging != self.last_charging {
                    self.last_charging = charging;
                    self.stable_since = now;
                    None
                } else if now >= self.stable_since && now - self.stable_since >= DEBOUNCE_MS {
                    Some(plan_for_mode(Mode::Optimized, charging))
                } else {
                    None
                }
            },
            Mode::Integrated => {
                let awake = match gpu {
                    Some(p) => crate::text::same_text(p, "D0") || crate::text::same_text(
                        p,
                        "Unknown",
                    ),
                    None => false,
                };
                if awake {
                    Some(Plan::Sleep { force: true })
                } else {
                    None
                }
            },
            Mode::Standard => None,
        }
    }
}

/// In `Optimized`, a charging state that flips and flips back across two ticks
/// starts no transition on either tick.
pub proof fn lemma_debounce_flip_back(st: Reconciler, t1: u64, t2: u64, g1: Option<Seq<char>>, g2: Option<Seq<char>>)
    ensures
        ({
            let a = st.last_charging;
            let (st1, r1) = tick_spec(st, Mode::Optimized, !a, t1, g1);
            let (st2, r2) = tick_spec(st1, Mode::Optimized, a, t2, g2);
            r1 is None && r2 is None && st2.last_charging == a
        }),
{
}

/// In `Standard`, the reconciler never starts a transition and keeps its state.
pub proof fn lemma_standard_is_quiet(st: Reconciler, charging: bool, now: u64, gpu: Option<Seq<char>>)
    ensures
        tick_spec(st, Mode::Standard, charging, now, gpu) == (st, None::<Plan>),
{
}

/// In `Optimized`, with the charging state held steady over two ticks at least the
/// debounce window apart, the second tick starts the transition that the charging
/// state asks for: a wake on AC power, a soft sleep on battery.
pub proof fn lemma_optimized_converges(
    st: Reconciler,
    charging: bool,
    t1: u64,
    t2: u64,
    g1: Option<Seq<char>>,
    g2: Option<Seq<char>>,
)
    requires
        st.stable_since <= t1,
        t1 <= t2,
        t2 - t1 >= DEBOUNCE_MS,
    ensures
        ({
            let (st1, r1) = tick_spec(st, Mode::Optimized, charging, t1, g1);
            let (st2, r2) = tick_spec(st1, Mode::Optimized, charging, t2, g2);
            r2 == Some(
                if charging {
                    Plan::Wake
                } else {
                    Plan::Sleep { force: false }
                },
            )
        }),
{
}

/// In `Integrated`, the reconciler starts a transition exactly when the GPU is
/// present and awake, and that transition is a forced sleep; once the GPU is not
/// found or is in `D3cold`, it starts none.
pub proof fn lemma_integrated_converges(st: Reconciler, charging: bool, now: u64, gpu: Option<Seq<char>>)
    ensures
        tick_spec(st, Mode::Integrated, charging, now, gpu).1 is Some <==> gpu_awake(gpu),
        tick_spec(st, Mode::Integrated, charging, now, gpu).1 is Some ==> tick_spec(
            st,
            Mode::Integrated,
            charging,
            now,
            gpu,
        ).1 == Some(Plan::Sleep { force: true }),
        (gpu is None || gpu == Some("D3cold"@)) ==> tick_spec(
            st,
            Mode::Integrated,
            charging,
            now,
            gpu,
        ).1 is None,
{
    reveal_strlit("D3cold");
    reveal_strlit("D0");
    reveal_strlit("Unknown");
    assert("D3cold"@[1] != "D0"@[1]);
    assert("D3cold"@[0] != "Unknown"@[0]);
}

/// After the system resumes (the end of a "prepare for sleep" signal), the wait
/// before the mode is applied again; nothing is done when a sleep begins.
pub fn resume_wait(start: bool) -> (r: Option<u64>)
    ensures
        r == (if start {
            None
        } else {
            Some(RESUME_SETTLE_MS)
        }),
{
    if start {
        None
    } else {
        Some(RESUME_SETTLE_MS)
    }
}

/// The boot delay that the persisted `restore_delay` file holds, in seconds: its
/// trimmed contents read as a decimal number, or 0 when absent or unreadable.
pub fn restore_delay_from(contents: Option<&str>) -> (r: u32)
    ensures
        r == match contents {
            Some(c) => match decimal_u32(trimmed(c@)) {
                Some(n) => n,
                None => 0,
            },
            None => 0,
        },
{
    match contents {
        Some(c) => match parse_u32(trim(c)) {
            Some(n) => n,
            None => 0,
        },
        None => 0,
    }
}

/// The text written to the `restore_delay` file: the decimal number of seconds.
pub fn restore_delay_contents(seconds: u32) -> (r: String)
    ensures
        r@ == decimal(seconds as nat),
{
    decimal_text(seconds as u64)
}

proof fn lemma_decimal_reads_back(n: nat)
    ensures
        decimal(n).len() > 0,
        all_digits(decimal(n)),
        digits_value(decimal(n)) == n,
    decreases n,
{
    if n < 10 {
        let d = decimal(n);
        assert(d =~= seq![digit_char(n)]);
        assert(d.drop_last() =~= Seq::<char>::empty());
        assert(digit_value(digit_char(n)) == n);
        assert(digits_value(d) == digits_value(d.drop_last()) * 10 + digit_value(d.last()));
    } else {
        lemma_decimal_reads_back(n / 10);
        let d = decimal(n);
        assert(d.drop_last() =~= decimal(n / 10));
        assert(digit_value(digit_char(n % 10)) == n % 10);
        assert forall|i: int| 0 <= i < d.len() implies is_digit(#[trigger] d[i]) by {
            if i < d.len() - 1 {
                assert(d[i] == decimal(n / 10)[i]);
            }
        }
    }
}

/// The `restore_delay` file written for a number of seconds reads back as that
/// number.
pub proof fn lemma_restore_delay_round_trip(seconds: u32)
    ensures
        decimal_u32(trimmed(decimal(seconds as nat))) == Some(seconds),
{
    let d = decimal(seconds as nat);
    lemma_decimal_reads_back(seconds as nat);
    assert(is_digit(d[0]));
    assert(!white_space(d[0]));
    assert(trim_front(d) == d);
    assert(is_digit(d.last()));
    assert(!white_space(d.last()));
    assert(trim_back(d) == d);
}

/// The acknowledgement of a `SetRestoreDelay` request, given whether the value was
/// persisted (or why not).
pub fn restore_delay_reply(seconds: u32, saved: Result<(), String>) -> (r: String)
    ensures
        r@ == match saved {
            Ok(()) => "Restore delay set to "@ + decimal(seconds as nat) + " seconds."@,
            Err(e) => "Failed to save restore delay: "@ + e@,
        },
{
    match saved {
        Ok(()) => String::from_str("Restore delay set to ").concat(
            decimal_text(seconds as u64).as_str(),
        ).concat(" seconds."),
        Err(e) => String::from_str("Failed to save restore delay: ").concat(e.as_str()),
    }
}

} // verus!
