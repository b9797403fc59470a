//! The user-visible policy mode, its text forms and its persisted form.
use vstd::prelude::*;

use crate::text::{ascii_lower, chars_equal, lowered, trim, trimmed};

verus! {

/// The policy that decides whether the GPU should be awake.
#[derive(PartialEq, Eq, Structural, Clone, Copy, Debug)]
pub enum Mode {
    /// GPU always awake.
    Standard,
    /// GPU always asleep; blocking processes may be terminated.
    Integrated,
    /// GPU asleep on battery, awake on AC power.
    Optimized,
}

impl Default for Mode {
    fn default() -> (r: Mode)
        ensures
            r == Mode::Standard,
    {
        Mode::Standard
    }
}

/// The mode that a lower-case word names, aliases included.
pub open spec fn mode_named(w: Seq<char>) -> Option<Mode> {
    if w == "standard"@ || w == "std"@ || w == "off"@ {
        Some(Mode::Standard)
    } else if w == "integrated"@ || w == "int"@ || w == "on"@ {
        Some(Mode::Integrated)
    } else if w == "optimized"@ || w == "opt"@ || w == "auto"@ {
        Some(Mode::Optimized)
    } else {
        None
    }
}

/// What parsing `s` gives: the mode that it names in any letter case, or the
/// message for an unknown word.
pub open spec fn parse_spec(s: Seq<char>) -> Result<Mode, Seq<char>> {
    match mode_named(lowered(s)) {
        Some(m) => Ok(m),
        None => Err("Unknown mode: "@ + s),
    }
}

/// The mode that the persisted file's contents select: `Standard` when the file is
/// absent or holds no mode.
pub open spec fn persisted_mode(contents: Option<Seq<char>>) -> Mode {
    match contents {
        Some(c) => match mode_named(lowered(trimmed(c))) {
            Some(m) => m,
            None => Mode::Standard,
        },
        None => Mode::Standard,
    }
}

impl Mode {
    /// The serialized form: the lower-case tag.
    pub open spec fn tag(self) -> Seq<char> {
        match self {
            Mode::Standard => "standard"@,
            Mode::Integrated => "integrated"@,
            Mode::Optimized => "optimized"@,
        }
    }

    /// The form shown to people.
    pub open spec fn title(self) -> Seq<char> {
        match self {
            Mode::Standard => "Standard"@,
            Mode::Integrated => "Integrated"@,
            Mode::Optimized => "Optimized"@,
        }
    }

    /// The lower-case tag, as written to the persisted mode file and sent on the bus.
    pub fn as_str(&self) -> (r: &'static str)
        ensures
            r@ == self.tag(),
    {
        match self {
            Mode::Standard => "standard",
            Mode::Integrated => "integrated",
            Mode::Optimized => "optimized",
        }
    }

    /// The capitalised name, as shown in reports.
    pub fn display_name(&self) -> (r: &'static str)
        ensures
            r@ == self.title(),
    {
        match self {
            Mode::Standard => "Standard",
            Mode::Integrated => "Integrated",
            Mode::Optimized => "Optimized",
        }
    }

    /// Reads a mode in any letter case, aliases included: `std` and `off` for
    /// `Standard`, `int` and `on` for `Integrated`, `opt` and `auto` for `Optimized`.
    pub fn parse(s: &str) -> (r: Result<Mode, String>)
        ensures
            match parse_spec(s@) {
                Ok(m) => r == Ok::<Mode, String>(m),
                Err(e) => r is Err && r->Err_0@ == e,
            },
    {
        let w = ascii_lower(s);
        if chars_equal(&w, "standard") || chars_equal(&w, "std") || chars_equal(&w, "off") {
            Ok(Mode::Standard)
        } else if chars_equal(&w, "integrated") || chars_equal(&w, "int") || chars_equal(
            &w,
            "on",
        ) {
            Ok(Mode::Integrated)
        } else if chars_equal(&w, "optimized") || chars_equal(&w, "opt") || chars_equal(
            &w,
            "auto",
        ) {
            Ok(Mode::Optimized)
        } else {
            Err(String::from_str("Unknown mode: ").concat(s))
        }
    }

    /// The mode held by the persisted mode file, given its contents (`None` when
    /// it is absent or unreadable).
    pub fn from_persisted(contents: Option<&str>) -> (r: Mode)
        ensures
            r == persisted_mode(
                match contents {
                    Some(c) => Some(c@),
                    None => None,
                },
            ),
    {
        match contents {
            Some(c) => match Mode::parse(trim(c)) {
                Ok(m) => m,
                Err(_) => Mode::Standard,
            },
            None => Mode::Standard,
        }
    }
}

impl std::str::FromStr for Mode {
    type Err = String;

    /// Reads a mode as `Mode::parse` does.
    fn from_str(s: &str) -> (r: Result<Mode, String>)
        ensures
            match parse_spec(s@) {
                Ok(m) => r == Ok::<Mode, String>(m),
                Err(e) => r is Err && r->Err_0@ == e,
            },
    {
        Mode::parse(s)
    }
}

/// Parsing the serialized form of a mode, or its displayed name, gives the mode back.
pub proof fn lemma_parse_format_round_trip(m: Mode)
    ensures
        parse_spec(m.tag()) == Ok::<Mode, Seq<char>>(m),
        parse_spec(m.title()) == Ok::<Mode, Seq<char>>(m),
{
    reveal_strlit("standard");
    reveal_strlit("integrated");
    reveal_strlit("optimized");
    reveal_strlit("Standard");
    reveal_strlit("Integrated");
    reveal_strlit("Optimized");
    reveal_strlit("std");
    reveal_strlit("off");
    reveal_strlit("int");
    reveal_strlit("on");
    reveal_strlit("opt");
    reveal_strlit("auto");
    assert(lowered(m.tag()) =~= m.tag());
    assert(lowered(m.title()) =~= m.tag());
    match m {
        Mode::Standard => {},
        Mode::Integrated => {
            assert("integrated"@ != "standard"@ && "integrated"@ != "std"@ && "integrated"@
                != "off"@) by {
                assert("integrated"@[0] != "standard"@[0]);
            }
        },
        Mode::Optimized => {
            assert("optimized"@[0] != "standard"@[0]);
            assert("optimized"@[0] != "std"@[0]);
            assert("optimized"@[0] != "integrated"@[0]);
            assert("optimized"@[0] != "int"@[0]);
            assert("optimized"@.len() != "off"@.len());
            assert("optimized"@.len() != "on"@.len());
        },
    }
}

/// Parsing ignores letter case: two texts that agree once lower-cased parse to
/// the same mode.
pub proof fn lemma_parse_case_insensitive(a: Seq<char>, b: Seq<char>)
    requires
        lowered(a) == lowered(b),
    ensures
        parse_spec(a) is Ok <==> parse_spec(b) is Ok,
        parse_spec(a) is Ok ==> parse_spec(a) == parse_spec(b),
{
}

/// Persisting a mode and reading the file back gives the same mode.
pub proof fn lemma_persisted_round_trip(m: Mode)
    ensures
        persisted_mode(Some(m.tag())) == m,
{
    lemma_parse_format_round_trip(m);
    reveal_strlit("standard");
    reveal_strlit("integrated");
    reveal_strlit("optimized");
    let t = m.tag();
    assert(!crate::text::white_space(t[0]));
    assert(crate::text::trim_front(t) == t);
    assert(!crate::text::white_space(t.last()));
    assert(crate::text::trim_back(t) == t);
}

} // verus!
