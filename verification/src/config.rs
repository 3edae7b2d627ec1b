//! Resolution of the flat session options into a validated configuration.

use std::cmp::Ordering;
use vstd::prelude::*;
use vstd::std_specs::cmp::PartialOrdSpec;
use vstd::string::*;
use crate::text::str_eq;

verus! {

/// What a measurement does to the qubit it reads.
#[derive(Clone, Copy, Debug, PartialEq, Eq, Structural)]
pub enum MeasurementMode {
    Nondemolition,
    Demolition,
}

/// The target device.
#[derive(Clone, Copy, Debug, PartialEq, Eq, Structural)]
pub struct Arch {
    /// The qubit budget; `None` leaves it unconstrained.
    pub qb_count: Option<usize>,
    /// The size of the auxiliary quantum memory.
    pub qram_size: usize,
    pub meas_mode: MeasurementMode,
    /// Whether classical feedback is available.
    pub feedback: bool,
    /// Whether recursive calls are available.
    pub recursion: bool,
}

/// The optimization toggles. Each is a tri-state: `1` forces the
/// optimization on, `-1` forces it off, `0` leaves it to the level.
#[derive(Clone, Copy, Debug, PartialEq, Eq, Structural)]
pub struct OptFlags {
    pub const_prop: i8,
}

impl Default for OptFlags {
    /// Every toggle left to the level.
    fn default() -> (r: Self)
        ensures
            r.const_prop == 0,
    {
        OptFlags { const_prop: 0 }
    }
}

/// How hard to optimize: a level, and the toggles that override it.
#[derive(Clone, Copy, Debug, PartialEq, Eq, Structural)]
pub struct OptConfig {
    pub level: u8,
    pub flags: OptFlags,
}

/// A stage of the pipeline. The stages are totally ordered, `Tokenize`
/// first and `CodeGen` last.
#[derive(Clone, Copy, Debug, PartialEq, Eq, Structural)]
pub enum Phase {
    Tokenize,
    Parse,
    Typecheck,
    Analysis,
    Optimization,
    Translation,
    CodeGen,
}

/// Which stages run.
#[derive(Clone, Copy, Debug, PartialEq, Eq, Structural)]
pub struct PhaseConfig {
    /// The stage after which the pipeline stops.
    pub last_phase: Phase,
    /// Whether typechecking is mandatory.
    pub typecheck: bool,
}

/// The configuration of one session; fixed once built.
#[derive(Clone, Copy, Debug, PartialEq, Eq, Structural)]
pub struct Config {
    /// Whether to dump the intermediate form at the stage where the pipeline
    /// stops early.
    pub debug: bool,
    pub arch: Arch,
    pub opt: OptConfig,
    pub phase_config: PhaseConfig,
}

/// An option whose value is not one of those accepted.
#[derive(Debug, PartialEq, Eq)]
pub enum ConfigError {
    /// The measurement mode, with the value that was given.
    MeasMode(String),
}

/// The stage that a name stands for: exactly the seven names of the
/// vocabulary are recognized.
pub open spec fn phase_of_name(name: Seq<char>) -> Option<Phase> {
    if name == "tokenize"@ {
        Some(Phase::Tokenize)
    } else if name == "parse"@ {
        Some(Phase::Parse)
    } else if name == "typecheck"@ {
        Some(Phase::Typecheck)
    } else if name == "analysis"@ {
        Some(Phase::Analysis)
    } else if name == "optimization"@ {
        Some(Phase::Optimization)
    } else if name == "translation"@ {
        Some(Phase::Translation)
    } else if name == "codegen"@ {
        Some(Phase::CodeGen)
    } else {
        None
    }
}

/// The measurement mode that a name stands for: exactly two names are
/// recognized, letter for letter.
pub open spec fn meas_mode_of_name(name: Seq<char>) -> Option<MeasurementMode> {
    if name == "nondemolition"@ {
        Some(MeasurementMode::Nondemolition)
    } else if name == "demolition"@ {
        Some(MeasurementMode::Demolition)
    } else {
        None
    }
}

/// The numeric encoding of a toggle.
pub open spec fn toggle_encoding(input: Option<bool>) -> int {
    match input {
        Some(true) => 1,
        Some(false) => -1,
        None => 0,
    }
}

impl ConfigError {
    /// The name of the option at fault.
    pub open spec fn spec_option(self) -> Seq<char> {
        "meas_mode"@
    }

    /// What the error says of itself: the value given, the option, and the
    /// values that the option accepts.
    pub open spec fn spec_message(self) -> Seq<char> {
        match self {
            ConfigError::MeasMode(given) => "invalid value `"@ + given@
                + "` for option `meas_mode`: expected `nondemolition` or `demolition`"@,
        }
    }

    /// The name of the option at fault.
    pub fn option(&self) -> (r: &'static str)
        ensures
            r@ == self.spec_option(),
    {
        "meas_mode"
    }

    /// The values that the option accepts.
    pub fn accepted(&self) -> (r: Vec<&'static str>)
        ensures
            r@.len() == 2,
            r@[0]@ == "nondemolition"@,
            r@[1]@ == "demolition"@,
            forall|i: int| 0 <= i < r@.len() ==> meas_mode_of_name(#[trigger] r@[i]@) is Some,
    {
        let mut names: Vec<&'static str> = Vec::new();
        names.push("nondemolition");
        names.push("demolition");
        names
    }

    /// Renders the error for a report.
    pub fn message(&self) -> (r: String)
        ensures
            r@ == self.spec_message(),
    {
        match self {
            ConfigError::MeasMode(given) => {
                let mut out = String::from_str("invalid value `");
                out.append(given.as_str());
                out.append("` for option `meas_mode`: expected `nondemolition` or `demolition`");
                out
            },
        }
    }
}

impl Phase {
    /// The place of the stage in the order, from zero.
    pub open spec fn rank(self) -> nat {
        match self {
            Phase::Tokenize => 0,
            Phase::Parse => 1,
            Phase::Typecheck => 2,
            Phase::Analysis => 3,
            Phase::Optimization => 4,
            Phase::Translation => 5,
            Phase::CodeGen => 6,
        }
    }

    /// The stage that follows this one, if any.
    pub open spec fn spec_next(self) -> Option<Phase> {
        match self {
            Phase::Tokenize => Some(Phase::Parse),
            Phase::Parse => Some(Phase::Typecheck),
            Phase::Typecheck => Some(Phase::Analysis),
            Phase::Analysis => Some(Phase::Optimization),
            Phase::Optimization => Some(Phase::Translation),
            Phase::Translation => Some(Phase::CodeGen),
            Phase::CodeGen => None,
        }
    }

    /// The name of the stage in the option vocabulary.
    pub open spec fn spec_name(self) -> Seq<char> {
        match self {
            Phase::Tokenize => "tokenize"@,
            Phase::Parse => "parse"@,
            Phase::Typecheck => "typecheck"@,
            Phase::Analysis => "analysis"@,
            Phase::Optimization => "optimization"@,
            Phase::Translation => "translation"@,
            Phase::CodeGen => "codegen"@,
        }
    }

    /// The place of the stage in the order, from zero.
    pub fn ordinal(self) -> (r: u8)
        ensures
            r == self.rank(),
    {
        match self {
            Phase::Tokenize => 0,
            Phase::Parse => 1,
            Phase::Typecheck => 2,
            Phase::Analysis => 3,
            Phase::Optimization => 4,
            Phase::Translation => 5,
            Phase::CodeGen => 6,
        }
    }

    /// The stage that follows this one, if any.
    pub fn next(self) -> (r: Option<Phase>)
        ensures
            r == self.spec_next(),
            r is None <==> self == Phase::CodeGen,
            r matches Some(q) ==> q.rank() == self.rank() + 1,
    {
        match self {
            Phase::Tokenize => Some(Phase::Parse),
            Phase::Parse => Some(Phase::Typecheck),
            Phase::Typecheck => Some(Phase::Analysis),
            Phase::Analysis => Some(Phase::Optimization),
            Phase::Optimization => Some(Phase::Translation),
            Phase::Translation => Some(Phase::CodeGen),
            Phase::CodeGen => None,
        }
    }

    /// The name of the stage in the option vocabulary.
    pub fn name(self) -> (r: &'static str)
        ensures
            r@ == self.spec_name(),
    {
        match self {
            Phase::Tokenize => "tokenize",
            Phase::Parse => "parse",
            Phase::Typecheck => "typecheck",
            Phase::Analysis => "analysis",
            Phase::Optimization => "optimization",
            Phase::Translation => "translation",
            Phase::CodeGen => "codegen",
        }
    }

    /// The stage that a name of the option vocabulary stands for.
    pub fn from_name(name: &str) -> (r: Option<Phase>)
        ensures
            r == phase_of_name(name@),
    {
        if str_eq(name, "tokenize") {
            Some(Phase::Tokenize)
        } else if str_eq(name, "parse") {
            Some(Phase::Parse)
        } else if str_eq(name, "typecheck") {
            Some(Phase::Typecheck)
        } else if str_eq(name, "analysis") {
            Some(Phase::Analysis)
        } else if str_eq(name, "optimization") {
            Some(Phase::Optimization)
        } else if str_eq(name, "translation") {
            Some(Phase::Translation)
        } else if str_eq(name, "codegen") {
            Some(Phase::CodeGen)
        } else {
            None
        }
    }
}

impl PartialOrd for Phase {
    fn partial_cmp(&self, other: &Self) -> (r: Option<Ordering>) {
        let a = self.ordinal();
        let b = other.ordinal();
        if a < b {
            Some(Ordering::Less)
        } else if a == b {
            Some(Ordering::Equal)
        } else {
            Some(Ordering::Greater)
        }
    }
}

impl vstd::std_specs::cmp::PartialOrdSpecImpl for Phase {
    open spec fn obeys_partial_cmp_spec() -> bool {
        true
    }

    open spec fn partial_cmp_spec(&self, other: &Self) -> Option<Ordering> {
        if self.rank() < other.rank() {
            Some(Ordering::Less)
        } else if self.rank() == other.rank() {
            Some(Ordering::Equal)
        } else {
            Some(Ordering::Greater)
        }
    }
}

/// Resolves the measurement-mode option.
pub fn get_meas_mode(mode: &str) -> (r: Result<MeasurementMode, ConfigError>)
    ensures
        match r {
            Ok(m) => meas_mode_of_name(mode@) == Some(m),
            Err(e) => {
                &&& meas_mode_of_name(mode@) is None
                &&& e matches ConfigError::MeasMode(given)
                &&& given@ == mode@
            },
        },
{
    if str_eq(mode, "nondemolition") {
        Ok(MeasurementMode::Nondemolition)
    } else if str_eq(mode, "demolition") {
        Ok(MeasurementMode::Demolition)
    } else {
        Err(ConfigError::MeasMode(String::from_str(mode)))
    }
}

/// Resolves the target-phase option. Without a name the pipeline runs to
/// code generation.
pub fn get_phase(phase: Option<&str>) -> (r: PhaseConfig)
    requires
        phase matches Some(name) ==> phase_of_name(name@) is Some,
    ensures
        r.typecheck,
        r.last_phase == match phase {
            Some(name) => phase_of_name(name@)->0,
            None => Phase::CodeGen,
        },
{
    let last_phase = match phase {
        Some(name) => match Phase::from_name(name) {
            Some(p) => p,
            None => Phase::CodeGen,
        },
        None => Phase::CodeGen,
    };
    PhaseConfig { last_phase, typecheck: true }
}

/// Encodes a toggle: `1` where it is switched on, `-1` where it is switched
/// off, `0` where it is left unset.
pub fn opt_flag(input: Option<bool>) -> (r: i8)
    ensures
        r == toggle_encoding(input),
{
    match input {
        Some(true) => 1,
        Some(false) => -1,
        None => 0,
    }
}

/// Exactly two names stand for a measurement mode, and each for its own.
pub proof fn lemma_meas_mode_vocabulary(name: Seq<char>)
    ensures
        meas_mode_of_name(name) is Some <==> (name == "nondemolition"@ || name == "demolition"@),
        name == "nondemolition"@ ==> meas_mode_of_name(name) == Some(
            MeasurementMode::Nondemolition,
        ),
        name == "demolition"@ ==> meas_mode_of_name(name) == Some(MeasurementMode::Demolition),
{
    reveal_strlit("nondemolition");
    reveal_strlit("demolition");
    assert("nondemolition"@.len() == 13);
    assert("demolition"@.len() == 10);
}

/// Every stage is found again by its name.
pub proof fn lemma_phase_name_round_trip(p: Phase)
    ensures
        phase_of_name(p.spec_name()) == Some(p),
{
    reveal_strlit("tokenize");
    reveal_strlit("parse");
    reveal_strlit("typecheck");
    reveal_strlit("analysis");
    reveal_strlit("optimization");
    reveal_strlit("translation");
    reveal_strlit("codegen");
    assert("tokenize"@.len() == 8 && "tokenize"@[0] == 't');
    assert("parse"@.len() == 5);
    assert("typecheck"@.len() == 9);
    assert("analysis"@.len() == 8 && "analysis"@[0] == 'a');
    assert("optimization"@.len() == 12);
    assert("translation"@.len() == 11);
    assert("codegen"@.len() == 7);
}

/// The stages are totally ordered by their rank: two stages compare as
/// their ranks do, different stages have different ranks, `Tokenize` is the
/// least and `CodeGen` the greatest, and each stage but the last is followed
/// by the one of the next rank.
pub proof fn lemma_phase_order_is_total(a: Phase, b: Phase)
    ensures
        a.rank() == b.rank() <==> a == b,
        a.partial_cmp_spec(&b) == Some(Ordering::Less) <==> a.rank() < b.rank(),
        a.partial_cmp_spec(&b) == Some(Ordering::Equal) <==> a == b,
        a.partial_cmp_spec(&b) == Some(Ordering::Greater) <==> a.rank() > b.rank(),
        Phase::Tokenize.rank() <= a.rank() <= Phase::CodeGen.rank(),
        a.spec_next() is None <==> a == Phase::CodeGen,
        a.spec_next() matches Some(n) ==> n.rank() == a.rank() + 1,
{
}

/// The encoding keeps the three states of a toggle apart: one left unset
/// is told from one switched on and from one switched off.
pub proof fn lemma_toggle_encoding_keeps_states(a: Option<bool>, b: Option<bool>)
    ensures
        -1 <= toggle_encoding(a) <= 1,
        toggle_encoding(a) == toggle_encoding(b) <==> a == b,
        toggle_encoding(a) == 0 <==> a is None,
{
}

} // verus!
