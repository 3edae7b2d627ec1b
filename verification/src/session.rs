//! A compilation session: the options it was built from, and the two ends
//! of a compile call.

use vstd::prelude::*;
use vstd::string::*;
use crate::circuit::CircuitBuf;
use crate::config::{
    get_meas_mode, get_phase, lemma_phase_name_round_trip, meas_mode_of_name, opt_flag,
    phase_of_name, toggle_encoding, Arch, Config, ConfigError, OptConfig, OptFlags, Phase,
    PhaseConfig,
};
use crate::context::{input_origin, Context, SrcId};
use crate::diag::{rendered_report, ErrorBuf};
use crate::gates::Gate;
use crate::orchestrator::{
    lemma_debug_parse_yields_no_result, outcome_of, run, Event, Pipeline, PipelineState,
};
use crate::transcribe::{circuit_to_gates, defect_of, gates_of, supported, TranscriptionDefect};

verus! {

/// A compilation session. Its configuration is fixed once it is built.
#[derive(Clone, Copy, Debug, PartialEq, Eq)]
pub struct Session {
    conf: Config,
}

impl View for Session {
    type V = Config;

    closed spec fn view(&self) -> Config {
        self.conf
    }
}

/// Why a compile call handed back no gates.
#[derive(Debug, PartialEq, Eq)]
pub enum CompileError {
    /// A phase reported diagnostics; here they are, rendered against the
    /// context of the call.
    Diagnostics(String),
    /// The circuit holds an instruction that has no gate object.
    Defect(TranscriptionDefect),
}

/// The configuration that a set of options resolves to. The measurement
/// mode and the phase name must be of their vocabularies.
pub open spec fn resolved(
    opt_level: u8,
    const_prop: Option<bool>,
    debug: bool,
    qb_count: Option<usize>,
    qram_size: usize,
    meas_mode: Seq<char>,
    feedback: bool,
    recursion: bool,
    phase: Option<Seq<char>>,
) -> Config {
    Config {
        debug,
        arch: Arch {
            qb_count,
            qram_size,
            meas_mode: meas_mode_of_name(meas_mode)->0,
            feedback,
            recursion,
        },
        opt: OptConfig {
            level: opt_level,
            flags: OptFlags { const_prop: toggle_encoding(const_prop) as i8 },
        },
        phase_config: PhaseConfig {
            last_phase: match phase {
                Some(name) => phase_of_name(name)->0,
                None => Phase::CodeGen,
            },
            typecheck: true,
        },
    }
}

/// The name of an optional string, as a sequence of characters.
pub open spec fn name_view(name: Option<&str>) -> Option<Seq<char>> {
    match name {
        Some(s) => Some(s@),
        None => None,
    }
}

impl Session {
    /// Builds a session from its options. A measurement mode outside the
    /// vocabulary is refused, and nothing is built. A phase name must be of
    /// the vocabulary.
    pub fn new(
        opt_level: u8,
        const_prop: Option<bool>,
        debug: bool,
        qb_count: Option<usize>,
        qram_size: usize,
        meas_mode: &str,
        feedback: bool,
        recursion: bool,
        phase: Option<&str>,
    ) -> (r: Result<Session, ConfigError>)
        requires
            phase matches Some(name) ==> phase_of_name(name@) is Some,
        ensures
            r is Ok <==> meas_mode_of_name(meas_mode@) is Some,
            match r {
                Ok(session) => session@ == resolved(
                    opt_level,
                    const_prop,
                    debug,
                    qb_count,
                    qram_size,
                    meas_mode@,
                    feedback,
                    recursion,
                    name_view(phase),
                ),
                Err(e) => e matches ConfigError::MeasMode(given) && given@ == meas_mode@,
            },
    {
        let phase_config = get_phase(phase);
        let meas_mode = match get_meas_mode(meas_mode) {
            Ok(mode) => mode,
            Err(e) => {
                return Err(e);
            },
        };
        let arch = Arch { qb_count, qram_size, meas_mode, feedback, recursion };
        let mut opt_flags = OptFlags::default();
        opt_flags.const_prop = opt_flag(const_prop);
        let opt = OptConfig { level: opt_level, flags: opt_flags };
        let conf = Config { debug, arch, opt, phase_config };
        Ok(Session { conf })
    }

    /// The configuration of the session.
    pub fn conf(&self) -> (r: &Config)
        ensures
            *r == self@,
    {
        &self.conf
    }

    /// Opens a compile call on `src`: a fresh context that holds the source
    /// under the identifier handed back, and a pipeline with nothing run.
    pub fn begin(&self, src: &str) -> (r: (Context, SrcId, Pipeline))
        ensures
            r.0.spec_conf() == self@,
            r.0.spec_srcs().len() == 1,
            r.0.spec_srcs()[0].origin@ == input_origin(),
            r.0.spec_srcs()[0].code@ == src@,
            r.1 == SrcId(0),
            r.2.spec_last_phase() == self@.phase_config.last_phase,
            r.2.spec_debug() == self@.debug,
            r.2.spec_state() == PipelineState::Pending,
    {
        let mut ctx = Context::new(&self.conf);
        let id = ctx.insert_input(src);
        let pipeline = Pipeline::new(&self.conf);
        (ctx, id, pipeline)
    }
}

/// Whether `r` is what a compile call surfaces for the pipeline's result:
/// the gates of a circuit, or the defect that stops its transcription; no
/// result for no result; for diagnostics one error that holds all of them,
/// rendered against the context.
pub open spec fn surfaces_as(
    ctx: Context,
    result: Result<Option<CircuitBuf>, ErrorBuf>,
    r: Result<Option<Vec<Gate>>, CompileError>,
) -> bool {
    match result {
        Ok(Some(circ)) => match r {
            Ok(Some(gates)) => supported(circ@) && gates@ == gates_of(circ@),
            Ok(None) => false,
            Err(CompileError::Defect(d)) => {
                &&& d.index < circ@.len()
                &&& defect_of(circ@[d.index as int]) == Some(d.kind)
                &&& supported(circ@.take(d.index as int))
            },
            Err(CompileError::Diagnostics(_)) => false,
        },
        Ok(None) => r matches Ok(None),
        Err(errors) => r matches Err(CompileError::Diagnostics(text)) && text@ == rendered_report(
            errors@,
            ctx,
        ),
    }
}

/// Closes a compile call on what the pipeline handed back. A circuit is
/// transcribed into gates; no result stays no result; diagnostics are
/// rendered against the context, all of them, into one error.
pub fn surface(ctx: &Context, result: Result<Option<CircuitBuf>, ErrorBuf>) -> (r: Result<
    Option<Vec<Gate>>,
    CompileError,
>)
    ensures
        surfaces_as(*ctx, result, r),
{
    match result {
        Ok(Some(circ)) => match circuit_to_gates(&circ) {
            Ok(gates) => Ok(Some(gates)),
            Err(d) => Err(CompileError::Defect(d)),
        },
        Ok(None) => Ok(None),
        Err(errors) => Err(CompileError::Diagnostics(errors.fmt_with(ctx))),
    }
}

/// A session built with `debug` set and `parse` as its phase compiles a
/// source that tokenizes and parses without diagnostics to no result:
/// neither gates nor an error, whatever the other options are.
pub proof fn lemma_debug_parse_session_compiles_to_no_result(
    opt_level: u8,
    const_prop: Option<bool>,
    qb_count: Option<usize>,
    qram_size: usize,
    meas_mode: Seq<char>,
    feedback: bool,
    recursion: bool,
    ctx: Context,
    tokenized: ErrorBuf,
    parsed: ErrorBuf,
    circuit: CircuitBuf,
    r: Result<Option<Vec<Gate>>, CompileError>,
)
    requires
        tokenized@.len() == 0,
        parsed@.len() == 0,
        ({
            let conf = resolved(
                opt_level,
                const_prop,
                true,
                qb_count,
                qram_size,
                meas_mode,
                feedback,
                recursion,
                Some("parse"@),
            );
            let events = seq![Event::Begin, Event::Done(tokenized), Event::Done(parsed)];
            let end = run(conf.phase_config.last_phase, conf.debug, events);
            surfaces_as(ctx, outcome_of(end, circuit), r)
        }),
    ensures
        r matches Ok(None),
{
    let conf = resolved(
        opt_level,
        const_prop,
        true,
        qb_count,
        qram_size,
        meas_mode,
        feedback,
        recursion,
        Some("parse"@),
    );
    lemma_phase_name_round_trip(Phase::Parse);
    lemma_debug_parse_yields_no_result(conf, tokenized, parsed, circuit);
}

/// A compile call in which a phase reports diagnostics surfaces exactly
/// those, rendered in their order, and no gates.
pub proof fn lemma_failed_phase_surfaces_its_diagnostics(
    ctx: Context,
    errors: ErrorBuf,
    circuit: CircuitBuf,
    r: Result<Option<Vec<Gate>>, CompileError>,
)
    requires
        errors@.len() > 0,
        surfaces_as(ctx, outcome_of(PipelineState::Failed(errors), circuit), r),
    ensures
        r matches Err(CompileError::Diagnostics(text)) && text@ == rendered_report(errors@, ctx),
{
}

} // verus!
