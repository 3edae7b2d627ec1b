//! The context of one compile call: the session's configuration and the
//! sources that the call has taken in.

use vstd::prelude::*;
use vstd::string::*;
use crate::config::{Config, Phase};

verus! {

/// Names a source held by a context.
#[derive(Clone, Copy, Debug, PartialEq, Eq, Structural)]
pub struct SrcId(pub usize);

/// A source text and where it came from.
#[derive(Debug, PartialEq, Eq)]
pub struct Source {
    pub origin: String,
    pub code: String,
}

/// The state that one compile call works in.
#[derive(Debug, PartialEq, Eq)]
pub struct Context {
    conf: Config,
    srcs: Vec<Source>,
}

/// The origin under which text handed over directly is filed.
pub open spec fn input_origin() -> Seq<char> {
    "<input>"@
}

/// The origin shown for a source that the context does not hold.
pub open spec fn unknown_origin() -> Seq<char> {
    "<unknown>"@
}

impl Context {
    /// The configuration that the call runs under.
    pub closed spec fn spec_conf(self) -> Config {
        self.conf
    }

    /// The sources taken in so far, in the order of their identifiers.
    pub closed spec fn spec_srcs(self) -> Seq<Source> {
        self.srcs@
    }

    /// The origin of a source, as a diagnostic shows it.
    pub open spec fn origin_of(self, id: SrcId) -> Seq<char> {
        if id.0 < self.spec_srcs().len() {
            self.spec_srcs()[id.0 as int].origin@
        } else {
            unknown_origin()
        }
    }

    /// A fresh context under `conf`, holding no source.
    pub fn new(conf: &Config) -> (r: Self)
        ensures
            r.spec_conf() == *conf,
            r.spec_srcs() == Seq::<Source>::empty(),
    {
        Context { conf: *conf, srcs: Vec::new() }
    }

    /// Takes in a text handed over directly, and names it.
    pub fn insert_input(&mut self, src: &str) -> (id: SrcId)
        ensures
            id.0 == old(self).spec_srcs().len(),
            final(self).spec_conf() == old(self).spec_conf(),
            final(self).spec_srcs().len() == old(self).spec_srcs().len() + 1,
            final(self).spec_srcs().drop_last() == old(self).spec_srcs(),
            final(self).spec_srcs().last().origin@ == input_origin(),
            final(self).spec_srcs().last().code@ == src@,
    {
        let id = SrcId(self.srcs.len());
        self.srcs.push(Source { origin: String::from_str("<input>"), code: String::from_str(src) });
        id
    }

    /// The configuration that the call runs under.
    pub fn conf(&self) -> (r: &Config)
        ensures
            *r == self.spec_conf(),
    {
        &self.conf
    }

    /// The stage after which the pipeline stops.
    pub fn last_phase(&self) -> (r: Phase)
        ensures
            r == self.spec_conf().phase_config.last_phase,
    {
        self.conf.phase_config.last_phase
    }

    /// The number of sources held.
    pub fn src_count(&self) -> (r: usize)
        ensures
            r == self.spec_srcs().len(),
    {
        self.srcs.len()
    }

    /// The text of a source, if the context holds it.
    pub fn code(&self, id: SrcId) -> (r: Option<&str>)
        ensures
            match r {
                Some(text) => id.0 < self.spec_srcs().len() && text@ == self.spec_srcs()[id.0 as int].code@,
                None => id.0 >= self.spec_srcs().len(),
            },
    {
        if id.0 < self.srcs.len() {
            Some(self.srcs[id.0].code.as_str())
        } else {
            None
        }
    }

    /// The origin of a source, as a diagnostic shows it.
    pub fn origin(&self, id: SrcId) -> (r: &str)
        ensures
            r@ == self.origin_of(id),
    {
        if id.0 < self.srcs.len() {
            self.srcs[id.0].origin.as_str()
        } else {
            "<unknown>"
        }
    }
}

} // verus!
