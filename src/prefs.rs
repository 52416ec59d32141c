//! Logging preferences: the mute flag, the severity threshold and the sink.
use vstd::prelude::*;

use crate::level::{filter_verbosity, level_verbosity, threshold_verbosity, verbosity};

verus! {

/// Preferences that decide whether a message is written, and where.
///
/// The sink is generic: any value that can receive rendered text.
pub struct LogPrefs<W> {
    quiet: bool,
    filter: log::LevelFilter,
    writer: W,
}

/// `v` is a result that `write` may return when called on a sink holding `sink`.
pub open spec fn wrote<W, R, F: FnOnce(&mut W) -> R>(write: F, sink: W, v: R) -> bool {
    exists|w: &mut W| *w == sink && #[trigger] write.ensures((w,), v)
}

impl<W> LogPrefs<W> {
    /// Whether all output is silenced.
    pub closed spec fn is_quiet(&self) -> bool {
        self.quiet
    }

    /// The most verbose level that passes.
    pub closed spec fn threshold(&self) -> log::LevelFilter {
        self.filter
    }

    /// The current sink.
    pub closed spec fn sink(&self) -> W {
        self.writer
    }

    /// A message at `l` passes iff the preferences are not muted and `l` is at
    /// least as severe as the threshold.
    pub open spec fn admits(&self, l: log::Level) -> bool {
        !self.is_quiet() && verbosity(l) <= filter_verbosity(self.threshold())
    }

    /// Preferences writing to `writer`, not muted, passing `Info` and more severe.
    pub fn new(writer: W) -> (r: Self)
        ensures
            !r.is_quiet(),
            r.threshold() == log::LevelFilter::Info,
            r.sink() == writer,
    {
        LogPrefs { quiet: false, filter: log::LevelFilter::Info, writer }
    }

    /// Sets whether all output is silenced, regardless of the threshold.
    pub fn quiet(&mut self, quiet: bool) -> (r: &mut Self)
        ensures
            r.is_quiet() == quiet,
            quiet ==> forall|l: log::Level| !#[trigger] r.admits(l),
            r.threshold() == old(self).threshold(),
            r.sink() == old(self).sink(),
            *final(self) == *final(r),
    {
        self.quiet = quiet;
        self
    }

    /// Sets the threshold: `level` and every more severe level pass.
    pub fn level(&mut self, level: log::Level) -> (r: &mut Self)
        ensures
            r.is_quiet() == old(self).is_quiet(),
            filter_verbosity(r.threshold()) == verbosity(level),
            r.sink() == old(self).sink(),
            forall|l: log::Level| #[trigger] r.admits(l) == (!r.is_quiet() && verbosity(l) <= verbosity(level)),
            *final(self) == *final(r),
    {
        self.filter = level.to_level_filter();
        self
    }

    /// Replaces the sink; every later write goes to `writer`.
    pub fn writer(&mut self, writer: W) -> (r: &mut Self)
        ensures
            r.is_quiet() == old(self).is_quiet(),
            r.threshold() == old(self).threshold(),
            r.sink() == writer,
            *final(self) == *final(r),
    {
        self.writer = writer;
        self
    }

    /// Whether a message at `level` passes.
    pub fn enabled(&self, level: log::Level) -> (r: bool)
        ensures
            r == self.admits(level),
    {
        !self.quiet && level_verbosity(level) <= threshold_verbosity(self.filter)
    }

    /// The sink, for one write.
    pub fn get_writer(&mut self) -> (r: &mut W)
        ensures
            *r == old(self).sink(),
            final(self).is_quiet() == old(self).is_quiet(),
            final(self).threshold() == old(self).threshold(),
            final(self).sink() == *final(r),
    {
        &mut self.writer
    }

    /// Runs `write` on the sink iff a message at `level` passes.
    ///
    /// When the message passes, `write` gets the current sink, its result is
    /// returned and the sink is left as `write` left it. When it does not
    /// pass, `write` is not called at all and nothing changes: what it would
    /// compute is never computed.
    pub fn log_with<R, F: FnOnce(&mut W) -> R>(&mut self, level: log::Level, write: F) -> (r: Option<R>)
        requires
            forall|w: &mut W| #[trigger] write.requires((w,)),
        ensures
            r is Some <==> old(self).admits(level),
            old(self).admits(level) ==> wrote(write, old(self).sink(), r->Some_0),
            old(self).admits(level) ==> exists|w: &mut W|
                *w == old(self).sink() && *final(w) == final(self).sink()
                    && #[trigger] write.ensures((w,), r->Some_0),
            !old(self).admits(level) ==> *final(self) == *old(self),
            final(self).is_quiet() == old(self).is_quiet(),
            final(self).threshold() == old(self).threshold(),
    {
        if self.enabled(level) {
            let w = self.get_writer();
            let v = write(w);
            assert(wrote(write, old(self).sink(), v));
            assert(self.sink() == final(self).sink());
            Some(v)
        } else {
            None
        }
    }
}

/// Muting the preferences stops every level, whatever the threshold.
pub proof fn lemma_quiet_mutes_every_level<W>(p: LogPrefs<W>)
    requires
        p.is_quiet(),
    ensures
        forall|l: log::Level| !#[trigger] p.admits(l),
{
}

/// With the threshold set to `t`, the levels that pass are exactly those at
/// least as severe as `t` (unless muted); a less severe level never passes.
pub proof fn lemma_threshold_sets_passing_levels<W>(p: LogPrefs<W>, t: log::Level)
    requires
        filter_verbosity(p.threshold()) == verbosity(t),
    ensures
        forall|l: log::Level| #[trigger] p.admits(l) <==> (!p.is_quiet() && verbosity(l) <= verbosity(t)),
        forall|l: log::Level| verbosity(t) < verbosity(l) ==> !#[trigger] p.admits(l),
{
}

} // verus!
