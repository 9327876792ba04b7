//! Publication of compiled template sets. A new set is built off to the side
//! and handed in whole; it replaces the current one in a single assignment,
//! and a failed build leaves the current one in place.
use vstd::prelude::*;

verus! {

/// How template sets are built, fixed for the lifetime of the process.
#[derive(Clone, Copy, Debug, PartialEq, Eq, Structural)]
pub enum BuildMode {
    /// Built once from an embedded bundle and never rebuilt.
    Static,
    /// Built from a directory and rebuilt whenever it changes.
    Watched,
}

/// A template source that could not be compiled.
#[derive(Debug)]
pub struct BuildError {
    pub template: String,
    pub message: String,
}

/// Why a request could not get a template set.
#[derive(Clone, Copy, Debug, PartialEq, Eq, Structural)]
pub enum ContextError {
    /// The shared state could not be reached (a poisoned lock).
    SharedStateUnavailable,
    /// No set has been published yet: every build so far failed.
    NotBuilt,
}

/// Owner of the currently published template set.
pub struct Reloader<T> {
    mode: BuildMode,
    current: Option<T>,
}

impl<T> Reloader<T> {
    pub closed spec fn mode_spec(&self) -> BuildMode {
        self.mode
    }

    /// The published set, if any.
    pub closed spec fn current_spec(&self) -> Option<T> {
        self.current
    }

    /// Whether a build handed in now would be published.
    pub open spec fn accepts_builds(&self) -> bool {
        self.mode_spec() == BuildMode::Watched || self.current_spec() is None
    }

    /// A reloader with nothing published yet.
    pub fn new(mode: BuildMode) -> (r: Reloader<T>)
        ensures
            r.mode_spec() == mode,
            r.current_spec() is None,
    {
        Reloader { mode, current: None }
    }

    pub fn mode(&self) -> (r: BuildMode)
        ensures
            r == self.mode_spec(),
    {
        self.mode
    }

    /// Whether a set has been published.
    pub fn is_published(&self) -> (r: bool)
        ensures
            r == (self.current_spec() is Some),
    {
        self.current.is_some()
    }

    /// Whether the caller should build a set and hand it to `reload`: always
    /// in watched mode, and in static mode only until one set is published.
    pub fn needs_build(&self) -> (r: bool)
        ensures
            r == self.accepts_builds(),
    {
        match self.mode {
            BuildMode::Watched => true,
            BuildMode::Static => self.current.is_none(),
        }
    }

    /// The published set: the one handed in by the last successful reload.
    pub fn current(&self) -> (r: Option<&T>)
        ensures
            match r {
                Some(s) => self.current_spec() == Some(*s),
                None => self.current_spec() is None,
            },
    {
        match &self.current {
            Some(s) => Some(s),
            None => None,
        }
    }

    /// The published set for a request, or `NotBuilt` while there is none.
    pub fn current_or_error(&self) -> (r: Result<&T, ContextError>)
        ensures
            match r {
                Ok(s) => self.current_spec() == Some(*s),
                Err(e) => self.current_spec() is None && e is NotBuilt,
            },
    {
        match &self.current {
            Some(s) => Ok(s),
            None => Err(ContextError::NotBuilt),
        }
    }

    /// Hands in the result of a build. A built set replaces the published one
    /// when builds are accepted and is dropped otherwise (static mode after its
    /// one build); a failed build changes nothing and its error is returned to
    /// the caller, once.
    pub fn reload(&mut self, built: Result<T, BuildError>) -> (r: Result<(), BuildError>)
        ensures
            final(self).mode_spec() == old(self).mode_spec(),
            match built {
                Ok(s) => {
                    &&& r is Ok
                    &&& final(self).current_spec() == if old(self).accepts_builds() {
                        Some(s)
                    } else {
                        old(self).current_spec()
                    }
                },
                Err(e) => {
                    &&& r == Err::<(), BuildError>(e)
                    &&& final(self).current_spec() == old(self).current_spec()
                },
            },
            final(self).current_spec() == old(self).current_spec() || (built is Ok
                && final(self).current_spec() == Some(built->Ok_0)),
    {
        match built {
            Ok(s) => {
                if self.needs_build() {
                    self.current = Some(s);
                }
                Ok(())
            },
            Err(e) => Err(e),
        }
    }
}

} // verus!
