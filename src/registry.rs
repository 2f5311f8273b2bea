use vstd::prelude::*;

use crate::policy::{evaluate, first_error, GuardError};
use crate::query::QueryTree;

verus! {

/// The guard's process-wide state: whether checks are enabled, and the
/// interposer that was registered at the extension point before the
/// guard installed its own.
///
/// `H` is the host's interposer type. While the guard is not installed it
/// holds no previous interposer.
pub struct Registry<H> {
    enabled: bool,
    installed: bool,
    previous: Option<H>,
}

impl<H: Copy> Registry<H> {
    pub closed spec fn enabled(&self) -> bool {
        self.enabled
    }

    pub closed spec fn installed(&self) -> bool {
        self.installed
    }

    /// The interposer that the guard hands each accepted statement on to.
    pub closed spec fn previous(&self) -> Option<H> {
        self.previous
    }

    pub closed spec fn wf(&self) -> bool {
        !self.installed ==> self.previous is None
    }

    /// The same state with the enabled flag set to `on`.
    pub closed spec fn with_enabled(self, on: bool) -> Self {
        Registry { enabled: on, ..self }
    }

    /// What the guard decides for one analyzed statement: `Ok(next)` lets
    /// the statement through and `next` is the interposer to call with the
    /// same arguments; `Err(e)` refuses it, and nothing is called.
    pub open spec fn spec_decide(&self, query: Option<&QueryTree>) -> Result<Option<H>, GuardError> {
        if self.enabled() && query is Some {
            match first_error(*query->0) {
                Some(e) => Err(e),
                None => Ok(self.previous()),
            }
        } else {
            Ok(self.previous())
        }
    }

    /// A guard that is enabled and not installed.
    pub fn new() -> (r: Self)
        ensures
            r.wf(),
            r.enabled(),
            !r.installed(),
            r.previous() is None,
    {
        Registry { enabled: true, installed: false, previous: None }
    }

    pub fn is_enabled(&self) -> (r: bool)
        ensures
            r == self.enabled(),
    {
        self.enabled
    }

    pub fn is_installed(&self) -> (r: bool)
        ensures
            r == self.installed(),
    {
        self.installed
    }

    /// Sets the enabled flag; nothing else changes.
    pub fn set_enabled(&mut self, on: bool)
        ensures
            *final(self) == old(self).with_enabled(on),
            final(self).enabled() == on,
            final(self).installed() == old(self).installed(),
            final(self).previous() == old(self).previous(),
            old(self).wf() ==> final(self).wf(),
    {
        self.enabled = on;
    }

    /// Installs `ours` at the extension point `hook`, keeping what was
    /// there as the previous interposer. Returns false, changing nothing,
    /// when the guard is installed already.
    pub fn install(&mut self, hook: &mut Option<H>, ours: H) -> (r: bool)
        requires
            old(self).wf(),
        ensures
            r == !old(self).installed(),
            final(self).wf(),
            final(self).installed(),
            final(self).enabled() == old(self).enabled(),
            r ==> final(self).previous() == *old(hook) && *final(hook) == Some(ours),
            !r ==> *final(self) == *old(self) && *final(hook) == *old(hook),
    {
        if self.installed {
            return false;
        }
        self.previous = hook.take();
        *hook = Some(ours);
        self.installed = true;
        true
    }

    /// Puts the previous interposer back at the extension point `hook`.
    /// Does nothing when the guard is not installed.
    pub fn uninstall(&mut self, hook: &mut Option<H>)
        requires
            old(self).wf(),
        ensures
            final(self).wf(),
            !final(self).installed(),
            final(self).enabled() == old(self).enabled(),
            old(self).installed() ==> *final(hook) == old(self).previous(),
            !old(self).installed() ==> *final(hook) == *old(hook) && *final(self) == *old(self),
    {
        if self.installed {
            *hook = self.previous.take();
            self.installed = false;
        }
    }

    /// Decides what becomes of one analyzed statement. When the guard is
    /// disabled or no statement is given, nothing is checked. Otherwise the
    /// statement is evaluated; on an error it is refused, and the previous
    /// interposer is not to be called.
    pub fn on_query_analyzed(&self, query: Option<&QueryTree>) -> (r: Result<Option<H>, GuardError>)
        ensures
            r == self.spec_decide(query),
    {
        if self.enabled {
            if let Some(q) = query {
                if let Err(e) = evaluate(q) {
                    return Err(e);
                }
            }
        }
        Ok(self.previous)
    }
}

/// How many times the previous interposer is called after a decision.
pub open spec fn chained_calls<H>(r: Result<Option<H>, GuardError>) -> nat {
    match r {
        Ok(Some(_)) => 1,
        _ => 0,
    }
}

/// While the guard is disabled every statement goes through to the
/// previous interposer, and enabling it again brings back the decisions it
/// made before, on the same statements.
pub proof fn lemma_toggle_enabled<H: Copy>(g: Registry<H>, query: Option<&QueryTree>)
    requires
        g.enabled(),
    ensures
        g.with_enabled(false).spec_decide(query) == Ok::<Option<H>, GuardError>(g.previous()),
        g.with_enabled(false).with_enabled(true) == g,
        g.with_enabled(false).with_enabled(true).spec_decide(query) == g.spec_decide(query),
{
}

/// A statement that is let through is handed on to the previous
/// interposer, if there is one, exactly once; a refused one is handed on
/// to nothing. Refusal happens exactly when the guard is enabled and the
/// statement's evaluation finds an error.
pub proof fn lemma_chaining<H: Copy>(g: Registry<H>, query: Option<&QueryTree>)
    ensures
        g.spec_decide(query) is Err <==> (g.enabled() && query is Some && first_error(
            *query->0,
        ) is Some),
        g.spec_decide(query) is Ok ==> g.spec_decide(query) == Ok::<Option<H>, GuardError>(
            g.previous(),
        ),
        g.spec_decide(query) is Ok && g.previous() is Some ==> chained_calls(g.spec_decide(query))
            == 1,
        g.spec_decide(query) is Err ==> chained_calls(g.spec_decide(query)) == 0,
{
}

} // verus!
