use vstd::prelude::*;

verus! {

/// Execution-context state that says whether an effect body is running.
///
/// It is threaded explicitly through the engine rather than kept in a
/// thread-local, so that every change to it is visible to the verifier.
pub struct EffectScope {
    pub active: bool,
}

impl EffectScope {
    /// A context in which no effect body is running.
    pub fn new() -> (r: Self)
        ensures
            !r.active,
    {
        EffectScope { active: false }
    }

    /// Marks the context as inside an effect body and returns the previous
    /// state, which `restore` puts back.
    pub fn enter(&mut self) -> (saved: bool)
        ensures
            saved == old(self).active,
            final(self).active,
    {
        let saved = self.active;
        self.active = true;
        saved
    }

    /// Puts back a state that `enter` returned.
    pub fn restore(&mut self, saved: bool)
        ensures
            final(self).active == saved,
    {
        self.active = saved;
    }
}

/// Returns whether an effect body is currently running in `scope`.
pub fn in_effect_scope(scope: &EffectScope) -> (r: bool)
    ensures
        r == scope.active,
{
    scope.active
}

/// Runs `fun` with the scope marked as inside an effect body, then restores
/// the previous state rather than clearing it, so that a nested call inside
/// an already active scope leaves it active.
///
/// `fun` is handed the scope as it stands during the call, so that it can ask
/// `in_effect_scope`.
pub fn run_in_effect_scope<T, F: FnOnce(&EffectScope) -> T>(
    scope: &mut EffectScope,
    fun: F,
) -> (r: T)
    requires
        call_requires(fun, (&(EffectScope { active: true }),)),
    ensures
        call_ensures(fun, (&(EffectScope { active: true }),), r),
        final(scope).active == old(scope).active,
{
    let saved = scope.enter();
    let r = fun(&*scope);
    scope.restore(saved);
    r
}

} // verus!
