//! The slot that holds the active runtime of an execution context.
//!
//! A slot is set at most once for good ([`RegistrySlot::set`]), or filled for
//! the length of one scope and cleared again on its way out
//! ([`RegistrySlot::enter`] and [`RegistrySlot::exit`], or
//! [`RegistrySlot::enter_scoped`]). The two disciplines are never mixed on
//! one slot: a scope can only be entered on an empty slot and only a scoped
//! fill can be cleared.
use vstd::prelude::*;

verus! {

/// The mathematical state of a [`RegistrySlot`].
pub struct RegistryView<R> {
    /// The runtime held, if any.
    pub held: Option<R>,
    /// Whether the runtime was put there for one scope only.
    pub scoped: bool,
}

/// The empty slot.
pub open spec fn unset_view<R>() -> RegistryView<R> {
    RegistryView { held: None, scoped: false }
}

/// The slot after `r` was set for good.
pub open spec fn set_view<R>(r: R) -> RegistryView<R> {
    RegistryView { held: Some(r), scoped: false }
}

/// The slot inside a scope entered with `r`.
pub open spec fn scoped_view<R>(r: R) -> RegistryView<R> {
    RegistryView { held: Some(r), scoped: true }
}

/// Whether a runtime may be installed, for good or for a scope.
pub open spec fn may_set<R>(v: RegistryView<R>) -> bool {
    v.held is None
}

/// Whether a scope may be left.
pub open spec fn may_exit<R>(v: RegistryView<R>) -> bool {
    v.held is Some && v.scoped
}

/// Holds either nothing or the active runtime.
pub struct RegistrySlot<R> {
    held: Option<R>,
    scoped: bool,
}

impl<R> View for RegistrySlot<R> {
    type V = RegistryView<R>;

    closed spec fn view(&self) -> RegistryView<R> {
        RegistryView { held: self.held, scoped: self.scoped }
    }
}

impl<R> RegistrySlot<R> {
    /// An empty slot.
    pub fn new() -> (r: Self)
        ensures
            r@ == unset_view::<R>(),
    {
        RegistrySlot { held: None, scoped: false }
    }

    /// Whether a runtime is held.
    pub fn is_set(&self) -> (r: bool)
        ensures
            r == self@.held is Some,
    {
        self.held.is_some()
    }

    /// Whether the runtime held was put there for one scope only.
    pub fn is_scoped(&self) -> (r: bool)
        ensures
            r == self@.scoped,
    {
        self.scoped
    }

    /// Install `r` for good. Setting a slot that is already set is a usage
    /// error, which callers must rule out.
    pub fn set(&mut self, r: R)
        requires
            may_set(old(self)@),
        ensures
            final(self)@ == set_view(r),
    {
        self.held = Some(r);
        self.scoped = false;
    }

    /// The runtime held. Asking an empty slot is a usage error, which callers
    /// must rule out.
    pub fn current(&self) -> (r: &R)
        requires
            self@.held is Some,
        ensures
            *r == self@.held->Some_0,
    {
        self.held.as_ref().unwrap()
    }

    /// Install `r` for one scope, on an empty slot.
    pub fn enter(&mut self, r: R)
        requires
            may_set(old(self)@),
        ensures
            final(self)@ == scoped_view(r),
    {
        self.held = Some(r);
        self.scoped = true;
    }

    /// Leave the scope: the slot is empty again, and the runtime that was
    /// installed for the scope is handed back.
    pub fn exit(&mut self) -> (r: R)
        requires
            may_exit(old(self)@),
        ensures
            r == old(self)@.held->Some_0,
            final(self)@ == unset_view::<R>(),
    {
        self.scoped = false;
        self.held.take().unwrap()
    }

    /// Install `r` on an empty slot, run `body` with the slot, and leave the
    /// slot empty again, whatever `body` returns.
    pub fn enter_scoped<T, F: FnOnce(&RegistrySlot<R>) -> T>(&mut self, r: R, body: F) -> (res: (
        T,
        R,
    ))
        requires
            may_set(old(self)@),
            forall|s: &RegistrySlot<R>| s@ == scoped_view(r) ==> body.requires((s,)),
        ensures
            final(self)@ == unset_view::<R>(),
            res.1 == r,
            exists|s: &RegistrySlot<R>| s@ == scoped_view(r) && body.ensures((s,), res.0),
    {
        self.enter(r);
        let out = body(&*self);
        let back = self.exit();
        (out, back)
    }
}

/// Setting a slot that was set for good is a usage error: it meets the
/// precondition neither of a second set nor of entering or leaving a scope.
/// Entering a scope on an empty slot allows leaving it, and leaving restores
/// the empty slot, on which a runtime may be installed again.
pub proof fn lemma_registry_disciplines<R>(r1: R, r2: R)
    ensures
        may_set(unset_view::<R>()),
        !may_set(set_view(r1)),
        !may_exit(set_view(r1)),
        may_exit(scoped_view(r2)),
        !may_set(scoped_view(r2)),
{
}

} // verus!
