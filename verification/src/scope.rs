use vstd::prelude::*;

verus! {

/// Names one constructed instance. Two handles refer to the same instance
/// exactly if they are equal.
#[derive(Clone, Copy, Debug, PartialEq, Eq, Structural)]
pub struct Handle {
    pub index: usize,
}

impl View for Handle {
    type V = int;

    open spec fn view(&self) -> int {
        self.index as int
    }
}

/// The two lifecycle policies.
#[derive(Clone, Copy, Debug, PartialEq, Eq, Structural)]
pub enum ScopeKind {
    /// A fresh instance on every resolution.
    Transient,
    /// One instance, made on the first successful resolution and shared
    /// from then on.
    Singleton,
}

/// The cache of one builder.
///
/// A transient scope is always empty. A singleton scope starts empty and
/// is populated at most once.
#[derive(Clone, Copy, Debug, PartialEq, Eq)]
pub enum Scope {
    Transient,
    Singleton(Option<Handle>),
}

/// The mathematical content of a [`Scope`].
pub enum ScopeView {
    Transient,
    Singleton(Option<int>),
}

impl ScopeView {
    /// The instance that the scope holds, if any.
    pub open spec fn cached(self) -> Option<int> {
        match self {
            ScopeView::Transient => None,
            ScopeView::Singleton(slot) => slot,
        }
    }

    /// The scope after it was offered the instance `h`: an empty singleton
    /// keeps it, every other scope stays as it is.
    pub open spec fn offer(self, h: int) -> ScopeView {
        match self {
            ScopeView::Singleton(None) => ScopeView::Singleton(Some(h)),
            _ => self,
        }
    }

    pub open spec fn kind(self) -> ScopeKind {
        match self {
            ScopeView::Transient => ScopeKind::Transient,
            ScopeView::Singleton(_) => ScopeKind::Singleton,
        }
    }

    /// The empty scope of a kind.
    pub open spec fn empty(kind: ScopeKind) -> ScopeView {
        match kind {
            ScopeKind::Transient => ScopeView::Transient,
            ScopeKind::Singleton => ScopeView::Singleton(None),
        }
    }
}

impl View for Scope {
    type V = ScopeView;

    open spec fn view(&self) -> ScopeView {
        match *self {
            Scope::Transient => ScopeView::Transient,
            Scope::Singleton(None) => ScopeView::Singleton(None),
            Scope::Singleton(Some(h)) => ScopeView::Singleton(Some(h@)),
        }
    }
}

impl Scope {
    /// An empty scope of the given kind.
    pub fn new(kind: ScopeKind) -> (r: Scope)
        ensures
            r@ == ScopeView::empty(kind),
    {
        match kind {
            ScopeKind::Transient => Scope::Transient,
            ScopeKind::Singleton => Scope::Singleton(None),
        }
    }

    pub fn kind(&self) -> (r: ScopeKind)
        ensures
            r == self@.kind(),
    {
        match self {
            Scope::Transient => ScopeKind::Transient,
            Scope::Singleton(_) => ScopeKind::Singleton,
        }
    }

    /// The cached instance, if there is one.
    pub fn get(&self) -> (r: Option<Handle>)
        ensures
            match r {
                Some(h) => self@.cached() == Some(h@),
                None => self@.cached() is None,
            },
    {
        match self {
            Scope::Transient => None,
            Scope::Singleton(slot) => *slot,
        }
    }

    /// Offers a newly built instance to the scope. Only an empty singleton
    /// scope keeps it: a populated scope never replaces what it holds, and
    /// a transient scope never stores anything.
    pub fn set(&mut self, inst: Handle)
        ensures
            final(self)@ == old(self)@.offer(inst@),
    {
        match self {
            Scope::Singleton(None) => {
                *self = Scope::Singleton(Some(inst));
            },
            _ => {},
        }
    }
}

/// A populated scope is never replaced, whatever it is offered.
pub proof fn law_populated_scope_is_final(s: ScopeView, h: int)
    requires
        s.cached() is Some,
    ensures
        s.offer(h) == s,
{
}

/// A transient scope reports no cached instance, before and after any
/// offer.
pub proof fn law_transient_scope_stays_empty(s: ScopeView, h: int)
    requires
        s.kind() == ScopeKind::Transient,
    ensures
        s.cached() is None,
        s.offer(h).cached() is None,
{
}

/// Of two instances offered in turn to an empty singleton scope, the first
/// is the one it holds from then on.
pub proof fn law_first_offer_wins(a: int, b: int)
    ensures
        ScopeView::Singleton(None).offer(a).offer(b).cached() == Some(a),
{
}

} // verus!
