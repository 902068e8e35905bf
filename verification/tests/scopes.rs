use dill_impl::scope::{Handle, Scope, ScopeKind};

#[test]
fn a_new_scope_is_empty() {
    assert_eq!(Scope::new(ScopeKind::Transient), Scope::Transient);
    assert_eq!(Scope::new(ScopeKind::Singleton), Scope::Singleton(None));
    assert_eq!(Scope::new(ScopeKind::Transient).get(), None);
    assert_eq!(Scope::new(ScopeKind::Singleton).get(), None);
}

#[test]
fn a_scope_knows_its_kind() {
    assert_eq!(Scope::Transient.kind(), ScopeKind::Transient);
    assert_eq!(Scope::Singleton(None).kind(), ScopeKind::Singleton);
    assert_eq!(Scope::Singleton(Some(Handle { index: 3 })).kind(), ScopeKind::Singleton);
}

#[test]
fn a_transient_scope_never_stores() {
    let mut s = Scope::new(ScopeKind::Transient);
    s.set(Handle { index: 0 });
    assert_eq!(s.get(), None);
    s.set(Handle { index: 1 });
    assert_eq!(s.get(), None);
    assert_eq!(s, Scope::Transient);
}

#[test]
fn a_singleton_scope_keeps_the_first_instance() {
    let mut s = Scope::new(ScopeKind::Singleton);
    s.set(Handle { index: 4 });
    assert_eq!(s.get(), Some(Handle { index: 4 }));
}

#[test]
fn a_populated_scope_is_never_replaced() {
    let mut s = Scope::new(ScopeKind::Singleton);
    s.set(Handle { index: 4 });
    s.set(Handle { index: 9 });
    assert_eq!(s.get(), Some(Handle { index: 4 }));
    s.set(Handle { index: 4 });
    assert_eq!(s, Scope::Singleton(Some(Handle { index: 4 })));
}

#[test]
fn handles_are_equal_exactly_if_their_indices_are() {
    assert_eq!(Handle { index: 2 }, Handle { index: 2 });
    assert_ne!(Handle { index: 2 }, Handle { index: 3 });
}
