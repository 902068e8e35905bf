use vstd::prelude::*;
use crate::arg::{ArgView, OverrideView, ProviderView};
use crate::builder::BuilderView;
use crate::error::ErrorView;
use crate::instance::{FieldView, InstanceView, ValueView};
use crate::model::{
    candidates, candidates_among, commit, effective, fetch, free, get, idle, in_progress,
    lemma_free_update, prepare, produce, provide, resolve, select, CatalogView,
};
use crate::scope::ScopeKind;

verus! {

/// Whether builder `i` is registered for `ty`.
pub open spec fn registered(builders: Seq<BuilderView>, i: int, ty: Seq<char>) -> bool {
    0 <= i < builders.len() && builders[i].ty == ty
}

/// The candidates among the first `n` builders are exactly the builders
/// registered for `ty` there, each once, in registration order.
pub proof fn lemma_candidates_among(builders: Seq<BuilderView>, ty: Seq<char>, n: int)
    requires
        0 <= n <= builders.len(),
    ensures
        forall|m: int|
            0 <= m < candidates_among(builders, ty, n).len() ==> 0 <= (#[trigger] candidates_among(
                builders,
                ty,
                n,
            )[m]) < n && builders[candidates_among(builders, ty, n)[m]].ty == ty,
        forall|m: int, l: int|
            0 <= m < l < candidates_among(builders, ty, n).len() ==> (#[trigger] candidates_among(
                builders,
                ty,
                n,
            )[m]) < (#[trigger] candidates_among(builders, ty, n)[l]),
        forall|i: int|
            0 <= i < n && (#[trigger] builders[i]).ty == ty ==> candidates_among(
                builders,
                ty,
                n,
            ).contains(i),
    decreases n,
{
    if n > 0 {
        lemma_candidates_among(builders, ty, n - 1);
        let before = candidates_among(builders, ty, n - 1);
        let now = candidates_among(builders, ty, n);
        if builders[n - 1].ty == ty {
            assert(now == before.push(n - 1));
            assert(now[before.len() as int] == n - 1);
            assert forall|i: int| 0 <= i < n && (#[trigger] builders[i]).ty == ty implies now.contains(
                i,
            ) by {
                if i < n - 1 {
                    let m = choose|m: int| 0 <= m < before.len() && before[m] == i;
                    assert(now[m] == i);
                } else {
                    assert(now[before.len() as int] == i);
                }
            }
        } else {
            assert(now == before);
        }
    }
}

/// The candidates for `ty` are exactly the builders registered for it,
/// each once, in registration order.
pub proof fn lemma_candidates(builders: Seq<BuilderView>, ty: Seq<char>)
    ensures
        forall|m: int|
            0 <= m < candidates(builders, ty).len() ==> registered(
                builders,
                #[trigger] candidates(builders, ty)[m],
                ty,
            ),
        forall|m: int, l: int|
            0 <= m < l < candidates(builders, ty).len() ==> (#[trigger] candidates(builders, ty)[m])
                < (#[trigger] candidates(builders, ty)[l]),
        forall|i: int|
            registered(builders, i, ty) ==> #[trigger] candidates(builders, ty).contains(i),
{
    lemma_candidates_among(builders, ty, builders.len() as int);
    assert forall|i: int| registered(builders, i, ty) implies #[trigger] candidates(
        builders,
        ty,
    ).contains(i) by {
        assert(builders[i].ty == ty);
    }
}

/// The candidates for a type depend on nothing but the types that the
/// builders are registered for.
pub proof fn lemma_candidates_by_type(
    a: Seq<BuilderView>,
    b: Seq<BuilderView>,
    ty: Seq<char>,
    n: int,
)
    requires
        a.len() == b.len(),
        forall|i: int| 0 <= i < a.len() ==> (#[trigger] a[i]).ty == b[i].ty,
    ensures
        candidates_among(a, ty, n) == candidates_among(b, ty, n),
    decreases n,
{
    if n > 0 {
        lemma_candidates_by_type(a, b, ty, n - 1);
        if n <= a.len() {
            assert(a[n - 1].ty == b[n - 1].ty);
        }
    }
}

/// A request for a type that no builder is registered for is answered
/// with `NotFound`, and the catalog stays as it is.
pub proof fn law_unregistered_type_is_not_found(c: CatalogView, ty: Seq<char>)
    requires
        forall|i: int| 0 <= i < c.builders.len() ==> (#[trigger] c.builders[i]).ty != ty,
    ensures
        get(c, ty) == (c, Err::<int, ErrorView>(ErrorView::NotFound(ty))),
{
    lemma_candidates(c.builders, ty);
    let found = candidates(c.builders, ty);
    if found.len() > 0 {
        assert(registered(c.builders, found[0], ty));
    }
}

/// A request for a type that exactly one builder is registered for goes to
/// that builder.
pub proof fn law_single_builder_is_selected(builders: Seq<BuilderView>, ty: Seq<char>, i: int)
    requires
        registered(builders, i, ty),
        forall|j: int| registered(builders, j, ty) ==> j == i,
    ensures
        select(builders, ty) == Ok::<int, ErrorView>(i),
{
    lemma_candidates(builders, ty);
    let found = candidates(builders, ty);
    assert(found.contains(i));
    if found.len() > 1 {
        assert(registered(builders, found[0], ty));
        assert(registered(builders, found[1], ty));
        assert(found[0] < found[1]);
    }
    assert(registered(builders, found[0], ty));
}

/// A request for a type that two builders are registered for is answered
/// with `Ambiguous`, and the catalog stays as it is. The error names every
/// builder registered for the type, the two among them, in registration
/// order.
pub proof fn law_two_builders_are_ambiguous(c: CatalogView, ty: Seq<char>, i: int, j: int)
    requires
        registered(c.builders, i, ty),
        registered(c.builders, j, ty),
        i != j,
    ensures
        get(c, ty).0 == c,
        get(c, ty).1 matches Err(ErrorView::Ambiguous(names)) && {
            let found = candidates(c.builders, ty);
            &&& names.len() == found.len()
            &&& names.len() >= 2
            &&& found.contains(i)
            &&& found.contains(j)
            &&& forall|m: int| 0 <= m < names.len() ==> #[trigger] names[m] == c.builders[found[m]].ty
        },
{
    lemma_candidates(c.builders, ty);
    let found = candidates(c.builders, ty);
    assert(found.contains(i));
    assert(found.contains(j));
    let mi = choose|m: int| 0 <= m < found.len() && found[m] == i;
    let mj = choose|m: int| 0 <= m < found.len() && found[m] == j;
    assert(mi != mj);
}

/// Whether the catalog `c1` can have come out of `c0` by resolutions made
/// while the builders marked in `busy` were in progress.
///
/// The registry is frozen: the builders, the types they are registered
/// for, their arguments and the kinds of their scopes are those of `c0`. A
/// scope that was populated holds what it held, and the scope of a builder
/// in progress is untouched. The instances of `c0` are still there under
/// their handles.
pub open spec fn extends(c0: CatalogView, c1: CatalogView, busy: Seq<bool>) -> bool {
    &&& c1.builders.len() == c0.builders.len()
    &&& forall|i: int|
        0 <= i < c0.builders.len() ==> {
            &&& (#[trigger] c1.builders[i]).ty == c0.builders[i].ty
            &&& c1.builders[i].args == c0.builders[i].args
            &&& c1.builders[i].scope.kind() == c0.builders[i].scope.kind()
            &&& (c0.builders[i].scope.cached() is Some || in_progress(busy, i))
                ==> c1.builders[i].scope == c0.builders[i].scope
        }
    &&& c0.instances.len() <= c1.instances.len()
    &&& forall|h: int|
        0 <= h < c0.instances.len() ==> #[trigger] c1.instances[h] == c0.instances[h]
}

/// Whether every populated scope holds an instance of its builder's type.
pub open spec fn consistent(c: CatalogView) -> bool {
    forall|i: int|
        0 <= i < c.builders.len() ==> ((#[trigger] c.builders[i]).scope.cached() matches Some(h)
            ==> 0 <= h < c.instances.len() && c.instances[h].ty == c.builders[i].ty)
}

/// Whether `r` is a downcast failure.
pub open spec fn is_downcast_failure<T>(r: Result<T, ErrorView>) -> bool {
    r matches Err(ErrorView::DowncastFailure(_))
}

/// Whether `r`, where it is a handle, names an instance of type `ty` in
/// `c`.
pub open spec fn names_instance(c: CatalogView, r: Result<int, ErrorView>, ty: Seq<char>) -> bool {
    r matches Ok(h) ==> 0 <= h < c.instances.len() && c.instances[h].ty == ty
}

/// Whether the outcome `o` is one that a catalog in state `c` may come to
/// while `busy` is in progress: the catalog extends `c`, and a consistent
/// catalog stays consistent and fails no downcast.
pub open spec fn lawful<T>(c: CatalogView, o: (CatalogView, Result<T, ErrorView>), busy: Seq<bool>) -> bool {
    &&& extends(c, o.0, busy)
    &&& consistent(c) ==> consistent(o.0) && !is_downcast_failure(o.1)
}

proof fn lemma_extends_transitive(
    c0: CatalogView,
    c1: CatalogView,
    c2: CatalogView,
    busy: Seq<bool>,
)
    requires
        extends(c0, c1, busy),
        extends(c1, c2, busy),
    ensures
        extends(c0, c2, busy),
{
    assert forall|i: int| 0 <= i < c0.builders.len() implies {
        &&& (#[trigger] c2.builders[i]).ty == c0.builders[i].ty
        &&& c2.builders[i].args == c0.builders[i].args
        &&& c2.builders[i].scope.kind() == c0.builders[i].scope.kind()
        &&& (c0.builders[i].scope.cached() is Some || in_progress(busy, i))
            ==> c2.builders[i].scope == c0.builders[i].scope
    } by {
        assert(c1.builders[i].ty == c0.builders[i].ty);
    }
    assert forall|h: int| 0 <= h < c0.instances.len() implies #[trigger] c2.instances[h]
        == c0.instances[h] by {
        assert(c1.instances[h] == c0.instances[h]);
    }
}

/// What holds of every resolution while `busy` is in progress.
proof fn lemma_resolve(c: CatalogView, ty: Seq<char>, busy: Seq<bool>)
    ensures
        lawful(c, resolve(c, ty, busy), busy),
        names_instance(resolve(c, ty, busy).0, resolve(c, ty, busy).1, ty),
    decreases free(busy), 1nat, 0nat,
{
    lemma_candidates(c.builders, ty);
    match select(c.builders, ty) {
        Err(e) => {},
        Ok(i) => {
            assert(registered(c.builders, candidates(c.builders, ty)[0], ty));
            lemma_produce(c, i, busy);
        },
    }
}

/// What holds of every production: beyond what holds of a resolution, a
/// failure leaves the builder's scope alone, and a new instance has a new
/// handle and is offered to the scope as it was before.
proof fn lemma_produce(c: CatalogView, i: int, busy: Seq<bool>)
    requires
        0 <= i < c.builders.len(),
    ensures
        lawful(c, produce(c, i, busy), busy),
        names_instance(produce(c, i, busy).0, produce(c, i, busy).1, c.builders[i].ty),
        produce(c, i, busy).1 is Err ==> produce(c, i, busy).0.builders[i].scope
            == c.builders[i].scope,
        c.builders[i].scope.cached() is None ==> (produce(c, i, busy).1 matches Ok(h) ==> {
            &&& h >= c.instances.len()
            &&& produce(c, i, busy).0.instances.len() == h + 1
            &&& produce(c, i, busy).0.builders[i].scope == c.builders[i].scope.offer(h)
        }),
    decreases free(busy), 0nat, 0nat,
{
    let b = c.builders[i];
    if b.scope.cached() is None && !in_progress(busy, i) {
        let marked = busy.update(i, true);
        lemma_free_update(busy, i);
        lemma_prepare(c, b.args, 0, marked, Seq::empty());
        let prepared = prepare(c, b.args, 0, marked, Seq::empty());
        let c1 = prepared.0;
        assert(extends(c, c1, busy)) by {
            assert forall|j: int| 0 <= j < c.builders.len() implies {
                &&& (#[trigger] c1.builders[j]).ty == c.builders[j].ty
                &&& c1.builders[j].args == c.builders[j].args
                &&& c1.builders[j].scope.kind() == c.builders[j].scope.kind()
                &&& (c.builders[j].scope.cached() is Some || in_progress(busy, j))
                    ==> c1.builders[j].scope == c.builders[j].scope
            } by {
                assert(in_progress(busy, j) ==> in_progress(marked, j));
            }
        }
        assert(in_progress(marked, i));
        assert(c1.builders[i].scope == b.scope);
        match prepared.1 {
            Err(e) => {},
            Ok(fields) => {
                let made = InstanceView { ty: b.ty, fields };
                let c2 = commit(c1, i, made);
                let h = c1.instances.len() as int;
                assert(c2.builders[i].scope == b.scope.offer(h));
                assert(extends(c, c2, busy)) by {
                    assert forall|j: int| 0 <= j < c.builders.len() implies {
                        &&& (#[trigger] c2.builders[j]).ty == c.builders[j].ty
                        &&& c2.builders[j].args == c.builders[j].args
                        &&& c2.builders[j].scope.kind() == c.builders[j].scope.kind()
                        &&& (c.builders[j].scope.cached() is Some || in_progress(busy, j))
                            ==> c2.builders[j].scope == c.builders[j].scope
                    } by {
                        assert(c1.builders[j].ty == c.builders[j].ty);
                    }
                    assert forall|g: int| 0 <= g < c.instances.len() implies #[trigger] c2.instances[g]
                        == c.instances[g] by {
                        assert(c1.instances[g] == c.instances[g]);
                    }
                }
                if consistent(c) {
                    assert forall|j: int| 0 <= j < c2.builders.len() implies ((
                    #[trigger] c2.builders[j]).scope.cached() matches Some(g) ==> 0 <= g
                        < c2.instances.len() && c2.instances[g].ty == c2.builders[j].ty) by {
                        assert(c1.builders[j].ty == c.builders[j].ty);
                    }
                }
            },
        }
    }
}

/// What holds of every preparation of arguments.
proof fn lemma_prepare(
    c: CatalogView,
    args: Seq<ArgView>,
    k: int,
    busy: Seq<bool>,
    acc: Seq<FieldView>,
)
    ensures
        lawful(c, prepare(c, args, k, busy, acc), busy),
    decreases free(busy), 3nat, args.len() - k,
{
    if 0 <= k < args.len() {
        lemma_provide(c, args[k], busy);
        let provided = provide(c, args[k], busy);
        match provided.1 {
            Err(e) => {},
            Ok(v) => {
                let next = acc.push(FieldView { name: args[k].name, value: v });
                lemma_prepare(provided.0, args, k + 1, busy, next);
                lemma_extends_transitive(
                    c,
                    provided.0,
                    prepare(provided.0, args, k + 1, busy, next).0,
                    busy,
                );
            },
        }
    }
}

/// What holds of every single argument.
proof fn lemma_provide(c: CatalogView, arg: ArgView, busy: Seq<bool>)
    ensures
        lawful(c, provide(c, arg, busy), busy),
    decreases free(busy), 2nat, 0nat,
{
    match effective(arg) {
        Some(OverrideView::Value(v)) => {},
        Some(OverrideView::Function(ProviderView::Failure(cause))) => {},
        Some(OverrideView::Function(ProviderView::Lookup(ty))) => {
            lemma_resolve(c, ty, busy);
        },
        None => {
            lemma_resolve(c, arg.target, busy);
        },
    }
}

/// Every resolution leaves the registry frozen, keeps what populated
/// scopes hold and what instances exist, and, where it succeeds, returns a
/// handle to an instance of the type asked for. A catalog in which every
/// populated scope holds an instance of its builder's type stays so and
/// never fails a downcast.
pub proof fn law_resolution(c: CatalogView, ty: Seq<char>)
    ensures
        extends(c, get(c, ty).0, idle(c)),
        names_instance(get(c, ty).0, get(c, ty).1, ty),
        consistent(c) ==> consistent(get(c, ty).0) && !is_downcast_failure(get(c, ty).1),
{
    lemma_resolve(c, ty, idle(c));
}

/// A catalog fresh from its assembly, with every scope empty, is
/// consistent.
pub proof fn law_fresh_catalog_is_consistent(builders: Seq<BuilderView>)
    requires
        forall|i: int| 0 <= i < builders.len() ==> (#[trigger] builders[i]).scope.cached() is None,
    ensures
        consistent(CatalogView { builders, instances: Seq::empty() }),
{
}

/// A failed resolution leaves the scope of the builder asked as it was:
/// nothing of a construction that did not complete is kept.
pub proof fn law_failure_commits_nothing(c: CatalogView, ty: Seq<char>, i: int)
    requires
        select(c.builders, ty) == Ok::<int, ErrorView>(i),
        get(c, ty).1 is Err,
    ensures
        get(c, ty).0.builders[i].scope == c.builders[i].scope,
{
    lemma_candidates(c.builders, ty);
    assert(registered(c.builders, candidates(c.builders, ty)[0], ty));
    lemma_produce(c, i, idle(c));
}

/// A component that asks for its own type, in an argument without an
/// override, cannot be built: the request fails with `CyclicDependency`
/// as soon as the argument is reached, whatever kind of argument it is.
pub proof fn law_self_dependency_is_cyclic(c: CatalogView, ty: Seq<char>, i: int)
    requires
        select(c.builders, ty) == Ok::<int, ErrorView>(i),
        c.builders[i].scope.cached() is None,
        c.builders[i].args.len() > 0,
        effective(c.builders[i].args[0]) is None,
        c.builders[i].args[0].target == ty,
    ensures
        get(c, ty) == (c, Err::<int, ErrorView>(ErrorView::CyclicDependency(ty))),
{
    lemma_candidates(c.builders, ty);
    assert(registered(c.builders, candidates(c.builders, ty)[0], ty));
    let busy = idle(c);
    let marked = busy.update(i, true);
    let args = c.builders[i].args;
    assert(!in_progress(busy, i));
    assert(in_progress(marked, i));
    assert(resolve(c, ty, marked) == (c, Err::<int, ErrorView>(ErrorView::CyclicDependency(ty))));
    assert(provide(c, args[0], marked).1 is Err);
    assert(prepare(c, args, 0, marked, Seq::empty()).1 is Err);
}

/// Two successive requests for a transient type, where both succeed, yield
/// two different instances.
pub proof fn law_transient_instances_are_distinct(c: CatalogView, ty: Seq<char>, i: int)
    requires
        select(c.builders, ty) == Ok::<int, ErrorView>(i),
        c.builders[i].scope.kind() == ScopeKind::Transient,
        get(c, ty).1 is Ok,
        get(get(c, ty).0, ty).1 is Ok,
    ensures
        get(c, ty).1->Ok_0 != get(get(c, ty).0, ty).1->Ok_0,
{
    lemma_candidates(c.builders, ty);
    assert(registered(c.builders, candidates(c.builders, ty)[0], ty));
    lemma_produce(c, i, idle(c));
    let c1 = get(c, ty).0;
    assert(c1.builders[i].ty == c.builders[i].ty);
    lemma_candidates_by_type(c.builders, c1.builders, ty, c.builders.len() as int);
    assert(idle(c1) =~= idle(c));
    assert(select(c1.builders, ty) == Ok::<int, ErrorView>(i));
    lemma_produce(c1, i, idle(c1));
}

/// After a successful request for a singleton type, every further request
/// for it yields the same instance and leaves the catalog as it is.
pub proof fn law_singleton_instance_is_shared(c: CatalogView, ty: Seq<char>, i: int)
    requires
        select(c.builders, ty) == Ok::<int, ErrorView>(i),
        c.builders[i].scope.kind() == ScopeKind::Singleton,
        get(c, ty).1 is Ok,
    ensures
        get(get(c, ty).0, ty) == (get(c, ty).0, get(c, ty).1),
{
    lemma_candidates(c.builders, ty);
    assert(registered(c.builders, candidates(c.builders, ty)[0], ty));
    lemma_produce(c, i, idle(c));
    let c1 = get(c, ty).0;
    assert(c1.builders[i].ty == c.builders[i].ty);
    lemma_candidates_by_type(c.builders, c1.builders, ty, c.builders.len() as int);
    assert(idle(c1) =~= idle(c));
    assert(select(c1.builders, ty) == Ok::<int, ErrorView>(i));
}

/// In a well-formed builder every argument goes by the override that is
/// set on it, if any.
pub proof fn law_set_override_is_effective(b: BuilderView, k: int)
    requires
        b.well_formed(),
        0 <= k < b.args.len(),
    ensures
        effective(b.args[k]) == b.args[k].substitute,
{
}

/// An argument with a fixed value as its override receives that value,
/// and the catalog is not touched: it is the same afterwards, whatever is
/// or is not registered for the argument's type.
pub proof fn law_override_supersedes_lookup(
    c: CatalogView,
    arg: ArgView,
    busy: Seq<bool>,
    v: Seq<char>,
)
    requires
        effective(arg) == Some(OverrideView::Value(v)),
    ensures
        provide(c, arg, busy) == (c, Ok::<ValueView, ErrorView>(ValueView::Literal(v))),
{
}

/// An argument without an override receives what the catalog resolves for
/// its target type. So does an argument whose override was set and then
/// removed again.
pub proof fn law_removing_override_restores_lookup(
    c: CatalogView,
    b: BuilderView,
    k: int,
    o: OverrideView,
    busy: Seq<bool>,
)
    requires
        0 <= k < b.args.len(),
    ensures
        provide(c, b.with_substitute(k, Some(o)).with_substitute(k, None).args[k], busy) == fetch(
            resolve(c, b.args[k].target, busy),
            b.args[k].strategy,
        ),
        b.args[k].substitute is None ==> b.with_substitute(k, Some(o)).with_substitute(k, None)
            == b,
{
    let restored = b.with_substitute(k, Some(o)).with_substitute(k, None);
    if b.args[k].substitute is None {
        assert(restored.args =~= b.args);
    }
}

/// The fields that a preparation yields: those it was given, then one for
/// each argument from `k` on, under the argument's name, and with the
/// override's value where the argument goes by a fixed value.
pub proof fn lemma_prepared_fields(
    c: CatalogView,
    args: Seq<ArgView>,
    k: int,
    busy: Seq<bool>,
    acc: Seq<FieldView>,
)
    requires
        0 <= k <= args.len(),
    ensures
        prepare(c, args, k, busy, acc).1 matches Ok(fields) ==> {
            &&& fields.len() == acc.len() + args.len() - k
            &&& forall|m: int| 0 <= m < acc.len() ==> #[trigger] fields[m] == acc[m]
            &&& forall|j: int|
                k <= j < args.len() ==> {
                    &&& (#[trigger] fields[acc.len() + j - k]).name == args[j].name
                    &&& effective(args[j]) matches Some(OverrideView::Value(v)) ==> fields[acc.len()
                        + j - k].value == ValueView::Literal(v)
                }
        },
    decreases args.len() - k,
{
    if k < args.len() {
        let provided = provide(c, args[k], busy);
        match provided.1 {
            Err(e) => {},
            Ok(v) => {
                let next = acc.push(FieldView { name: args[k].name, value: v });
                lemma_prepared_fields(provided.0, args, k + 1, busy, next);
                match prepare(c, args, k, busy, acc).1 {
                    Ok(fields) => {
                        assert forall|m: int| 0 <= m < acc.len() implies #[trigger] fields[m]
                            == acc[m] by {
                            assert(next[m] == acc[m]);
                        }
                        assert(fields[acc.len() as int] == next[acc.len() as int]);
                        assert forall|j: int| k <= j < args.len() implies {
                            &&& (#[trigger] fields[acc.len() + j - k]).name == args[j].name
                            &&& effective(args[j]) matches Some(OverrideView::Value(v))
                                ==> fields[acc.len() + j - k].value == ValueView::Literal(v)
                        } by {
                            if j > k {
                                assert(fields[next.len() + j - (k + 1)].name == args[j].name);
                            }
                        }
                    },
                    Err(e) => {},
                }
            },
        }
    }
}

/// An override is honoured in the instance: where a request builds a new
/// instance and argument `k` of its builder goes by a fixed value, field
/// `k` of the instance has the argument's name and that value.
pub proof fn law_override_reaches_instance(
    c: CatalogView,
    ty: Seq<char>,
    i: int,
    k: int,
    v: Seq<char>,
)
    requires
        select(c.builders, ty) == Ok::<int, ErrorView>(i),
        c.builders[i].scope.cached() is None,
        0 <= k < c.builders[i].args.len(),
        effective(c.builders[i].args[k]) == Some(OverrideView::Value(v)),
        get(c, ty).1 is Ok,
    ensures
        ({
            let made = get(c, ty).0.instances[get(c, ty).1->Ok_0];
            &&& made.ty == ty
            &&& made.fields.len() == c.builders[i].args.len()
            &&& made.fields[k] == (FieldView {
                name: c.builders[i].args[k].name,
                value: ValueView::Literal(v),
            })
        }),
{
    lemma_candidates(c.builders, ty);
    assert(registered(c.builders, candidates(c.builders, ty)[0], ty));
    let busy = idle(c);
    let marked = busy.update(i, true);
    let args = c.builders[i].args;
    lemma_prepared_fields(c, args, 0, marked, Seq::empty());
    assert(!in_progress(busy, i));
    let prepared = prepare(c, args, 0, marked, Seq::empty());
    assert(get(c, ty) == produce(c, i, busy));
    match prepared.1 {
        Ok(fields) => {
            let made = InstanceView { ty: c.builders[i].ty, fields };
            assert(get(c, ty).0 == commit(prepared.0, i, made));
            assert(get(c, ty).0.instances[prepared.0.instances.len() as int] == made);
            assert(fields[0 + k - 0].name == args[k].name);
        },
        Err(e) => {},
    }
}

} // verus!
