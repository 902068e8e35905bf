use vstd::prelude::*;
use crate::arg::{ArgView, OverrideView, ProviderView, Strategy};
use crate::builder::BuilderView;
use crate::error::ErrorView;
use crate::instance::{FieldView, InstanceView, ValueView};

verus! {

/// The state of a catalog: the builders in registration order, each with
/// its scope, and every instance constructed so far, in order of
/// construction. An instance's handle is its position in `instances`.
pub struct CatalogView {
    pub builders: Seq<BuilderView>,
    pub instances: Seq<InstanceView>,
}

/// The positions, among the first `n` builders, of those registered for
/// `ty`, in registration order.
pub open spec fn candidates_among(builders: Seq<BuilderView>, ty: Seq<char>, n: int) -> Seq<int>
    decreases n,
{
    if n <= 0 {
        Seq::empty()
    } else {
        let before = candidates_among(builders, ty, n - 1);
        if n <= builders.len() && builders[n - 1].ty == ty {
            before.push(n - 1)
        } else {
            before
        }
    }
}

/// The positions of the builders registered for `ty`, in registration
/// order.
pub open spec fn candidates(builders: Seq<BuilderView>, ty: Seq<char>) -> Seq<int> {
    candidates_among(builders, ty, builders.len() as int)
}

/// The one builder registered for `ty`: not found where there is none,
/// ambiguous, with the names of all candidates, where there are several.
pub open spec fn select(builders: Seq<BuilderView>, ty: Seq<char>) -> Result<int, ErrorView> {
    let found = candidates(builders, ty);
    if found.len() == 0 {
        Err(ErrorView::NotFound(ty))
    } else if found.len() == 1 {
        Ok(found[0])
    } else {
        Err(ErrorView::Ambiguous(found.map_values(|i: int| builders[i].ty)))
    }
}

/// The checked cast of a handle to the type `ty`: the handle itself where
/// it names an instance of that type.
pub open spec fn downcast(c: CatalogView, h: int, ty: Seq<char>) -> Result<int, ErrorView> {
    if 0 <= h < c.instances.len() && c.instances[h].ty == ty {
        Ok(h)
    } else {
        Err(ErrorView::DowncastFailure(ty))
    }
}

/// The number of builders that are not in progress.
pub open spec fn free(busy: Seq<bool>) -> nat
    decreases busy.len(),
{
    if busy.len() == 0 {
        0
    } else {
        free(busy.drop_last()) + if busy.last() {
            0nat
        } else {
            1nat
        }
    }
}

/// Marking a free builder as in progress leaves one free builder fewer.
pub proof fn lemma_free_update(busy: Seq<bool>, i: int)
    requires
        0 <= i < busy.len(),
        !busy[i],
    ensures
        free(busy.update(i, true)) + 1 == free(busy),
    decreases busy.len(),
{
    let marked = busy.update(i, true);
    if i == busy.len() - 1 {
        assert(marked.drop_last() =~= busy.drop_last());
    } else {
        lemma_free_update(busy.drop_last(), i);
        assert(marked.drop_last() =~= busy.drop_last().update(i, true));
    }
}

/// Whether builder `i` is in progress. A builder that `busy` does not
/// cover counts as in progress.
pub open spec fn in_progress(busy: Seq<bool>, i: int) -> bool {
    !(0 <= i < busy.len()) || busy[i]
}

/// What an argument receives of the instance `h` resolved for it.
pub open spec fn wrap(strategy: Strategy, h: int) -> ValueView {
    match strategy {
        Strategy::Borrowed => ValueView::Borrowed(h),
        Strategy::Shared => ValueView::Shared(h),
        Strategy::Owned => ValueView::Owned(h),
    }
}

/// The override that an argument goes by. A borrowed argument goes by
/// none, whatever is set on it.
pub open spec fn effective(arg: ArgView) -> Option<OverrideView> {
    if arg.strategy == Strategy::Borrowed {
        None
    } else {
        arg.substitute
    }
}

/// The outcome of a resolution handed on to an argument.
pub open spec fn fetch(o: (CatalogView, Result<int, ErrorView>), strategy: Strategy) -> (
    CatalogView,
    Result<ValueView, ErrorView>,
) {
    (
        o.0,
        match o.1 {
            Ok(h) => Ok(wrap(strategy, h)),
            Err(e) => Err(e),
        },
    )
}

/// The catalog after a new instance of builder `i` was stored and offered
/// to the builder's scope.
pub open spec fn commit(c: CatalogView, i: int, made: InstanceView) -> CatalogView {
    CatalogView {
        builders: c.builders.update(
            i,
            BuilderView {
                ty: c.builders[i].ty,
                scope: c.builders[i].scope.offer(c.instances.len() as int),
                args: c.builders[i].args,
            },
        ),
        instances: c.instances.push(made),
    }
}

/// Resolves the type `ty` while the builders marked in `busy` are in
/// progress: selects the one builder registered for it and has it produce
/// an instance. The outcome is the catalog afterwards and the handle or
/// the error.
pub open spec fn resolve(c: CatalogView, ty: Seq<char>, busy: Seq<bool>) -> (
    CatalogView,
    Result<int, ErrorView>,
)
    decreases free(busy), 1nat, 0nat,
{
    match select(c.builders, ty) {
        Err(e) => (c, Err(e)),
        Ok(i) => produce(c, i, busy),
    }
}

/// Builder `i` hands out an instance.
///
/// A cached instance is returned as it is, after a checked cast. Else the
/// builder must not be in progress already; its arguments are prepared in
/// order with the builder marked as in progress; the new instance is
/// stored, offered to the scope and returned. Where an argument fails, the
/// failure is passed on and no instance is made.
pub open spec fn produce(c: CatalogView, i: int, busy: Seq<bool>) -> (
    CatalogView,
    Result<int, ErrorView>,
)
    decreases free(busy), 0nat, 0nat,
{
    let b = c.builders[i];
    match b.scope.cached() {
        Some(h) => (c, downcast(c, h, b.ty)),
        None => if in_progress(busy, i) {
            (c, Err(ErrorView::CyclicDependency(b.ty)))
        } else {
            proof {
                lemma_free_update(busy, i);
            }
            let prepared = prepare(c, b.args, 0, busy.update(i, true), Seq::empty());
            match prepared.1 {
                Err(e) => (prepared.0, Err(e)),
                Ok(fields) => (
                    commit(prepared.0, i, InstanceView { ty: b.ty, fields }),
                    Ok(prepared.0.instances.len() as int),
                ),
            }
        },
    }
}

/// Prepares the arguments `args` from position `k` on, in order, and adds
/// them to `acc`. The first failure ends the preparation.
pub open spec fn prepare(
    c: CatalogView,
    args: Seq<ArgView>,
    k: int,
    busy: Seq<bool>,
    acc: Seq<FieldView>,
) -> (CatalogView, Result<Seq<FieldView>, ErrorView>)
    decreases free(busy), 3nat, args.len() - k,
{
    if k < 0 || k >= args.len() {
        (c, Ok(acc))
    } else {
        let provided = provide(c, args[k], busy);
        match provided.1 {
            Err(e) => (provided.0, Err(e)),
            Ok(v) => prepare(
                provided.0,
                args,
                k + 1,
                busy,
                acc.push(FieldView { name: args[k].name, value: v }),
            ),
        }
    }
}

/// Obtains one argument.
///
/// An override comes first: a fixed value is handed out and the catalog is
/// left alone; a function either fails with its cause or has the catalog
/// resolve the type it names. Without an override the catalog resolves the
/// argument's target type. What was resolved reaches the argument as its
/// strategy says.
pub open spec fn provide(c: CatalogView, arg: ArgView, busy: Seq<bool>) -> (
    CatalogView,
    Result<ValueView, ErrorView>,
)
    decreases free(busy), 2nat, 0nat,
{
    match effective(arg) {
        Some(OverrideView::Value(v)) => (c, Ok(ValueView::Literal(v))),
        Some(OverrideView::Function(ProviderView::Failure(cause))) => (
            c,
            Err(ErrorView::BuildFailure(cause)),
        ),
        Some(OverrideView::Function(ProviderView::Lookup(ty))) => fetch(
            resolve(c, ty, busy),
            arg.strategy,
        ),
        None => fetch(resolve(c, arg.target, busy), arg.strategy),
    }
}

/// No builder in progress: the state in which a resolution starts.
pub open spec fn idle(c: CatalogView) -> Seq<bool> {
    Seq::new(c.builders.len(), |i: int| false)
}

/// Resolves the type `ty` from the outside.
pub open spec fn get(c: CatalogView, ty: Seq<char>) -> (CatalogView, Result<int, ErrorView>) {
    resolve(c, ty, idle(c))
}

} // verus!
