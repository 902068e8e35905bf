use vstd::prelude::*;
use vstd::string::*;
use crate::arg::{
    check_arg, implement_arg, strategy_of, substitute_view, target_of, Arg, ArgView, Override,
    OverrideView, Provider, Strategy,
};
use crate::error::{ComponentError, OverrideError};
use crate::scope::{Scope, ScopeView};
use crate::syntax::{Path, Visibility};
use crate::ty::TypeExpr;

verus! {

/// The producer of one component: how its instances are built, which scope
/// governs them, and which of its arguments are overridden.
#[derive(Clone, Debug, PartialEq, Eq)]
pub struct Builder {
    /// The builder's own name: the component's type followed by `Builder`.
    pub name: String,
    /// The visibility that the builder shares with its component.
    pub vis: Visibility,
    /// The type of the instances.
    pub impl_type: TypeExpr,
    /// The scope as the component declared it.
    pub scope_type: Path,
    /// The scope and what it has cached.
    pub scope: Scope,
    /// The constructor's arguments, in order.
    pub args: Vec<Arg>,
    /// Whether instances are made by calling `new`; otherwise the fields of
    /// the struct are filled in directly.
    pub has_new: bool,
}

/// What resolution reads of a [`Builder`].
pub struct BuilderView {
    /// The identity under which the builder is registered.
    pub ty: Seq<char>,
    pub scope: ScopeView,
    pub args: Seq<ArgView>,
}

/// The contents of a list of arguments.
pub open spec fn arg_views(args: Seq<Arg>) -> Seq<ArgView> {
    args.map_values(|a: Arg| a@)
}

impl View for Builder {
    type V = BuilderView;

    open spec fn view(&self) -> BuilderView {
        BuilderView { ty: self.impl_type.text@, scope: self.scope@, args: arg_views(self.args@) }
    }
}

/// The position of the first argument called `name` at or after `k`.
pub open spec fn position_from(args: Seq<ArgView>, name: Seq<char>, k: int) -> Option<int>
    decreases args.len() - k,
{
    if k < 0 || k >= args.len() {
        None
    } else if args[k].name == name {
        Some(k)
    } else {
        position_from(args, name, k + 1)
    }
}

/// What [`position_from`] finds is the least position of an argument of
/// that name, and it finds nothing only where there is none.
pub proof fn law_position_is_first(args: Seq<ArgView>, name: Seq<char>, k: int)
    requires
        0 <= k <= args.len(),
    ensures
        match position_from(args, name, k) {
            Some(i) => {
                &&& k <= i < args.len()
                &&& args[i].name == name
                &&& forall|j: int| k <= j < i ==> (#[trigger] args[j]).name != name
            },
            None => forall|j: int| k <= j < args.len() ==> (#[trigger] args[j]).name != name,
        },
    decreases args.len() - k,
{
    if k < args.len() && args[k].name != name {
        law_position_is_first(args, name, k + 1);
    }
}

impl BuilderView {
    /// No override is set on a reference: references always come from the
    /// catalog.
    pub open spec fn well_formed(self) -> bool {
        forall|k: int|
            0 <= k < self.args.len() ==> ((#[trigger] self.args[k]).strategy == Strategy::Borrowed
                ==> self.args[k].substitute is None)
    }

    /// The position of the argument called `name`.
    pub open spec fn position(self, name: Seq<char>) -> Option<int> {
        position_from(self.args, name, 0)
    }

    /// The builder with the override of argument `k` replaced.
    pub open spec fn with_substitute(
        self,
        k: int,
        s: Option<OverrideView>,
    ) -> BuilderView {
        BuilderView {
            ty: self.ty,
            scope: self.scope,
            args: self.args.update(
                k,
                ArgView {
                    name: self.args[k].name,
                    strategy: self.args[k].strategy,
                    target: self.args[k].target,
                    substitute: s,
                },
            ),
        }
    }

    /// Why no override can be set on the argument called `name`, if so.
    pub open spec fn refusal(self, name: Seq<char>) -> Option<OverrideError> {
        match self.position(name) {
            None => Some(OverrideError::UnknownArgument),
            Some(k) => if self.args[k].strategy == Strategy::Borrowed {
                Some(OverrideError::NotOverridable)
            } else {
                None
            },
        }
    }
}

/// Whether `arg` is the plan of an argument called `name`, of type `typ`,
/// of the builder called `owner`, with no override set.
pub open spec fn plans(arg: Arg, name: Seq<char>, typ: TypeExpr, owner: Seq<char>) -> bool {
    &&& arg.name@ == name
    &&& arg.typ == typ
    &&& arg.strategy == strategy_of(typ)
    &&& target_of(typ) == Some(arg.target)
    &&& arg.substitute is None
    &&& arg.owner@ == owner
}

/// Whether every argument has a type to ask the catalog for.
pub open spec fn all_resolvable(args: Seq<(String, TypeExpr)>) -> bool {
    forall|k: int| 0 <= k < args.len() ==> target_of((#[trigger] args[k]).1) is Some
}

/// Why no builder can be planned for the type `impl_type` with the
/// arguments `args`, if so: a type that is no bare name first, then an
/// argument that is a shared pointer without a pointee.
pub open spec fn builder_refusal(
    impl_type: TypeExpr,
    args: Seq<(String, TypeExpr)>,
) -> Option<ComponentError> {
    if !impl_type.is_bare_name() {
        Some(ComponentError::InvalidName)
    } else if !all_resolvable(args) {
        Some(ComponentError::UnresolvedPointer)
    } else {
        None
    }
}

/// Why no builder can be planned for the type `impl_type` with the
/// arguments `args`, if so.
pub fn check_builder(impl_type: &TypeExpr, args: &Vec<(String, TypeExpr)>) -> (r: Option<
    ComponentError,
>)
    ensures
        r == builder_refusal(*impl_type, args@),
{
    if !impl_type.bare_name() {
        return Some(ComponentError::InvalidName);
    }
    let mut k: usize = 0;
    while k < args.len()
        invariant
            k <= args.len(),
            impl_type.is_bare_name(),
            forall|j: int| 0 <= j < k ==> target_of((#[trigger] args@[j]).1) is Some,
        decreases args.len() - k,
    {
        if check_arg(&args[k].1).is_some() {
            assert(target_of(args@[k as int].1) is None);
            return Some(ComponentError::UnresolvedPointer);
        }
        k += 1;
    }
    None
}

/// Plans the builder of a component.
///
/// `impl_type` is the component's type, `scope_type` the scope it declares,
/// `args` its constructor's arguments by name and type, and `has_new` says
/// whether its constructor is a function `new` or the struct itself. The
/// builder is named after the type, starts with an empty scope of the
/// declared kind, and plans each argument as [`implement_arg`] does.
///
/// A type that is no bare name and an argument that is a shared pointer
/// without a pointee are not accepted; [`check_builder`] tells. The one
/// failure is a scope that is neither `Transient` nor `Singleton`.
pub fn implement_builder(
    impl_vis: &Visibility,
    impl_type: &TypeExpr,
    scope_type: Path,
    args: Vec<(String, TypeExpr)>,
    has_new: bool,
) -> (r: Result<Builder, ComponentError>)
    requires
        builder_refusal(*impl_type, args@) is None,
    ensures
        match r {
            Ok(b) => {
                &&& scope_type.scope_kind() matches Some(kind) && b.scope@ == ScopeView::empty(kind)
                &&& b.name@ == impl_type.text@ + "Builder"@
                &&& b.vis == *impl_vis
                &&& b.impl_type == *impl_type
                &&& b.scope_type == scope_type
                &&& b.has_new == has_new
                &&& b@.well_formed()
                &&& b.args@.len() == args@.len()
                &&& forall|k: int|
                    0 <= k < args@.len() ==> plans(
                        #[trigger] b.args@[k],
                        args@[k].0@,
                        args@[k].1,
                        b.name@,
                    )
            },
            Err(e) => scope_type.scope_kind() is None && e == ComponentError::UnknownScope,
        },
{
    let builder_name = impl_type.text.clone().concat("Builder");
    let mut planned: Vec<Arg> = Vec::new();
    let mut k: usize = 0;
    while k < args.len()
        invariant
            k <= args.len(),
            planned@.len() == k,
            all_resolvable(args@),
            builder_name@ == impl_type.text@ + "Builder"@,
            forall|j: int|
                0 <= j < k ==> plans(
                    #[trigger] planned@[j],
                    args@[j].0@,
                    args@[j].1,
                    builder_name@,
                ),
        decreases args.len() - k,
    {
        assert(target_of(args@[k as int].1) is Some);
        planned.push(implement_arg(args[k].0.as_str(), &args[k].1, builder_name.as_str()));
        k += 1;
    }
    match scope_type.as_scope_kind() {
        Some(kind) => Ok(
            Builder {
                name: builder_name,
                vis: impl_vis.clone(),
                impl_type: impl_type.clone(),
                scope_type,
                scope: Scope::new(kind),
                args: planned,
                has_new,
            },
        ),
        None => Err(ComponentError::UnknownScope),
    }
}

impl Builder {
    /// The identity under which the builder is registered: its component's
    /// type as written.
    pub fn instance_type_id(&self) -> (r: String)
        ensures
            r@ == self@.ty,
    {
        self.impl_type.text.clone()
    }

    /// The name of the component's type, for diagnostics.
    pub fn instance_type_name(&self) -> (r: String)
        ensures
            r@ == self@.ty,
    {
        self.impl_type.text.clone()
    }

    /// Whether the builder is `other` but for what its scope has cached:
    /// the name, the visibility, the type, the declared scope, the
    /// arguments with their overrides and the kind of constructor are the
    /// same.
    pub open spec fn same_plan(self, other: Builder) -> bool {
        &&& self.name == other.name
        &&& self.vis == other.vis
        &&& self.impl_type == other.impl_type
        &&& self.scope_type == other.scope_type
        &&& self.args == other.args
        &&& self.has_new == other.has_new
        &&& self.scope@.kind() == other.scope@.kind()
    }

    /// Whether the builder differs from `old` at most in the override of
    /// argument `k`, which is `s`.
    pub open spec fn overrides(self, old: Builder, k: int, s: Option<Override>) -> bool {
        &&& self.name == old.name
        &&& self.vis == old.vis
        &&& self.impl_type == old.impl_type
        &&& self.scope_type == old.scope_type
        &&& self.scope == old.scope
        &&& self.has_new == old.has_new
        &&& self.args@.len() == old.args@.len()
        &&& forall|j: int|
            0 <= j < old.args@.len() && j != k ==> #[trigger] self.args@[j] == old.args@[j]
        &&& self.args@[k].name == old.args@[k].name
        &&& self.args@[k].typ == old.args@[k].typ
        &&& self.args@[k].strategy == old.args@[k].strategy
        &&& self.args@[k].target == old.args@[k].target
        &&& self.args@[k].owner == old.args@[k].owner
        &&& self.args@[k].substitute == s
    }

    /// The position of the first argument called `name`.
    pub fn find_arg(&self, name: &str) -> (r: Option<usize>)
        ensures
            match r {
                Some(k) => self@.position(name@) == Some(k as int) && k < self.args@.len(),
                None => self@.position(name@) is None,
            },
    {
        let wanted = String::from_str(name);
        let mut k: usize = 0;
        while k < self.args.len()
            invariant
                k <= self.args.len(),
                wanted@ == name@,
                self@.position(name@) == position_from(self@.args, name@, k as int),
            decreases self.args.len() - k,
        {
            if self.args[k].name == wanted {
                return Some(k);
            }
            k += 1;
        }
        None
    }

    fn substitute(self, name: &str, s: Option<Override>) -> (r: Result<Builder, OverrideError>)
        ensures
            match r {
                Ok(b) => {
                    &&& self@.refusal(name@) is None
                    &&& self@.well_formed() ==> b@.well_formed()
                    &&& self@.position(name@) matches Some(k) && b.overrides(self, k, s)
                    &&& b@ == self@.with_substitute(
                        self@.position(name@).unwrap(),
                        substitute_view(s),
                    )
                },
                Err(e) => self@.refusal(name@) == Some(e),
            },
    {
        let mut b = self;
        match b.find_arg(name) {
            None => Err(OverrideError::UnknownArgument),
            Some(k) => {
                if !b.args[k].is_overridable() {
                    return Err(OverrideError::NotOverridable);
                }
                b.args[k].substitute = s;
                assert(b@.args =~= self@.with_substitute(
                    k as int,
                    substitute_view(s),
                ).args);
                Ok(b)
            },
        }
    }

    /// Pins the argument called `name` to the fixed value `value`: from now
    /// on the catalog is not asked for it.
    ///
    /// Refused for a name that the builder does not have and for an
    /// argument that is a reference.
    pub fn with_arg(self, name: &str, value: &str) -> (r: Result<Builder, OverrideError>)
        ensures
            match r {
                Ok(b) => {
                    &&& self@.refusal(name@) is None
                    &&& self@.well_formed() ==> b@.well_formed()
                    &&& self@.position(name@) matches Some(k) && exists|v: String|
                        v@ == value@ && #[trigger] b.overrides(self, k, Some(Override::Value(v)))
                    &&& b@ == self@.with_substitute(
                        self@.position(name@).unwrap(),
                        Some(OverrideView::Value(value@)),
                    )
                },
                Err(e) => self@.refusal(name@) == Some(e),
            },
    {
        self.substitute(name, Some(Override::Value(String::from_str(value))))
    }

    /// Installs a function for the argument called `name`: on every
    /// construction the function is run in place of the lookup.
    ///
    /// Refused for a name that the builder does not have and for an
    /// argument that is a reference.
    pub fn with_arg_fn(self, name: &str, fun: Provider) -> (r: Result<Builder, OverrideError>)
        ensures
            match r {
                Ok(b) => {
                    &&& self@.refusal(name@) is None
                    &&& self@.well_formed() ==> b@.well_formed()
                    &&& self@.position(name@) matches Some(k) && b.overrides(
                        self,
                        k,
                        Some(Override::Function(fun)),
                    )
                    &&& b@ == self@.with_substitute(
                        self@.position(name@).unwrap(),
                        Some(OverrideView::Function(fun@)),
                    )
                },
                Err(e) => self@.refusal(name@) == Some(e),
            },
    {
        self.substitute(name, Some(Override::Function(fun)))
    }

    /// Removes the override of the argument called `name`: the argument
    /// comes from the catalog again.
    ///
    /// Refused for a name that the builder does not have and for an
    /// argument that is a reference.
    pub fn without_arg(self, name: &str) -> (r: Result<Builder, OverrideError>)
        ensures
            match r {
                Ok(b) => {
                    &&& self@.refusal(name@) is None
                    &&& self@.well_formed() ==> b@.well_formed()
                    &&& self@.position(name@) matches Some(k) && b.overrides(self, k, None)
                    &&& b@ == self@.with_substitute(self@.position(name@).unwrap(), None)
                },
                Err(e) => self@.refusal(name@) == Some(e),
            },
    {
        self.substitute(name, None)
    }
}

} // verus!
