use vstd::prelude::*;
use vstd::string::*;
use crate::error::ComponentError;
use crate::ty::{
    has_pointee, is_reference, is_smart_ptr, strip_reference, strip_smart_ptr, TypeExpr,
};

verus! {

/// How a constructor argument is obtained from the catalog.
#[derive(Clone, Copy, Debug, PartialEq, Eq, Structural)]
pub enum Strategy {
    /// The argument is a reference: the referent is resolved and borrowed
    /// for the duration of the construction call.
    Borrowed,
    /// The argument is a shared pointer: the pointee is resolved and the
    /// shared handle is kept.
    Shared,
    /// The argument is a value: its type is resolved and the argument is
    /// an independent copy of what the handle holds.
    Owned,
}

/// A function override, as a description of what the function does with
/// the catalog.
#[derive(Debug, PartialEq, Eq)]
pub enum Provider {
    /// It asks the catalog for the type named and hands on what it gets.
    Lookup(String),
    /// It reports a failure with the cause given.
    Failure(String),
}

pub enum ProviderView {
    Lookup(Seq<char>),
    Failure(Seq<char>),
}

impl View for Provider {
    type V = ProviderView;

    open spec fn view(&self) -> ProviderView {
        match *self {
            Provider::Lookup(t) => ProviderView::Lookup(t@),
            Provider::Failure(c) => ProviderView::Failure(c@),
        }
    }
}

impl Clone for Provider {
    fn clone(&self) -> (r: Self)
        ensures
            r == *self,
    {
        match self {
            Provider::Lookup(t) => Provider::Lookup(t.clone()),
            Provider::Failure(c) => Provider::Failure(c.clone()),
        }
    }
}

/// What stands in for the catalog at one argument.
#[derive(Debug, PartialEq, Eq)]
pub enum Override {
    /// A fixed value, captured once and handed out on every construction.
    Value(String),
    /// A function of the catalog, run anew on every construction.
    Function(Provider),
}

pub enum OverrideView {
    Value(Seq<char>),
    Function(ProviderView),
}

impl View for Override {
    type V = OverrideView;

    open spec fn view(&self) -> OverrideView {
        match *self {
            Override::Value(v) => OverrideView::Value(v@),
            Override::Function(p) => OverrideView::Function(p@),
        }
    }
}

impl Clone for Override {
    fn clone(&self) -> (r: Self)
        ensures
            r == *self,
    {
        match self {
            Override::Value(v) => Override::Value(v.clone()),
            Override::Function(p) => Override::Function(p.clone()),
        }
    }
}

/// One constructor argument as its builder sees it.
#[derive(Debug, PartialEq, Eq)]
pub struct Arg {
    /// The argument's name.
    pub name: String,
    /// The argument's type as declared.
    pub typ: TypeExpr,
    /// How the argument is obtained.
    pub strategy: Strategy,
    /// The type that the catalog is asked for.
    pub target: TypeExpr,
    /// The override, if one is set. A borrowed argument never consults it.
    pub substitute: Option<Override>,
    /// The name of the builder that the argument belongs to.
    pub owner: String,
}

/// What resolution reads of an [`Arg`].
pub struct ArgView {
    pub name: Seq<char>,
    pub strategy: Strategy,
    pub target: Seq<char>,
    pub substitute: Option<OverrideView>,
}

/// The content of an optional override.
pub open spec fn substitute_view(s: Option<Override>) -> Option<OverrideView> {
    match s {
        Some(o) => Some(o@),
        None => None,
    }
}

impl View for Arg {
    type V = ArgView;

    open spec fn view(&self) -> ArgView {
        ArgView {
            name: self.name@,
            strategy: self.strategy,
            target: self.target.text@,
            substitute: substitute_view(self.substitute),
        }
    }
}

impl Clone for Arg {
    fn clone(&self) -> (r: Self)
        ensures
            r == *self,
    {
        Arg {
            name: self.name.clone(),
            typ: self.typ.clone(),
            strategy: self.strategy,
            target: self.target.clone(),
            substitute: match &self.substitute {
                Some(o) => Some(o.clone()),
                None => None,
            },
            owner: self.owner.clone(),
        }
    }
}

/// The strategy that the shape of a type calls for.
pub open spec fn strategy_of(typ: TypeExpr) -> Strategy {
    if typ.form is Reference {
        Strategy::Borrowed
    } else if typ.names_shared_pointer() {
        Strategy::Shared
    } else {
        Strategy::Owned
    }
}

/// The type that the catalog is asked for on behalf of an argument of type
/// `typ`: the referent of a reference, the pointee of a shared pointer, the
/// type itself otherwise. `None` for a shared pointer without a pointee.
pub open spec fn target_of(typ: TypeExpr) -> Option<TypeExpr> {
    if typ.form is Reference {
        Some(typ.referent())
    } else {
        typ.pointee()
    }
}

impl Arg {
    /// Whether an override may be set: on every argument but a reference.
    pub open spec fn overridable(self) -> bool {
        self.strategy != Strategy::Borrowed
    }

    /// Whether an override may be set on this argument.
    pub fn is_overridable(&self) -> (r: bool)
        ensures
            r == self.overridable(),
    {
        match self.strategy {
            Strategy::Borrowed => false,
            _ => true,
        }
    }

    /// The name of the builder's field that holds the override:
    /// `arg_NAME_fn`. A reference has no such field.
    pub fn override_field(&self) -> (r: Option<String>)
        ensures
            match r {
                Some(f) => self.overridable() && f@ == "arg_"@ + self.name@ + "_fn"@,
                None => !self.overridable(),
            },
    {
        if !self.is_overridable() {
            return None;
        }
        let f = String::from_str("arg_").concat(self.name.as_str()).concat("_fn");
        Some(f)
    }

    /// The name of the setter that pins a value: `with_NAME`. A reference
    /// has no setters.
    pub fn value_setter(&self) -> (r: Option<String>)
        ensures
            match r {
                Some(f) => self.overridable() && f@ == "with_"@ + self.name@,
                None => !self.overridable(),
            },
    {
        if !self.is_overridable() {
            return None;
        }
        Some(String::from_str("with_").concat(self.name.as_str()))
    }

    /// The name of the setter that installs a function: `with_NAME_fn`.
    pub fn function_setter(&self) -> (r: Option<String>)
        ensures
            match r {
                Some(f) => self.overridable() && f@ == "with_"@ + self.name@ + "_fn"@,
                None => !self.overridable(),
            },
    {
        if !self.is_overridable() {
            return None;
        }
        Some(String::from_str("with_").concat(self.name.as_str()).concat("_fn"))
    }
}

/// Why an argument of type `typ` cannot be planned, if so: it is a shared
/// pointer whose arguments are not a single type.
pub open spec fn arg_refusal(typ: TypeExpr) -> Option<ComponentError> {
    if target_of(typ) is None {
        Some(ComponentError::UnresolvedPointer)
    } else {
        None
    }
}

/// Why an argument of type `typ` cannot be planned, if so.
pub fn check_arg(typ: &TypeExpr) -> (r: Option<ComponentError>)
    ensures
        r == arg_refusal(*typ),
{
    if is_reference(typ) || has_pointee(typ) {
        None
    } else {
        Some(ComponentError::UnresolvedPointer)
    }
}

/// Plans one constructor argument called `name`, of type `typ`, for the
/// builder called `builder`.
///
/// The shape of `typ` alone decides the strategy and the type asked of the
/// catalog. The argument starts without an override. A shared pointer
/// whose arguments are not a single type is not accepted; [`check_arg`]
/// tells.
pub fn implement_arg(name: &str, typ: &TypeExpr, builder: &str) -> (arg: Arg)
    requires
        arg_refusal(*typ) is None,
    ensures
        target_of(*typ) == Some(arg.target),
        arg.name@ == name@,
        arg.typ == *typ,
        arg.strategy == strategy_of(*typ),
        arg.substitute is None,
        arg.owner@ == builder@,
{
    let (strategy, target) = if is_reference(typ) {
        (Strategy::Borrowed, strip_reference(typ))
    } else if is_smart_ptr(typ) {
        (Strategy::Shared, strip_smart_ptr(typ))
    } else {
        (Strategy::Owned, typ.clone())
    };
    Arg {
        name: String::from_str(name),
        typ: typ.clone(),
        strategy,
        target,
        substitute: None,
        owner: String::from_str(builder),
    }
}

} // verus!
