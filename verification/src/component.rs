use vstd::pervasive::unreached;
use vstd::prelude::*;
use vstd::string::*;
use crate::arg::{check_arg, target_of};
use crate::builder::{all_resolvable, implement_builder, plans, Builder};
use crate::error::ComponentError;
use crate::scope::ScopeKind;
use crate::syntax::{
    check_scope, constructor, declared_scope, get_new, get_scope, scope_refusal, Attribute,
    FieldDecl, FnArg, Item, ItemImpl, ItemStruct, Pat, Path, Visibility,
};
use crate::ty::TypeExpr;

verus! {

/// Whether `p` is the scope of a component that declares none.
pub open spec fn is_default_scope(p: Path) -> bool {
    p.text@ == "::dill::Transient"@ && p.ident is None && p.last@ == "Transient"@
}

/// Whether `p` is the scope that the attributes declare, or the default
/// where they declare none.
pub open spec fn is_scope_of(p: Path, attrs: Seq<Attribute>) -> bool {
    match declared_scope(attrs) {
        Ok(Some(d)) => p == d,
        Ok(None) => is_default_scope(p),
        Err(_) => false,
    }
}

/// The kind of scope that the attributes call for: the one they name, or
/// transient where they name none.
pub open spec fn scope_kind_of(attrs: Seq<Attribute>) -> Option<ScopeKind> {
    match declared_scope(attrs) {
        Ok(Some(d)) => d.scope_kind(),
        Ok(None) => Some(ScopeKind::Transient),
        Err(_) => None,
    }
}

/// Whether one of the types is a shared pointer without a pointee.
pub open spec fn unresolved(types: Seq<TypeExpr>) -> bool {
    exists|k: int| 0 <= k < types.len() && target_of(#[trigger] types[k]) is None
}

/// Whether one of the fields has no name.
pub open spec fn unnamed(fields: Seq<FieldDecl>) -> bool {
    exists|k: int| 0 <= k < fields.len() && (#[trigger] fields[k]).ident is None
}

/// The types of the fields of a struct.
pub open spec fn field_types(fields: Seq<FieldDecl>) -> Seq<TypeExpr> {
    fields.map_values(|f: FieldDecl| f.ty)
}

/// Why a struct declares no component, if so: a field without a name
/// first, then a scope attribute that cannot be read, then a field that is
/// a shared pointer without a pointee.
pub open spec fn struct_refusal(ast: ItemStruct) -> Option<ComponentError> {
    if unnamed(ast.fields@) {
        Some(ComponentError::UnnamedField)
    } else if scope_refusal(ast.attrs@) is Some {
        scope_refusal(ast.attrs@)
    } else if unresolved(field_types(ast.fields@)) {
        Some(ComponentError::UnresolvedPointer)
    } else {
        None
    }
}

/// Why a struct declares no component, if so.
pub fn check_struct(ast: &ItemStruct) -> (r: Option<ComponentError>)
    ensures
        r == struct_refusal(*ast),
{
    let mut k: usize = 0;
    while k < ast.fields.len()
        invariant
            k <= ast.fields.len(),
            forall|j: int| 0 <= j < k ==> (#[trigger] ast.fields@[j]).ident is Some,
        decreases ast.fields.len() - k,
    {
        if ast.fields[k].ident.is_none() {
            assert(ast.fields@[k as int].ident is None);
            return Some(ComponentError::UnnamedField);
        }
        k += 1;
    }
    match check_scope(&ast.attrs) {
        Some(e) => {
            return Some(e);
        },
        None => {},
    }
    let ghost types = field_types(ast.fields@);
    let mut k: usize = 0;
    while k < ast.fields.len()
        invariant
            k <= ast.fields.len(),
            types == field_types(ast.fields@),
            !unnamed(ast.fields@),
            scope_refusal(ast.attrs@) is None,
            forall|j: int| 0 <= j < k ==> target_of(#[trigger] types[j]) is Some,
        decreases ast.fields.len() - k,
    {
        if check_arg(&ast.fields[k].ty).is_some() {
            assert(target_of(types[k as int]) is None);
            return Some(ComponentError::UnresolvedPointer);
        }
        assert(target_of(types[k as int]) is Some);
        k += 1;
    }
    None
}

/// Whether `b` is the builder of the component that the struct declares:
/// named after the struct, with its visibility, an empty scope of the kind
/// declared, and one argument for each field, planned from its type.
pub open spec fn builds_struct(b: Builder, ast: ItemStruct) -> bool {
    &&& b.name@ == ast.ident@ + "Builder"@
    &&& b.vis == ast.vis
    &&& b.impl_type.text@ == ast.ident@
    &&& b.impl_type.is_bare_name()
    &&& is_scope_of(b.scope_type, ast.attrs@)
    &&& Some(b.scope@.kind()) == scope_kind_of(ast.attrs@)
    &&& b.scope@.cached() is None
    &&& b@.well_formed()
    &&& !b.has_new
    &&& b.args@.len() == ast.fields@.len()
    &&& forall|k: int|
        0 <= k < ast.fields@.len() ==> ((#[trigger] ast.fields@[k]).ident matches Some(id)
            && plans(b.args@[k], id@, ast.fields@[k].ty, b.name@))
}

/// The builder of a component declared as a struct.
///
/// The fields are the constructor's arguments; the builder has the
/// struct's visibility and is named after it; instances are made by
/// filling in the fields.
///
/// A struct that [`check_struct`] refuses is not accepted. The one
/// failure is a scope that is neither `Transient` nor `Singleton`.
pub fn component_from_struct(ast: &ItemStruct) -> (r: Result<Builder, ComponentError>)
    requires
        struct_refusal(*ast) is None,
    ensures
        match r {
            Ok(b) => builds_struct(b, *ast),
            Err(e) => scope_kind_of(ast.attrs@) is None && e == ComponentError::UnknownScope,
        },
{
    let impl_type = TypeExpr::from_ident(ast.ident.as_str());
    let mut args: Vec<(String, TypeExpr)> = Vec::new();
    let mut k: usize = 0;
    while k < ast.fields.len()
        invariant
            k <= ast.fields.len(),
            args@.len() == k,
            !unnamed(ast.fields@),
            forall|j: int|
                0 <= j < k ==> ((#[trigger] ast.fields@[j]).ident matches Some(id) && args@[j].0
                    == id && args@[j].1 == ast.fields@[j].ty),
        decreases ast.fields.len() - k,
    {
        assert(ast.fields@[k as int].ident is Some);
        if let Some(id) = &ast.fields[k].ident {
            args.push((id.clone(), ast.fields[k].ty.clone()));
        }
        k += 1;
    }
    let scope_type = match get_scope(&ast.attrs) {
        Some(p) => p,
        None => Path::default_scope(),
    };
    assert(scope_type.scope_kind() == scope_kind_of(ast.attrs@));
    proof {
        let types = field_types(ast.fields@);
        assert forall|j: int| 0 <= j < args@.len() implies target_of(
            (#[trigger] args@[j]).1,
        ) is Some by {
            assert(target_of(types[j]) is Some);
        }
    }
    implement_builder(&ast.vis, &impl_type, scope_type, args, false)
}

/// The first argument of a constructor, at or after `k`, that cannot be
/// planned, with the reason: `self`, or a pattern that is no plain name.
pub open spec fn first_bad_input_from(inputs: Seq<FnArg>, k: int) -> Option<ComponentError>
    decreases inputs.len() - k,
{
    if k < 0 || k >= inputs.len() {
        None
    } else {
        match inputs[k] {
            FnArg::Receiver => Some(ComponentError::UnexpectedArgument),
            FnArg::Typed { pat: Pat::Other, .. } => Some(ComponentError::UnexpectedPattern),
            FnArg::Typed { pat: Pat::Ident(_), .. } => first_bad_input_from(inputs, k + 1),
        }
    }
}

/// Where [`first_bad_input_from`] finds nothing, every argument from `k` on
/// is a plain name with a type.
pub proof fn law_inputs_are_named(inputs: Seq<FnArg>, k: int)
    requires
        0 <= k <= inputs.len(),
        first_bad_input_from(inputs, k) is None,
    ensures
        forall|j: int|
            k <= j < inputs.len() ==> (#[trigger] inputs[j]) matches FnArg::Typed {
                pat: Pat::Ident(_),
                ..
            },
    decreases inputs.len() - k,
{
    if k < inputs.len() {
        law_inputs_are_named(inputs, k + 1);
    }
}

/// The types of the arguments of a constructor.
pub open spec fn input_types(inputs: Seq<FnArg>) -> Seq<TypeExpr> {
    inputs.map_values(
        |a: FnArg|
            match a {
                FnArg::Typed { ty, .. } => ty,
                FnArg::Receiver => arbitrary(),
            },
    )
}

/// Why an impl block declares no component, if so: no function `new`
/// first, then the first argument of `new` that is `self` or no plain
/// name, then a scope attribute that cannot be read, then a type that is
/// no bare name, then an argument that is a shared pointer without a
/// pointee.
pub open spec fn impl_refusal(ast: ItemImpl) -> Option<ComponentError> {
    match constructor(ast.items@) {
        None => Some(ComponentError::MissingNew),
        Some(new) => if first_bad_input_from(new.inputs@, 0) is Some {
            first_bad_input_from(new.inputs@, 0)
        } else if scope_refusal(ast.attrs@) is Some {
            scope_refusal(ast.attrs@)
        } else if !ast.self_ty.is_bare_name() {
            Some(ComponentError::InvalidName)
        } else if unresolved(input_types(new.inputs@)) {
            Some(ComponentError::UnresolvedPointer)
        } else {
            None
        },
    }
}

/// Why an impl block declares no component, if so.
pub fn check_impl(ast: &ItemImpl) -> (r: Option<ComponentError>)
    ensures
        r == impl_refusal(*ast),
{
    let new = match get_new(&ast.items) {
        Some(m) => m,
        None => {
            return Some(ComponentError::MissingNew);
        },
    };
    let mut k: usize = 0;
    while k < new.inputs.len()
        invariant
            k <= new.inputs.len(),
            constructor(ast.items@) == Some(*new),
            first_bad_input_from(new.inputs@, 0) == first_bad_input_from(new.inputs@, k as int),
        decreases new.inputs.len() - k,
    {
        match &new.inputs[k] {
            FnArg::Receiver => {
                return Some(ComponentError::UnexpectedArgument);
            },
            FnArg::Typed { pat, .. } => match pat {
                Pat::Ident(_) => {},
                Pat::Other => {
                    return Some(ComponentError::UnexpectedPattern);
                },
            },
        }
        k += 1;
    }
    match check_scope(&ast.attrs) {
        Some(e) => {
            return Some(e);
        },
        None => {},
    }
    if !ast.self_ty.bare_name() {
        return Some(ComponentError::InvalidName);
    }
    let ghost types = input_types(new.inputs@);
    proof {
        law_inputs_are_named(new.inputs@, 0);
    }
    let mut k: usize = 0;
    while k < new.inputs.len()
        invariant
            k <= new.inputs.len(),
            constructor(ast.items@) == Some(*new),
            types == input_types(new.inputs@),
            first_bad_input_from(new.inputs@, 0) is None,
            scope_refusal(ast.attrs@) is None,
            ast.self_ty.is_bare_name(),
            forall|j: int|
                0 <= j < new.inputs@.len() ==> (#[trigger] new.inputs@[j]) matches FnArg::Typed {
                    pat: Pat::Ident(_),
                    ..
                },
            forall|j: int| 0 <= j < k ==> target_of(#[trigger] types[j]) is Some,
        decreases new.inputs.len() - k,
    {
        assert(new.inputs@[k as int] is Typed);
        if let FnArg::Typed { ty, .. } = &new.inputs[k] {
            if check_arg(ty).is_some() {
                assert(target_of(types[k as int]) is None);
                return Some(ComponentError::UnresolvedPointer);
            }
        }
        assert(target_of(types[k as int]) is Some);
        k += 1;
    }
    None
}

/// Whether `b` is the builder of the component that the impl block
/// declares: named after the type of the block, with the visibility `vis`,
/// an empty scope of the kind declared, and one argument for each argument
/// of `new`, planned from its type.
pub open spec fn builds_impl(b: Builder, vis: Visibility, ast: ItemImpl) -> bool {
    &&& constructor(ast.items@) matches Some(new)
    &&& b.name@ == ast.self_ty.text@ + "Builder"@
    &&& b.vis == vis
    &&& b.impl_type == ast.self_ty
    &&& b.impl_type.is_bare_name()
    &&& is_scope_of(b.scope_type, ast.attrs@)
    &&& Some(b.scope@.kind()) == scope_kind_of(ast.attrs@)
    &&& b.scope@.cached() is None
    &&& b@.well_formed()
    &&& b.has_new
    &&& b.args@.len() == new.inputs@.len()
    &&& forall|k: int|
        0 <= k < new.inputs@.len() ==> ((#[trigger] new.inputs@[k]) matches FnArg::Typed {
            pat: Pat::Ident(id),
            ty,
        } && plans(b.args@[k], id@, ty, b.name@))
}

/// The builder of a component declared as an impl block with a function
/// `new`.
///
/// The arguments of `new` are the constructor's arguments; the builder has
/// the visibility `vis` and is named after the type of the block;
/// instances are made by calling `new`.
///
/// A block that [`check_impl`] refuses is not accepted. The one failure is
/// a scope that is neither `Transient` nor `Singleton`.
pub fn component_from_impl(vis: &Visibility, ast: &ItemImpl) -> (r: Result<
    Builder,
    ComponentError,
>)
    requires
        impl_refusal(*ast) is None,
    ensures
        match r {
            Ok(b) => builds_impl(b, *vis, *ast),
            Err(e) => scope_kind_of(ast.attrs@) is None && e == ComponentError::UnknownScope,
        },
{
    let new = get_new(&ast.items).unwrap();
    proof {
        law_inputs_are_named(new.inputs@, 0);
    }
    let mut args: Vec<(String, TypeExpr)> = Vec::new();
    let mut k: usize = 0;
    while k < new.inputs.len()
        invariant
            k <= new.inputs.len(),
            args@.len() == k,
            forall|j: int|
                0 <= j < new.inputs@.len() ==> (#[trigger] new.inputs@[j]) matches FnArg::Typed {
                    pat: Pat::Ident(_),
                    ..
                },
            forall|j: int|
                0 <= j < k ==> ((#[trigger] new.inputs@[j]) matches FnArg::Typed {
                    pat: Pat::Ident(id),
                    ty,
                } && args@[j].0 == id && args@[j].1 == ty),
        decreases new.inputs.len() - k,
    {
        assert(new.inputs@[k as int] matches FnArg::Typed { pat: Pat::Ident(_), .. });
        if let FnArg::Typed { pat: Pat::Ident(id), ty } = &new.inputs[k] {
            args.push((id.clone(), ty.clone()));
        }
        k += 1;
    }
    let scope_type = match get_scope(&ast.attrs) {
        Some(p) => p,
        None => Path::default_scope(),
    };
    assert(scope_type.scope_kind() == scope_kind_of(ast.attrs@));
    proof {
        let types = input_types(new.inputs@);
        assert forall|j: int| 0 <= j < args@.len() implies target_of(
            (#[trigger] args@[j]).1,
        ) is Some by {
            assert(target_of(types[j]) is Some);
        }
    }
    implement_builder(vis, &ast.self_ty, scope_type, args, true)
}

/// Why an item declares no component, if so.
pub open spec fn refusal(item: Item) -> Option<ComponentError> {
    match item {
        Item::Struct(s) => struct_refusal(s),
        Item::Impl(i) => impl_refusal(i),
        Item::Other => Some(ComponentError::NotAComponent),
    }
}

/// Why an item declares no component, if so: it is neither a struct nor
/// an impl block, or [`check_struct`] or [`check_impl`] refuses it.
pub fn check_component(item: &Item) -> (r: Option<ComponentError>)
    ensures
        r == refusal(*item),
{
    match item {
        Item::Struct(s) => check_struct(s),
        Item::Impl(i) => check_impl(i),
        Item::Other => Some(ComponentError::NotAComponent),
    }
}

/// The kind of scope that an item's attributes call for.
pub open spec fn item_scope_kind(item: Item) -> Option<ScopeKind> {
    match item {
        Item::Struct(s) => scope_kind_of(s.attrs@),
        Item::Impl(i) => scope_kind_of(i.attrs@),
        Item::Other => None,
    }
}

/// The builder of the component that `item` declares.
///
/// A struct is handled by [`component_from_struct`] and keeps its own
/// visibility; an impl block is handled by [`component_from_impl`] with
/// the visibility `vis`.
///
/// An item that [`check_component`] refuses is not accepted. The one
/// failure is a scope that is neither `Transient` nor `Singleton`.
pub fn component(vis: &Visibility, item: &Item) -> (r: Result<Builder, ComponentError>)
    requires
        refusal(*item) is None,
    ensures
        match r {
            Ok(b) => match *item {
                Item::Struct(s) => builds_struct(b, s),
                Item::Impl(i) => builds_impl(b, *vis, i),
                Item::Other => false,
            },
            Err(e) => item_scope_kind(*item) is None && e == ComponentError::UnknownScope,
        },
{
    match item {
        Item::Struct(s) => component_from_struct(s),
        Item::Impl(i) => component_from_impl(vis, i),
        Item::Other => unreached(),
    }
}

/// Marks the scope of a component. The item passes through unchanged: the
/// mark is read where the component's builder is planned.
pub fn scope(_args: &Path, item: Item) -> (r: Item)
    ensures
        r == item,
{
    item
}

} // verus!
