use vstd::prelude::*;
use vstd::string::*;
use crate::error::ComponentError;
use crate::scope::ScopeKind;
use crate::ty::TypeExpr;

verus! {

/// A path such as `scope` or `::dill::Singleton`.
#[derive(Debug, PartialEq, Eq)]
pub struct Path {
    /// The path as written.
    pub text: String,
    /// The name that the path consists of, where it is a bare name: one
    /// segment, no leading colons, no arguments.
    pub ident: Option<String>,
    /// The name of the last segment.
    pub last: String,
}

impl Clone for Path {
    fn clone(&self) -> (r: Self)
        ensures
            r == *self,
    {
        Path {
            text: self.text.clone(),
            ident: match &self.ident {
                Some(i) => Some(i.clone()),
                None => None,
            },
            last: self.last.clone(),
        }
    }
}

impl Path {
    /// Whether the path is the bare name `name`.
    pub open spec fn names(self, name: Seq<char>) -> bool {
        self.ident matches Some(id) && id@ == name
    }

    /// Whether the path is the bare name `name`.
    pub fn is_ident(&self, name: &str) -> (r: bool)
        ensures
            r == self.names(name@),
    {
        match &self.ident {
            Some(id) => {
                let wanted = String::from_str(name);
                *id == wanted
            },
            None => false,
        }
    }

    /// The scope that the path names, going by its last segment.
    pub open spec fn scope_kind(self) -> Option<ScopeKind> {
        if self.last@ == "Transient"@ {
            Some(ScopeKind::Transient)
        } else if self.last@ == "Singleton"@ {
            Some(ScopeKind::Singleton)
        } else {
            None
        }
    }

    /// The scope that the path names: `Transient` or `Singleton`, whatever
    /// module the path takes it from.
    pub fn as_scope_kind(&self) -> (r: Option<ScopeKind>)
        ensures
            r == self.scope_kind(),
    {
        let transient = String::from_str("Transient");
        let singleton = String::from_str("Singleton");
        if self.last == transient {
            Some(ScopeKind::Transient)
        } else if self.last == singleton {
            Some(ScopeKind::Singleton)
        } else {
            None
        }
    }

    /// The path of the scope that a component has when it declares none.
    pub fn default_scope() -> (r: Path)
        ensures
            r.text@ == "::dill::Transient"@,
            r.ident is None,
            r.last@ == "Transient"@,
            r.scope_kind() == Some(ScopeKind::Transient),
    {
        Path {
            text: String::from_str("::dill::Transient"),
            ident: None,
            last: String::from_str("Transient"),
        }
    }
}

/// One entry of the list in an attribute such as `scope(Singleton)`.
#[derive(Clone, Debug, PartialEq, Eq)]
pub enum Nested {
    /// A bare path.
    Path(Path),
    /// Anything else: a literal, a nested list, a name with a value.
    Other,
}

/// The content of an attribute.
#[derive(Clone, Debug, PartialEq, Eq)]
pub enum Meta {
    /// `name`
    Path(Path),
    /// `name(a, b, ..)`
    List { path: Path, nested: Vec<Nested> },
    /// `name = value`
    NameValue { path: Path },
}

/// An attribute on a declaration.
#[derive(Clone, Debug, PartialEq, Eq)]
pub struct Attribute {
    /// What the attribute says, where it reads as one of the three forms of
    /// [`Meta`].
    pub meta: Option<Meta>,
}

/// How far a declaration is visible.
#[derive(Debug, PartialEq, Eq)]
pub enum Visibility {
    Public,
    Crate,
    /// `pub(in path)`, with the restriction as written.
    Restricted(String),
    Inherited,
}

impl Clone for Visibility {
    fn clone(&self) -> (r: Self)
        ensures
            r == *self,
    {
        match self {
            Visibility::Public => Visibility::Public,
            Visibility::Crate => Visibility::Crate,
            Visibility::Restricted(p) => Visibility::Restricted(p.clone()),
            Visibility::Inherited => Visibility::Inherited,
        }
    }
}

/// A field of a struct.
#[derive(Clone, Debug, PartialEq, Eq)]
pub struct FieldDecl {
    /// The field's name; a field of a tuple struct has none.
    pub ident: Option<String>,
    pub ty: TypeExpr,
}

/// A struct declaration.
#[derive(Clone, Debug, PartialEq, Eq)]
pub struct ItemStruct {
    pub attrs: Vec<Attribute>,
    pub vis: Visibility,
    pub ident: String,
    pub fields: Vec<FieldDecl>,
}

/// The pattern that binds a function argument.
#[derive(Clone, Debug, PartialEq, Eq)]
pub enum Pat {
    /// A plain name.
    Ident(String),
    /// Any other pattern.
    Other,
}

/// An argument of a function.
#[derive(Clone, Debug, PartialEq, Eq)]
pub enum FnArg {
    /// `self` in any of its forms.
    Receiver,
    /// `pattern: type`
    Typed { pat: Pat, ty: TypeExpr },
}

/// A function in an impl block.
#[derive(Clone, Debug, PartialEq, Eq)]
pub struct Method {
    pub ident: String,
    pub inputs: Vec<FnArg>,
}

/// An item of an impl block.
#[derive(Clone, Debug, PartialEq, Eq)]
pub enum ImplItem {
    Method(Method),
    /// A constant, a type, a macro call.
    Other,
}

/// An impl block.
#[derive(Clone, Debug, PartialEq, Eq)]
pub struct ItemImpl {
    pub attrs: Vec<Attribute>,
    pub self_ty: TypeExpr,
    pub items: Vec<ImplItem>,
}

/// A declaration that a component may be made from.
#[derive(Clone, Debug, PartialEq, Eq)]
pub enum Item {
    Struct(ItemStruct),
    Impl(ItemImpl),
    /// Any other item.
    Other,
}

/// Whether the attribute is a list called `scope`.
pub open spec fn is_scope_list(a: Attribute) -> bool {
    a.meta matches Some(Meta::List { path, .. }) && path.names("scope"@)
}

/// The position of the first `scope(..)` attribute at or after `k`.
pub open spec fn first_scope_from(attrs: Seq<Attribute>, k: int) -> Option<int>
    decreases attrs.len() - k,
{
    if k < 0 || k >= attrs.len() {
        None
    } else if is_scope_list(attrs[k]) {
        Some(k)
    } else {
        first_scope_from(attrs, k + 1)
    }
}

/// The scope that a list of attributes declares.
///
/// Only the first `scope(..)` attribute counts, and of it only the first
/// entry, which has to be a path. Without such an attribute no scope is
/// declared.
pub open spec fn declared_scope(attrs: Seq<Attribute>) -> Result<Option<Path>, ComponentError> {
    match first_scope_from(attrs, 0) {
        None => Ok(None),
        Some(i) => match attrs[i].meta {
            Some(Meta::List { nested, .. }) => if nested@.len() > 0 && nested@[0] is Path {
                Ok(Some(nested@[0]->Path_0))
            } else {
                Err(ComponentError::InvalidScope)
            },
            _ => Err(ComponentError::InvalidScope),
        },
    }
}

/// What [`first_scope_from`] finds is the least position of a `scope(..)`
/// attribute, and it finds nothing only where there is none.
pub proof fn law_first_scope_is_least(attrs: Seq<Attribute>, k: int)
    requires
        0 <= k <= attrs.len(),
    ensures
        match first_scope_from(attrs, k) {
            Some(i) => {
                &&& k <= i < attrs.len()
                &&& is_scope_list(attrs[i])
                &&& forall|j: int| k <= j < i ==> !is_scope_list(#[trigger] attrs[j])
            },
            None => forall|j: int| k <= j < attrs.len() ==> !is_scope_list(#[trigger] attrs[j]),
        },
    decreases attrs.len() - k,
{
    if k < attrs.len() && !is_scope_list(attrs[k]) {
        law_first_scope_is_least(attrs, k + 1);
    }
}

/// Why the attributes declare no scope that can be read, if so: the first
/// `scope(..)` attribute does not start with a path.
pub open spec fn scope_refusal(attrs: Seq<Attribute>) -> Option<ComponentError> {
    match declared_scope(attrs) {
        Ok(_) => None,
        Err(e) => Some(e),
    }
}

/// Why the attributes declare no scope that can be read, if so.
pub fn check_scope(attrs: &Vec<Attribute>) -> (r: Option<ComponentError>)
    ensures
        r == scope_refusal(attrs@),
{
    let mut k: usize = 0;
    while k < attrs.len()
        invariant
            k <= attrs.len(),
            first_scope_from(attrs@, 0) == first_scope_from(attrs@, k as int),
        decreases attrs.len() - k,
    {
        match &attrs[k].meta {
            Some(Meta::List { path, nested }) => {
                if path.is_ident("scope") {
                    if nested.len() > 0 {
                        match &nested[0] {
                            Nested::Path(_) => {
                                return None;
                            },
                            _ => {},
                        }
                    }
                    return Some(ComponentError::InvalidScope);
                }
            },
            _ => {},
        }
        k += 1;
    }
    None
}

/// Looks for a `scope(X)` attribute and returns `X`.
///
/// A first `scope(..)` attribute that is empty or does not start with a
/// path is not accepted; [`check_scope`] tells.
pub fn get_scope(attrs: &Vec<Attribute>) -> (r: Option<Path>)
    requires
        scope_refusal(attrs@) is None,
    ensures
        Ok::<Option<Path>, ComponentError>(r) == declared_scope(attrs@),
{
    let mut k: usize = 0;
    while k < attrs.len()
        invariant
            k <= attrs.len(),
            scope_refusal(attrs@) is None,
            first_scope_from(attrs@, 0) == first_scope_from(attrs@, k as int),
        decreases attrs.len() - k,
    {
        if let Some(Meta::List { path, nested }) = &attrs[k].meta {
            if path.is_ident("scope") {
                assert(first_scope_from(attrs@, 0) == Some(k as int));
                if let Nested::Path(p) = &nested[0] {
                    return Some(p.clone());
                }
            }
        }
        k += 1;
    }
    None
}

/// Whether the item is a function called `new`.
pub open spec fn is_new(item: ImplItem) -> bool {
    item matches ImplItem::Method(m) && m.ident@ == "new"@
}

/// The position of the first function called `new` at or after `k`.
pub open spec fn first_new_from(items: Seq<ImplItem>, k: int) -> Option<int>
    decreases items.len() - k,
{
    if k < 0 || k >= items.len() {
        None
    } else if is_new(items[k]) {
        Some(k)
    } else {
        first_new_from(items, k + 1)
    }
}

/// The first function called `new` among the items of an impl block.
pub open spec fn constructor(items: Seq<ImplItem>) -> Option<Method> {
    match first_new_from(items, 0) {
        Some(i) => Some(items[i]->Method_0),
        None => None,
    }
}

/// What [`first_new_from`] finds is the least position of a function called
/// `new`, and it finds nothing only where there is none.
pub proof fn law_first_new_is_least(items: Seq<ImplItem>, k: int)
    requires
        0 <= k <= items.len(),
    ensures
        match first_new_from(items, k) {
            Some(i) => {
                &&& k <= i < items.len()
                &&& is_new(items[i])
                &&& forall|j: int| k <= j < i ==> !is_new(#[trigger] items[j])
            },
            None => forall|j: int| k <= j < items.len() ==> !is_new(#[trigger] items[j]),
        },
    decreases items.len() - k,
{
    if k < items.len() && !is_new(items[k]) {
        law_first_new_is_least(items, k + 1);
    }
}

/// Searches the items of an impl block for the function `new`.
pub fn get_new(impl_items: &Vec<ImplItem>) -> (r: Option<&Method>)
    ensures
        match r {
            Some(m) => constructor(impl_items@) == Some(*m),
            None => constructor(impl_items@) is None,
        },
{
    let new = String::from_str("new");
    let mut k: usize = 0;
    while k < impl_items.len()
        invariant
            k <= impl_items.len(),
            new@ == "new"@,
            first_new_from(impl_items@, 0) == first_new_from(impl_items@, k as int),
        decreases impl_items.len() - k,
    {
        match &impl_items[k] {
            ImplItem::Method(m) => {
                if m.ident == new {
                    return Some(m);
                }
            },
            _ => {},
        }
        k += 1;
    }
    None
}

} // verus!
