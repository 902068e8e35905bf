use vstd::prelude::*;
use vstd::string::*;

verus! {

/// The arguments that follow the last segment of a path type.
#[derive(Debug, PartialEq, Eq)]
pub enum Arguments {
    /// None are written: `Arc`.
    Absent,
    /// Written between angle brackets: `Arc<Foo>`. The field holds the list
    /// read as a single type, where it is one; `Arc<A, B>` and `Arc<'a>` are
    /// not.
    AngleBracketed(Option<Box<TypeExpr>>),
    /// Written between round brackets: `Fn(A) -> B`.
    Parenthesized,
}

/// What a type expression is at its top.
#[derive(Debug, PartialEq, Eq)]
pub enum TypeForm {
    /// A reference, `&T` or `&mut T`, to the type in the field.
    Reference(Box<TypeExpr>),
    /// A path such as `Foo`, `Arc<Foo>` or `std::sync::Arc<Foo>`.
    Path {
        /// The path starts with a qualified self type, `<T as Trait>::Out`.
        qualified: bool,
        /// The path starts with `::`.
        global: bool,
        /// The number of segments: 1 for `Foo`, 3 for `std::sync::Arc<Foo>`.
        segments: usize,
        /// The name of the last segment.
        last: String,
        /// The arguments of the last segment.
        arguments: Arguments,
    },
    /// Any other type: a tuple, a slice, a trait object and so on.
    Other,
}

/// A type as a component declares it.
///
/// `text` is the type as written; two type expressions name the same type
/// exactly if their texts are equal. `form` holds what the classification
/// of constructor arguments looks at.
#[derive(Debug, PartialEq, Eq)]
pub struct TypeExpr {
    pub text: String,
    pub form: TypeForm,
}

impl Clone for Arguments {
    fn clone(&self) -> (r: Self)
        ensures
            r == *self,
        decreases self,
    {
        match self {
            Arguments::Absent => Arguments::Absent,
            Arguments::AngleBracketed(inner) => Arguments::AngleBracketed(
                match inner {
                    Some(t) => Some(Box::new((&**t).clone())),
                    None => None,
                },
            ),
            Arguments::Parenthesized => Arguments::Parenthesized,
        }
    }
}

impl Clone for TypeForm {
    fn clone(&self) -> (r: Self)
        ensures
            r == *self,
        decreases self,
    {
        match self {
            TypeForm::Reference(elem) => TypeForm::Reference(Box::new((&**elem).clone())),
            TypeForm::Path { qualified, global, segments, last, arguments } => TypeForm::Path {
                qualified: *qualified,
                global: *global,
                segments: *segments,
                last: last.clone(),
                arguments: arguments.clone(),
            },
            TypeForm::Other => TypeForm::Other,
        }
    }
}

impl Clone for TypeExpr {
    fn clone(&self) -> (r: Self)
        ensures
            r == *self,
        decreases self,
    {
        TypeExpr { text: self.text.clone(), form: self.form.clone() }
    }
}

impl TypeExpr {
    /// The type is a bare name: a path of one segment, without a qualified
    /// self type, leading colons or arguments. Only such a type can give
    /// its name to a builder.
    pub open spec fn is_bare_name(self) -> bool {
        self.form matches TypeForm::Path { qualified, global, segments, arguments, .. }
            && !qualified && !global && segments == 1 && arguments is Absent
    }

    /// Whether the type is a bare name; see [`TypeExpr::is_bare_name`].
    pub fn bare_name(&self) -> (r: bool)
        ensures
            r == self.is_bare_name(),
    {
        match &self.form {
            TypeForm::Path { qualified, global, segments, arguments, .. } => {
                !*qualified && !*global && *segments == 1 && match arguments {
                    Arguments::Absent => true,
                    _ => false,
                }
            },
            _ => false,
        }
    }

    /// The type that a bare name denotes.
    pub fn from_ident(ident: &str) -> (r: TypeExpr)
        ensures
            r.text@ == ident@,
            r.is_bare_name(),
            r.form matches TypeForm::Path { last, .. } && last@ == ident@,
    {
        TypeExpr {
            text: String::from_str(ident),
            form: TypeForm::Path {
                qualified: false,
                global: false,
                segments: 1,
                last: String::from_str(ident),
                arguments: Arguments::Absent,
            },
        }
    }

    /// The type behind a reference; any other type is its own referent.
    pub open spec fn referent(self) -> TypeExpr {
        match self.form {
            TypeForm::Reference(elem) => *elem,
            _ => self,
        }
    }

    /// The type is a shared pointer: a path without a qualified self type
    /// whose last segment is named `Arc`, however many segments lead up to
    /// it. `Arc<Foo>`, `sync::Arc<Foo>` and `::std::sync::Arc<Foo>` all
    /// are.
    pub open spec fn names_shared_pointer(self) -> bool {
        self.form matches TypeForm::Path { qualified, last, .. } && !qualified && last@ == "Arc"@
    }

    /// The type that a shared pointer points to, where the pointer's
    /// arguments give one: `Foo` for `Arc<Foo>`. A type that is no shared
    /// pointer, and a pointer written without angle brackets, is its own
    /// pointee. `None` for a pointer whose arguments are not a single type.
    pub open spec fn pointee(self) -> Option<TypeExpr> {
        if self.names_shared_pointer() {
            match self.form {
                TypeForm::Path { arguments: Arguments::AngleBracketed(Some(inner)), .. } => Some(
                    *inner,
                ),
                TypeForm::Path { arguments: Arguments::AngleBracketed(None), .. } => None,
                _ => Some(self),
            }
        } else {
            Some(self)
        }
    }
}

/// Whether `typ` is a reference.
pub fn is_reference(typ: &TypeExpr) -> (r: bool)
    ensures
        r == (typ.form is Reference),
{
    match &typ.form {
        TypeForm::Reference(_) => true,
        _ => false,
    }
}

/// The type that `typ` refers to, or `typ` itself where it is no reference.
pub fn strip_reference(typ: &TypeExpr) -> (r: TypeExpr)
    ensures
        r == typ.referent(),
{
    match &typ.form {
        TypeForm::Reference(elem) => (&**elem).clone(),
        _ => typ.clone(),
    }
}

/// Whether `typ` is a shared pointer: a path without a qualified self type
/// whose last segment is named `Arc`.
pub fn is_smart_ptr(typ: &TypeExpr) -> (r: bool)
    ensures
        r == typ.names_shared_pointer(),
{
    match &typ.form {
        TypeForm::Path { qualified, last, .. } => {
            let arc = String::from_str("Arc");
            !*qualified && *last == arc
        },
        _ => false,
    }
}

/// Whether `typ` can be stripped of its shared pointer: it is no shared
/// pointer, or one whose arguments are absent, in round brackets, or a
/// single type.
pub fn has_pointee(typ: &TypeExpr) -> (r: bool)
    ensures
        r == typ.pointee() is Some,
{
    if !is_smart_ptr(typ) {
        return true;
    }
    match &typ.form {
        TypeForm::Path { arguments: Arguments::AngleBracketed(None), .. } => false,
        _ => true,
    }
}

/// The type that the shared pointer `typ` points to; see
/// [`TypeExpr::pointee`]. A shared pointer whose arguments are not a
/// single type has no pointee and is not accepted; [`has_pointee`] tells.
pub fn strip_smart_ptr(typ: &TypeExpr) -> (r: TypeExpr)
    requires
        typ.pointee() is Some,
    ensures
        Some(r) == typ.pointee(),
{
    if is_smart_ptr(typ) {
        if let TypeForm::Path { arguments: Arguments::AngleBracketed(Some(inner)), .. } = &typ.form {
            return (&**inner).clone();
        }
    }
    typ.clone()
}

} // verus!
