use vstd::prelude::*;

verus! {

/// Why a resolution failed.
#[derive(Clone, Debug, PartialEq, Eq)]
pub enum InjectionError {
    /// No builder is registered for the requested type.
    NotFound(String),
    /// More than one builder matches; the names of all candidates, in
    /// registration order.
    Ambiguous(Vec<String>),
    /// The requested type is already being built further up the stack.
    CyclicDependency(String),
    /// A provider reported a failure of its own; the cause is passed on as
    /// it was given.
    BuildFailure(String),
    /// A cached handle does not refer to an instance of the declared type.
    DowncastFailure(String),
}

/// The mathematical content of an [`InjectionError`].
pub enum ErrorView {
    NotFound(Seq<char>),
    Ambiguous(Seq<Seq<char>>),
    CyclicDependency(Seq<char>),
    BuildFailure(Seq<char>),
    DowncastFailure(Seq<char>),
}

impl View for InjectionError {
    type V = ErrorView;

    open spec fn view(&self) -> ErrorView {
        match *self {
            InjectionError::NotFound(n) => ErrorView::NotFound(n@),
            InjectionError::Ambiguous(ns) => ErrorView::Ambiguous(ns@.map_values(|n: String| n@)),
            InjectionError::CyclicDependency(n) => ErrorView::CyclicDependency(n@),
            InjectionError::BuildFailure(c) => ErrorView::BuildFailure(c@),
            InjectionError::DowncastFailure(n) => ErrorView::DowncastFailure(n@),
        }
    }
}

/// Why a declaration cannot be turned into a builder.
#[derive(Clone, Copy, Debug, PartialEq, Eq, Structural)]
pub enum ComponentError {
    /// The item is neither a struct nor an impl block.
    NotAComponent,
    /// The impl block holds no function called `new`.
    MissingNew,
    /// `new` takes `self`.
    UnexpectedArgument,
    /// An argument of `new` is bound by a pattern that is not a plain name.
    UnexpectedPattern,
    /// A field of the struct has no name.
    UnnamedField,
    /// The first `scope(..)` attribute does not start with a path.
    InvalidScope,
    /// The component's type is no bare name, so that no builder can be
    /// named after it.
    InvalidName,
    /// The scope named is neither `Transient` nor `Singleton`.
    UnknownScope,
    /// A shared pointer whose arguments are not a single type.
    UnresolvedPointer,
}

/// Why an override cannot be set.
#[derive(Clone, Copy, Debug, PartialEq, Eq, Structural)]
pub enum OverrideError {
    /// The builder has no argument of that name.
    UnknownArgument,
    /// The argument is a reference: it always comes from the catalog.
    NotOverridable,
}

} // verus!
