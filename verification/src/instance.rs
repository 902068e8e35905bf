use vstd::prelude::*;
use vstd::string::*;
use crate::scope::Handle;

verus! {

/// What one constructor argument received.
#[derive(Clone, Debug, PartialEq, Eq)]
pub enum Value {
    /// A borrow from the instance named, held for the construction call.
    Borrowed(Handle),
    /// The shared handle itself.
    Shared(Handle),
    /// An independent copy of the value of the instance named.
    Owned(Handle),
    /// A value pinned by an override.
    Literal(String),
}

/// The mathematical content of a [`Value`].
pub enum ValueView {
    Borrowed(int),
    Shared(int),
    Owned(int),
    Literal(Seq<char>),
}

impl View for Value {
    type V = ValueView;

    open spec fn view(&self) -> ValueView {
        match *self {
            Value::Borrowed(h) => ValueView::Borrowed(h@),
            Value::Shared(h) => ValueView::Shared(h@),
            Value::Owned(h) => ValueView::Owned(h@),
            Value::Literal(s) => ValueView::Literal(s@),
        }
    }
}

/// One constructor argument of an instance, by name.
#[derive(Clone, Debug, PartialEq, Eq)]
pub struct Field {
    pub name: String,
    pub value: Value,
}

pub struct FieldView {
    pub name: Seq<char>,
    pub value: ValueView,
}

impl View for Field {
    type V = FieldView;

    open spec fn view(&self) -> FieldView {
        FieldView { name: self.name@, value: self.value@ }
    }
}

/// A constructed component: its type and what its constructor was given,
/// in the order of the constructor's arguments.
#[derive(Clone, Debug, PartialEq, Eq)]
pub struct Instance {
    pub ty: String,
    pub fields: Vec<Field>,
}

pub struct InstanceView {
    pub ty: Seq<char>,
    pub fields: Seq<FieldView>,
}

/// The contents of a list of fields.
pub open spec fn field_views(fields: Seq<Field>) -> Seq<FieldView> {
    fields.map_values(|f: Field| f@)
}

impl View for Instance {
    type V = InstanceView;

    open spec fn view(&self) -> InstanceView {
        InstanceView { ty: self.ty@, fields: field_views(self.fields@) }
    }
}

impl InstanceView {
    /// What the argument called `name` received: the value of the first
    /// field of that name.
    pub open spec fn field(self, name: Seq<char>) -> Option<ValueView> {
        field_from(self.fields, name, 0)
    }
}

/// The value of the first field at or after position `k` that is called
/// `name`.
pub open spec fn field_from(fields: Seq<FieldView>, name: Seq<char>, k: int) -> Option<ValueView>
    decreases fields.len() - k,
{
    if k < 0 || k >= fields.len() {
        None
    } else if fields[k].name == name {
        Some(fields[k].value)
    } else {
        field_from(fields, name, k + 1)
    }
}

impl Instance {
    /// What the argument called `name` received.
    pub fn field(&self, name: &str) -> (r: Option<&Value>)
        ensures
            match r {
                Some(v) => self@.field(name@) == Some(v@),
                None => self@.field(name@) is None,
            },
    {
        let wanted = String::from_str(name);
        let mut k: usize = 0;
        while k < self.fields.len()
            invariant
                k <= self.fields.len(),
                wanted@ == name@,
                self@.field(name@) == field_from(self@.fields, name@, k as int),
            decreases self.fields.len() - k,
        {
            if self.fields[k].name == wanted {
                return Some(&self.fields[k].value);
            }
            k += 1;
        }
        None
    }
}

} // verus!
