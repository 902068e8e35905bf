use vstd::prelude::*;
use vstd::string::*;
use crate::arg::{Arg, Override, Provider, Strategy};
use crate::builder::{arg_views, Builder, BuilderView};
use crate::error::{ErrorView, InjectionError};
use crate::instance::{field_views, Field, FieldView, Instance, InstanceView, Value, ValueView};
use crate::laws::{consistent, extends, is_downcast_failure, law_resolution, names_instance};
use crate::model;
use crate::model::CatalogView;
use crate::scope::{Handle, Scope};

verus! {

/// The contents of a list of builders.
pub open spec fn builder_views(builders: Seq<Builder>) -> Seq<BuilderView> {
    builders.map_values(|b: Builder| b@)
}

/// The contents of a list of instances.
pub open spec fn instance_views(instances: Seq<Instance>) -> Seq<InstanceView> {
    instances.map_values(|x: Instance| x@)
}

/// The content of the result of a resolution.
pub open spec fn handle_outcome(r: Result<Handle, InjectionError>) -> Result<int, ErrorView> {
    match r {
        Ok(h) => Ok(h@),
        Err(e) => Err(e@),
    }
}

/// The content of the result of obtaining one argument.
pub open spec fn value_outcome(r: Result<Value, InjectionError>) -> Result<ValueView, ErrorView> {
    match r {
        Ok(v) => Ok(v@),
        Err(e) => Err(e@),
    }
}

/// The content of the result of preparing a list of arguments.
pub open spec fn fields_outcome(r: Result<Vec<Field>, InjectionError>) -> Result<
    Seq<FieldView>,
    ErrorView,
> {
    match r {
        Ok(fs) => Ok(field_views(fs@)),
        Err(e) => Err(e@),
    }
}

/// The registry while it is assembled: builders are added one by one, then
/// the registry is sealed into a [`Catalog`].
pub struct CatalogBuilder {
    builders: Vec<Builder>,
}

impl View for CatalogBuilder {
    type V = Seq<BuilderView>;

    open spec fn view(&self) -> Seq<BuilderView> {
        builder_views(self.builders())
    }
}

impl CatalogBuilder {
    /// The builders registered, as they were given, in registration order.
    pub closed spec fn builders(&self) -> Seq<Builder> {
        self.builders@
    }

    /// A registry without builders.
    pub fn new() -> (r: CatalogBuilder)
        ensures
            r.builders() == Seq::<Builder>::empty(),
            r@ == Seq::<BuilderView>::empty(),
    {
        let r = CatalogBuilder { builders: Vec::new() };
        assert(r@ =~= Seq::<BuilderView>::empty());
        r
    }

    /// Registers `builder` under the type that it produces, after the
    /// builders registered before. The builder is kept as it is given.
    pub fn add_builder(&mut self, builder: Builder)
        ensures
            final(self).builders() == old(self).builders().push(builder),
            final(self)@ == old(self)@.push(builder@),
    {
        self.builders.push(builder);
        assert(self@ =~= old(self)@.push(builder@));
    }

    /// The number of builders registered.
    pub fn len(&self) -> (r: usize)
        ensures
            r == self@.len(),
    {
        self.builders.len()
    }

    /// Seals the registry. The catalog holds the builders as they were
    /// registered and no instance yet.
    pub fn build(self) -> (r: Catalog)
        ensures
            r.builders() == self.builders(),
            r.instances() == Seq::<Instance>::empty(),
            r@ == (CatalogView { builders: self@, instances: Seq::empty() }),
    {
        let r = Catalog { builders: self.builders, instances: Vec::new() };
        assert(r@.instances =~= Seq::<InstanceView>::empty());
        r
    }
}

/// The sealed registry: it resolves types to instances.
///
/// The builders and their order are fixed. What changes with a resolution
/// is what the scopes have cached and the list of instances constructed.
pub struct Catalog {
    builders: Vec<Builder>,
    instances: Vec<Instance>,
}

impl View for Catalog {
    type V = CatalogView;

    open spec fn view(&self) -> CatalogView {
        CatalogView {
            builders: builder_views(self.builders()),
            instances: instance_views(self.instances()),
        }
    }
}

fn clone_args(args: &Vec<Arg>) -> (r: Vec<Arg>)
    ensures
        r@ == args@,
{
    let mut r: Vec<Arg> = Vec::new();
    let mut k: usize = 0;
    while k < args.len()
        invariant
            k <= args.len(),
            r@.len() == k,
            forall|j: int| 0 <= j < k ==> r@[j] == args@[j],
        decreases args.len() - k,
    {
        r.push(args[k].clone());
        k += 1;
    }
    assert(r@ =~= args@);
    r
}

impl Catalog {
    /// The builders registered, in registration order.
    pub closed spec fn builders(&self) -> Seq<Builder> {
        self.builders@
    }

    /// The instances constructed so far, in order of construction.
    pub closed spec fn instances(&self) -> Seq<Instance> {
        self.instances@
    }

    /// Whether the catalog can have come out of `before` by resolutions:
    /// it holds the same builders, each as it was but for what its scope
    /// has cached, and the instances of `before` under their handles.
    pub open spec fn keeps(&self, before: Catalog) -> bool {
        &&& self.builders().len() == before.builders().len()
        &&& forall|i: int|
            0 <= i < before.builders().len() ==> (#[trigger] self.builders()[i]).same_plan(
                before.builders()[i],
            )
        &&& before.instances().len() <= self.instances().len()
        &&& forall|h: int|
            0 <= h < before.instances().len() ==> #[trigger] self.instances()[h]
                == before.instances()[h]
    }

    /// The number of builders registered.
    pub fn len(&self) -> (r: usize)
        ensures
            r == self@.builders.len(),
    {
        self.builders.len()
    }

    /// The number of instances constructed so far.
    pub fn instance_count(&self) -> (r: usize)
        ensures
            r == self@.instances.len(),
    {
        self.instances.len()
    }

    /// The builder registered at position `i`.
    pub fn builder(&self, i: usize) -> (r: Option<&Builder>)
        ensures
            match r {
                Some(b) => i < self.builders().len() && *b == self.builders()[i as int],
                None => i >= self@.builders.len(),
            },
    {
        if i < self.builders.len() {
            Some(&self.builders[i])
        } else {
            None
        }
    }

    /// The instance that `h` names.
    pub fn instance(&self, h: Handle) -> (r: Option<&Instance>)
        ensures
            match r {
                Some(x) => h@ < self.instances().len() && *x == self.instances()[h@],
                None => h@ >= self@.instances.len(),
            },
    {
        if h.index < self.instances.len() {
            Some(&self.instances[h.index])
        } else {
            None
        }
    }

    /// The checked cast of a handle to the type `ty`: the handle itself
    /// where it names an instance of that type, a downcast failure
    /// otherwise.
    pub fn downcast(&self, h: Handle, ty: &str) -> (r: Result<Handle, InjectionError>)
        ensures
            handle_outcome(r) == model::downcast(self@, h@, ty@),
    {
        let wanted = String::from_str(ty);
        if h.index < self.instances.len() {
            if self.instances[h.index].ty == wanted {
                return Ok(h);
            }
        }
        Err(InjectionError::DowncastFailure(wanted))
    }

    /// The one builder registered for `ty`.
    pub fn select(&self, ty: &str) -> (r: Result<usize, InjectionError>)
        ensures
            match r {
                Ok(i) => i < self@.builders.len() && model::select(self@.builders, ty@) == Ok::<
                    int,
                    ErrorView,
                >(i as int),
                Err(e) => model::select(self@.builders, ty@) == Err::<int, ErrorView>(e@),
            },
    {
        let wanted = String::from_str(ty);
        let mut found: Vec<usize> = Vec::new();
        let mut k: usize = 0;
        while k < self.builders.len()
            invariant
                k <= self.builders.len(),
                wanted@ == ty@,
                found@.map_values(|i: usize| i as int) == model::candidates_among(
                    self@.builders,
                    ty@,
                    k as int,
                ),
                forall|j: int| 0 <= j < found@.len() ==> found@[j] < k,
            decreases self.builders.len() - k,
        {
            let ghost before = found@;
            if self.builders[k].impl_type.text == wanted {
                found.push(k);
                assert(found@.map_values(|i: usize| i as int) =~= before.map_values(
                    |i: usize| i as int,
                ).push(k as int));
            }
            k += 1;
        }
        let ghost c = model::candidates(self@.builders, ty@);
        assert(c.len() == found@.len());
        if found.len() == 0 {
            Err(InjectionError::NotFound(wanted))
        } else if found.len() == 1 {
            assert(c[0] == found@[0] as int);
            Ok(found[0])
        } else {
            let mut names: Vec<String> = Vec::new();
            let mut j: usize = 0;
            while j < found.len()
                invariant
                    j <= found.len(),
                    names@.len() == j,
                    forall|m: int| 0 <= m < found@.len() ==> found@[m] < self.builders@.len(),
                    forall|m: int|
                        0 <= m < j ==> (#[trigger] names@[m])@ == self@.builders[found@[m] as int].ty,
                decreases found.len() - j,
            {
                names.push(self.builders[found[j]].impl_type.text.clone());
                j += 1;
            }
            let e = InjectionError::Ambiguous(names);
            proof {
                let want = c.map_values(|i: int| self@.builders[i].ty);
                let have = names@.map_values(|n: String| n@);
                assert forall|m: int| 0 <= m < want.len() implies want[m] == have[m] by {
                    assert(c[m] == found@.map_values(|i: usize| i as int)[m]);
                }
                assert(have =~= want);
            }
            Err(e)
        }
    }

    /// Resolves the type `ty`: finds the one builder registered for it and
    /// has it hand out an instance.
    ///
    /// A singleton that was built before is handed out again; anything
    /// else is built now, its arguments first, each by its override where
    /// one is set and by a resolution of its own otherwise. A type that is
    /// asked for again while it is being built, through whatever kind of
    /// argument, is a cyclic dependency. The outcome is the one that
    /// [`model::get`] describes, error for error.
    ///
    /// Whatever the outcome, the registry is as it was, populated scopes
    /// hold what they held and earlier instances are still there; a handle
    /// returned names an instance of the type asked for.
    pub fn get(&mut self, ty: &str) -> (r: Result<Handle, InjectionError>)
        ensures
            (final(self)@, handle_outcome(r)) == model::get(old(self)@, ty@),
            final(self).keeps(*old(self)),
            extends(old(self)@, final(self)@, model::idle(old(self)@)),
            names_instance(final(self)@, handle_outcome(r), ty@),
            consistent(old(self)@) ==> consistent(final(self)@) && !is_downcast_failure(
                handle_outcome(r),
            ),
    {
        proof {
            law_resolution(self@, ty@);
        }
        let mut busy: Vec<bool> = Vec::new();
        let mut k: usize = 0;
        while k < self.builders.len()
            invariant
                k <= self.builders.len(),
                busy@.len() == k,
                forall|j: int| 0 <= j < k ==> !busy@[j],
                *self == *old(self),
            decreases self.builders.len() - k,
        {
            busy.push(false);
            k += 1;
        }
        assert(busy@ =~= model::idle(self@));
        self.resolve(ty, &mut busy)
    }

    /// Resolves `ty` while the builders marked in `busy` are in progress.
    fn resolve(&mut self, ty: &str, busy: &mut Vec<bool>) -> (r: Result<Handle, InjectionError>)
        requires
            old(busy)@.len() == old(self)@.builders.len(),
        ensures
            final(busy)@ == old(busy)@,
            final(self)@.builders.len() == old(self)@.builders.len(),
            final(self).keeps(*old(self)),
            (final(self)@, handle_outcome(r)) == model::resolve(old(self)@, ty@, old(busy)@),
        decreases model::free(old(busy)@), 1nat, 0nat,
    {
        match self.select(ty) {
            Err(e) => Err(e),
            Ok(i) => self.produce(i, busy),
        }
    }

    /// Builder `i` hands out an instance: the cached one, or a new one.
    fn produce(&mut self, i: usize, busy: &mut Vec<bool>) -> (r: Result<Handle, InjectionError>)
        requires
            i < old(self)@.builders.len(),
            old(busy)@.len() == old(self)@.builders.len(),
        ensures
            final(busy)@ == old(busy)@,
            final(self)@.builders.len() == old(self)@.builders.len(),
            final(self).keeps(*old(self)),
            (final(self)@, handle_outcome(r)) == model::produce(old(self)@, i as int, old(busy)@),
        decreases model::free(old(busy)@), 0nat, 0nat,
    {
        let ty = self.builders[i].impl_type.text.clone();
        match self.builders[i].scope.get() {
            Some(h) => {
                return self.downcast(h, ty.as_str());
            },
            None => {},
        }
        if busy[i] {
            return Err(InjectionError::CyclicDependency(ty));
        }
        let args = clone_args(&self.builders[i].args);
        busy.set(i, true);
        proof {
            model::lemma_free_update(old(busy)@, i as int);
        }
        let acc: Vec<Field> = Vec::new();
        assert(field_views(acc@) =~= Seq::<FieldView>::empty());
        assert(arg_views(args@) == old(self)@.builders[i as int].args);
        let prepared = self.prepare(&args, 0, busy, acc);
        busy.set(i, false);
        assert(busy@ =~= old(busy)@);
        match prepared {
            Err(e) => Err(e),
            Ok(fields) => {
                let ghost c1 = self@;
                let h = Handle { index: self.instances.len() };
                let made = Instance { ty, fields };
                self.instances.push(made);
                self.builders[i].scope.set(h);
                proof {
                    let want = model::commit(c1, i as int, made@);
                    assert(self@.instances =~= want.instances);
                    assert(self@.builders =~= want.builders);
                }
                Ok(h)
            },
        }
    }

    /// Prepares the arguments `args` from position `k` on and adds them to
    /// `acc`.
    fn prepare(&mut self, args: &Vec<Arg>, k: usize, busy: &mut Vec<bool>, acc: Vec<Field>) -> (r:
        Result<Vec<Field>, InjectionError>)
        requires
            old(busy)@.len() == old(self)@.builders.len(),
            k <= args.len(),
        ensures
            final(busy)@ == old(busy)@,
            final(self)@.builders.len() == old(self)@.builders.len(),
            final(self).keeps(*old(self)),
            (final(self)@, fields_outcome(r)) == model::prepare(
                old(self)@,
                arg_views(args@),
                k as int,
                old(busy)@,
                field_views(acc@),
            ),
        decreases model::free(old(busy)@), 3nat, args.len() - k,
    {
        if k >= args.len() {
            return Ok(acc);
        }
        match self.provide(&args[k], busy) {
            Err(e) => Err(e),
            Ok(v) => {
                let mut fields = acc;
                let field = Field { name: args[k].name.clone(), value: v };
                fields.push(field);
                assert(field_views(fields@) =~= field_views(acc@).push(field@));
                self.prepare(args, k + 1, busy, fields)
            },
        }
    }

    /// Obtains one argument: by its override, or from the catalog.
    fn provide(&mut self, arg: &Arg, busy: &mut Vec<bool>) -> (r: Result<Value, InjectionError>)
        requires
            old(busy)@.len() == old(self)@.builders.len(),
        ensures
            final(busy)@ == old(busy)@,
            final(self)@.builders.len() == old(self)@.builders.len(),
            final(self).keeps(*old(self)),
            (final(self)@, value_outcome(r)) == model::provide(old(self)@, arg@, old(busy)@),
        decreases model::free(old(busy)@), 2nat, 0nat,
    {
        if !arg.is_overridable() {
            return self.fetch(arg.target.text.as_str(), arg.strategy, busy);
        }
        match &arg.substitute {
            Some(Override::Value(v)) => Ok(Value::Literal(v.clone())),
            Some(Override::Function(Provider::Failure(cause))) => Err(
                InjectionError::BuildFailure(cause.clone()),
            ),
            Some(Override::Function(Provider::Lookup(ty))) => self.fetch(
                ty.as_str(),
                arg.strategy,
                busy,
            ),
            None => self.fetch(arg.target.text.as_str(), arg.strategy, busy),
        }
    }

    /// Resolves `ty` and hands the instance on as `strategy` says.
    fn fetch(&mut self, ty: &str, strategy: Strategy, busy: &mut Vec<bool>) -> (r: Result<
        Value,
        InjectionError,
    >)
        requires
            old(busy)@.len() == old(self)@.builders.len(),
        ensures
            final(busy)@ == old(busy)@,
            final(self)@.builders.len() == old(self)@.builders.len(),
            final(self).keeps(*old(self)),
            (final(self)@, value_outcome(r)) == model::fetch(
                model::resolve(old(self)@, ty@, old(busy)@),
                strategy,
            ),
        decreases model::free(old(busy)@), 1nat, 1nat,
    {
        match self.resolve(ty, busy) {
            Err(e) => Err(e),
            Ok(h) => Ok(
                match strategy {
                    Strategy::Borrowed => Value::Borrowed(h),
                    Strategy::Shared => Value::Shared(h),
                    Strategy::Owned => Value::Owned(h),
                },
            ),
        }
    }
}

} // verus!
