//! One way to manage several instances and to resolve imports to exports
//! among them: by name.

use vstd::prelude::*;
use vstd::hash_map::StringHashMap;
use crate::resolver::{Export, Instance, Resolver};

verus! {

/// A namespace containing instances keyed by name.
///
/// Note that `Namespace` implements the `Resolver` trait, so it can resolve
/// imports using defined exports.
pub struct Namespace {
    /// Mapping from identifiers to instances.
    names: StringHashMap<Instance>,
}

impl View for Namespace {
    type V = Map<Seq<char>, Instance>;

    closed spec fn view(&self) -> Map<Seq<char>, Instance> {
        self.names@
    }
}

/// What a namespace that binds `names` resolves an import to: nothing where
/// no instance has the name `name`, else what that instance exports as
/// `field`.
pub open spec fn resolution_in(names: Map<Seq<char>, Instance>, name: Seq<char>, field: Seq<char>) -> Option<
    Export,
> {
    if names.contains_key(name) {
        names[name].lookup_spec(field)
    } else {
        None
    }
}

impl Namespace {
    /// Construct a new `Namespace`.
    pub fn new() -> (namespace: Self)
        ensures
            namespace@ == Map::<Seq<char>, Instance>::empty(),
    {
        Self { names: StringHashMap::new() }
    }

    /// Install a new `Instance` in this `Namespace` under the given name. An
    /// instance that had the name before is replaced.
    pub fn name_instance(&mut self, name: String, instance: Instance)
        ensures
            final(self)@ == old(self)@.insert(name@, instance),
    {
        self.names.insert(name, instance);
    }

    /// Get the instance registered with the given `name`.
    pub fn get_instance(&self, name: &str) -> (instance: Option<&Instance>)
        ensures
            instance.is_some() == self@.contains_key(name@),
            instance.is_some() ==> *instance.unwrap() == self@[name@],
    {
        self.names.get(name)
    }
}

impl Resolver for Namespace {
    open spec fn resolution(&self, name: Seq<char>, field: Seq<char>) -> Option<Export> {
        resolution_in(self@, name, field)
    }

    fn resolve(&mut self, name: &str, field: &str) -> (export: Option<Export>)
        ensures
            final(self)@ == old(self)@,
    {
        match self.names.get(name) {
            Some(instance) => instance.lookup(field),
            None => None,
        }
    }
}

/// Of two instances registered under one name, the later one is the one
/// that the name gives, and the one that its imports resolve in.
pub proof fn lemma_later_registration_wins(
    names: Map<Seq<char>, Instance>,
    name: Seq<char>,
    first: Instance,
    second: Instance,
    field: Seq<char>,
)
    ensures
        names.insert(name, first).insert(name, second) == names.insert(name, second),
        names.insert(name, first).insert(name, second)[name] == second,
        resolution_in(names.insert(name, first).insert(name, second), name, field) == second.lookup_spec(
            field,
        ),
{
    assert(names.insert(name, first).insert(name, second) =~= names.insert(name, second));
}

/// An import resolves to nothing where no instance has the module's name,
/// and where the instance of that name does not export the field.
pub proof fn lemma_unresolved_is_absent(names: Map<Seq<char>, Instance>, name: Seq<char>, field: Seq<char>)
    requires
        !names.contains_key(name) || !names[name]@.contains_key(field),
    ensures
        resolution_in(names, name, field) == None::<Export>,
{
}

/// Registering an instance under one name leaves the imports from modules
/// of other names as they were.
pub proof fn lemma_registration_is_local(
    names: Map<Seq<char>, Instance>,
    name: Seq<char>,
    instance: Instance,
    other: Seq<char>,
    field: Seq<char>,
)
    requires
        other != name,
    ensures
        resolution_in(names.insert(name, instance), other, field) == resolution_in(names, other, field),
{
}

} // verus!
