//! What an import can resolve to, and the capability of resolving one.

use vstd::prelude::*;
use vstd::hash_map::StringHashMap;

verus! {

/// One item that an instance offers for import, by its kind and its index
/// within the instance.
#[derive(Debug, Clone, Copy, PartialEq, Eq, Structural)]
pub enum Export {
    /// A function.
    Function { index: u32 },
    /// A table.
    Table { index: u32 },
    /// A linear memory.
    Memory { index: u32 },
    /// A global variable.
    Global { index: u32 },
}

/// A running module, as far as imports see it: the items that it exports,
/// by field name.
pub struct Instance {
    exports: StringHashMap<Export>,
}

impl View for Instance {
    type V = Map<Seq<char>, Export>;

    closed spec fn view(&self) -> Map<Seq<char>, Export> {
        self.exports@
    }
}

impl Instance {
    /// What a lookup of `field` gives: the export of that name, if there is
    /// one.
    pub open spec fn lookup_spec(&self, field: Seq<char>) -> Option<Export> {
        if self@.contains_key(field) {
            Some(self@[field])
        } else {
            None
        }
    }

    /// An instance that exports nothing.
    pub fn new() -> (instance: Self)
        ensures
            instance@ == Map::<Seq<char>, Export>::empty(),
    {
        Self { exports: StringHashMap::new() }
    }

    /// Makes `export` the item that the instance exports as `field`.
    pub fn define(&mut self, field: String, export: Export)
        ensures
            final(self)@ == old(self)@.insert(field@, export),
    {
        self.exports.insert(field, export);
    }

    /// The item that the instance exports as `field`, if there is one.
    pub fn lookup(&self, field: &str) -> (export: Option<Export>)
        ensures
            export == self.lookup_spec(field@),
    {
        match self.exports.get(field) {
            Some(export) => Some(*export),
            None => None,
        }
    }
}

/// The capability of resolving an import, given by the name of a module and
/// the name of a field in it. Resolvers of different kinds can be tried in
/// turn.
pub trait Resolver {
    /// What the resolver gives for the field `field` of the module `name`
    /// in its present state.
    spec fn resolution(&self, name: Seq<char>, field: Seq<char>) -> Option<Export>;

    /// Resolves the field `field` of the module `name`. An import that the
    /// resolver does not know gives `None`.
    fn resolve(&mut self, name: &str, field: &str) -> (export: Option<Export>)
        ensures
            export == old(self).resolution(name@, field@),
    ;
}

} // verus!
