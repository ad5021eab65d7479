//! Relocation records, and the sink that classifies the symbolic references
//! which the code generator reports while it emits one function.

use vstd::prelude::*;
use cranelift_codegen::binemit::Reloc;
use cranelift_codegen::ir::{ExternalName, LibCall};
use cranelift_wasm::FuncIndex;
use crate::entity::{func_index_as_u32, func_index_from_u32, func_index_number};

verus! {

/// The architecture-specific kind of a patch.
#[verifier::external_type_specification]
#[verifier::external_body]
pub struct ExReloc(Reloc);

/// A call into the code generator's runtime library.
#[verifier::external_type_specification]
#[verifier::external_body]
pub struct ExLibCall(LibCall);

/// The name of something outside a function, as the code generator holds
/// it.
#[verifier::external_type_specification]
#[verifier::external_body]
pub struct ExExternalName(ExternalName);

/// `Reloc::clone`: `Reloc` is a plain enum with a derived `Clone`, so the
/// copy is the same patch kind.
pub assume_specification[ <Reloc as Clone>::clone ](kind: &Reloc) -> (copy: Reloc)
    ensures
        copy == *kind,
;

/// The namespace of the symbols that name this module's functions.
pub const FUNCTION_NAMESPACE: u32 = 0;

/// The namespace of the symbols that name the runtime's memory intrinsics.
pub const INTRINSIC_NAMESPACE: u32 = 1;

/// The index, within the intrinsic namespace, of "grow the linear memory".
pub const MEMORY_GROW_INDEX: u32 = 0;

/// The index, within the intrinsic namespace, of "size of the linear memory".
pub const MEMORY_SIZE_INDEX: u32 = 1;

/// The symbolic name of something outside the function that is being
/// emitted, as the code generator reports it.
#[derive(Debug, Clone, Copy)]
pub enum SymbolName {
    /// A name in a user-defined symbol table.
    User { namespace: u32, index: u32 },
    /// A short name of ASCII bytes, of which the first `length` count.
    TestCase { length: u8, ascii: [u8; 16] },
    /// A well-known function of the runtime library.
    LibCall(LibCall),
}

/// What a relocation refers to.
#[derive(Debug, Copy, Clone)]
pub enum RelocationTarget {
    /// The user function index.
    UserFunc(FuncIndex),
    /// A compiler-generated libcall.
    LibCall(LibCall),
    /// Function for growing the default memory by the specified amount of pages.
    MemoryGrow,
    /// Function for query current size of the default linear memory.
    MemorySize,
}

/// A relocation target with its function index as a plain number.
pub enum TargetModel {
    UserFunc(u32),
    LibCall(LibCall),
    MemoryGrow,
    MemorySize,
}

impl View for RelocationTarget {
    type V = TargetModel;

    open spec fn view(&self) -> TargetModel {
        match *self {
            RelocationTarget::UserFunc(index) => TargetModel::UserFunc(func_index_number(index)),
            RelocationTarget::LibCall(call) => TargetModel::LibCall(call),
            RelocationTarget::MemoryGrow => TargetModel::MemoryGrow,
            RelocationTarget::MemorySize => TargetModel::MemorySize,
        }
    }
}

/// A record of a relocation to perform.
#[derive(Debug, Clone)]
pub struct Relocation {
    /// The relocation code.
    pub reloc: Reloc,
    /// Relocation target.
    pub reloc_target: RelocationTarget,
    /// The offset where to apply the relocation.
    pub offset: u32,
    /// The addend to add to the relocation value.
    pub addend: i64,
}

/// A relocation record over plain values.
pub struct RelocationModel {
    pub reloc: Reloc,
    pub target: TargetModel,
    pub offset: u32,
    pub addend: i64,
}

impl View for Relocation {
    type V = RelocationModel;

    open spec fn view(&self) -> RelocationModel {
        RelocationModel {
            reloc: self.reloc,
            target: self.reloc_target@,
            offset: self.offset,
            addend: self.addend,
        }
    }
}

/// The variant of an external name and the fields of that variant, as a
/// `match` on the name gives them.
pub uninterp spec fn symbol_of(name: ExternalName) -> SymbolName;

/// Reads an `ExternalName`: the variant that it is, with the fields of that
/// variant as they stand.
#[verifier::external_body]
fn external_symbol(name: &ExternalName) -> (symbol: SymbolName)
    ensures
        symbol == symbol_of(*name),
{
    match *name {
        ExternalName::User { namespace, index } => SymbolName::User { namespace, index },
        ExternalName::TestCase { length, ascii } => SymbolName::TestCase { length, ascii },
        ExternalName::LibCall(call) => SymbolName::LibCall(call),
    }
}

/// The name under which function `number` of a module is known to the code
/// generator.
pub open spec fn func_name(number: u32) -> SymbolName {
    SymbolName::User { namespace: FUNCTION_NAMESPACE, index: number }
}

/// The name of the intrinsic that grows the linear memory.
pub open spec fn memory_grow_name() -> SymbolName {
    SymbolName::User { namespace: INTRINSIC_NAMESPACE, index: MEMORY_GROW_INDEX }
}

/// The name of the intrinsic that gives the size of the linear memory.
pub open spec fn memory_size_name() -> SymbolName {
    SymbolName::User { namespace: INTRINSIC_NAMESPACE, index: MEMORY_SIZE_INDEX }
}

/// The target that a symbolic name stands for, if it stands for one. The two
/// intrinsic names are tried first, then the shape of the name decides.
pub open spec fn classification(name: SymbolName) -> Option<TargetModel> {
    if name == memory_grow_name() {
        Some(TargetModel::MemoryGrow)
    } else if name == memory_size_name() {
        Some(TargetModel::MemorySize)
    } else {
        match name {
            SymbolName::User { namespace, index } => {
                if namespace == FUNCTION_NAMESPACE && index < u32::MAX {
                    Some(TargetModel::UserFunc(index))
                } else {
                    None
                }
            },
            SymbolName::LibCall(call) => Some(TargetModel::LibCall(call)),
            SymbolName::TestCase { .. } => None,
        }
    }
}

/// The name of function `index` as the code generator is given it.
pub fn get_func_name(index: FuncIndex) -> (name: SymbolName)
    ensures
        name == func_name(func_index_number(index)),
{
    SymbolName::User { namespace: FUNCTION_NAMESPACE, index: func_index_as_u32(index) }
}

/// The name of the intrinsic that grows the linear memory.
pub fn get_memory_grow_name() -> (name: SymbolName)
    ensures
        name == memory_grow_name(),
{
    SymbolName::User { namespace: INTRINSIC_NAMESPACE, index: MEMORY_GROW_INDEX }
}

/// The name of the intrinsic that gives the size of the linear memory.
pub fn get_memory_size_name() -> (name: SymbolName)
    ensures
        name == memory_size_name(),
{
    SymbolName::User { namespace: INTRINSIC_NAMESPACE, index: MEMORY_SIZE_INDEX }
}

/// Classifies a symbolic name: the target it stands for, or `None` where no
/// rule covers it.
pub fn classify(name: &SymbolName) -> (target: Option<RelocationTarget>)
    ensures
        target.is_some() == classification(*name).is_some(),
        target.is_some() ==> target.unwrap()@ == classification(*name).unwrap(),
{
    match *name {
        SymbolName::User { namespace, index } => {
            if namespace == INTRINSIC_NAMESPACE && index == MEMORY_GROW_INDEX {
                Some(RelocationTarget::MemoryGrow)
            } else if namespace == INTRINSIC_NAMESPACE && index == MEMORY_SIZE_INDEX {
                Some(RelocationTarget::MemorySize)
            } else if namespace == FUNCTION_NAMESPACE && index < u32::MAX {
                Some(RelocationTarget::UserFunc(func_index_from_u32(index)))
            } else {
                None
            }
        },
        SymbolName::LibCall(call) => Some(RelocationTarget::LibCall(call)),
        SymbolName::TestCase { .. } => None,
    }
}

} // verus!

verus! {

/// A relocation sink that saves every relocation that it is told of.
pub struct RelocSink {
    /// Relocations recorded for the function.
    pub func_relocs: Vec<Relocation>,
}

/// One reference to an external symbol, as the code generator reports it
/// while it emits a function.
pub struct ExternalReference {
    /// The offset in the function's code where the patch goes.
    pub offset: u32,
    /// The kind of the patch.
    pub reloc: Reloc,
    /// The symbol that is referred to.
    pub name: SymbolName,
    /// The addend of the patch.
    pub addend: i64,
}

/// The record that stands for a reference whose name `classification`
/// covers: the reference as it is, with its name classified.
pub open spec fn record_of(reference: ExternalReference) -> RelocationModel {
    RelocationModel {
        reloc: reference.reloc,
        target: classification(reference.name).unwrap(),
        offset: reference.offset,
        addend: reference.addend,
    }
}

/// The records that a sink holds once it has been told of `references`, in
/// that order.
pub open spec fn recorded(references: Seq<ExternalReference>) -> Seq<RelocationModel> {
    references.map_values(|reference: ExternalReference| record_of(reference))
}

/// The records of a list of relocations, over plain values.
pub open spec fn records_of(relocs: Seq<Relocation>) -> Seq<RelocationModel> {
    relocs.map_values(|r: Relocation| r@)
}

impl RelocSink {
    /// Return a new `RelocSink` instance.
    pub fn new() -> (sink: Self)
        ensures
            sink.func_relocs@ == Seq::<Relocation>::empty(),
            sink.records() == Seq::<RelocationModel>::empty(),
    {
        let sink = Self { func_relocs: Vec::new() };
        assert(sink.records() =~= Seq::<RelocationModel>::empty());
        sink
    }

    /// The records that the sink holds, in the order in which they came.
    pub open spec fn records(&self) -> Seq<RelocationModel> {
        records_of(self.func_relocs@)
    }

    /// Records a reference to the external name `name` at `offset`, as
    /// `reloc_external` does, where the name is one that `classification`
    /// covers. Says whether it is; where it is not, nothing is recorded.
    pub fn try_reloc_external(&mut self, offset: u32, reloc: Reloc, name: &ExternalName, addend: i64) -> (recorded:
        bool)
        ensures
            recorded == classification(symbol_of(*name)).is_some(),
            recorded ==> final(self).func_relocs@.drop_last() == old(self).func_relocs@,
            recorded ==> final(self).records() == old(self).records().push(
                record_of((ExternalReference { offset, reloc, name: symbol_of(*name), addend })),
            ),
            !recorded ==> final(self).func_relocs == old(self).func_relocs,
    {
        let symbol = external_symbol(name);
        if classify(&symbol).is_some() {
            self.reloc_external(offset, reloc, &symbol, addend);
            true
        } else {
            false
        }
    }

    /// Records a reference to the external symbol `name` at `offset`. The
    /// name has to be one that `classification` covers.
    pub fn reloc_external(&mut self, offset: u32, reloc: Reloc, name: &SymbolName, addend: i64)
        requires
            classification(*name).is_some(),
        ensures
            final(self).func_relocs@.len() == old(self).func_relocs@.len() + 1,
            final(self).func_relocs@.drop_last() == old(self).func_relocs@,
            final(self).records() == old(self).records().push(
                record_of((ExternalReference { offset, reloc, name: *name, addend })),
            ),
    {
        let target = classify(name);
        let reloc_target = target.unwrap();
        let record = Relocation { reloc, reloc_target, offset, addend };
        self.func_relocs.push(record);
        assert(final(self).func_relocs@.drop_last() =~= old(self).func_relocs@);
        assert(final(self).records() =~= old(self).records().push(record@));
    }
}

} // verus!

verus! {

/// The name of a function of the module stands for that function: its
/// target is `UserFunc` with the number that the name carries. The number
/// `u32::MAX` is no function index.
pub proof fn lemma_function_name_target(number: u32)
    requires
        number < u32::MAX,
    ensures
        classification(func_name(number)) == Some(TargetModel::UserFunc(number)),
{
}

/// A name that equals one of the two intrinsic names stands for that
/// intrinsic, though it has the shape of a user-defined symbol.
pub proof fn lemma_intrinsic_names_come_first(name: SymbolName)
    ensures
        name == memory_grow_name() ==> classification(name) == Some(TargetModel::MemoryGrow),
        name == memory_size_name() ==> classification(name) == Some(TargetModel::MemorySize),
        name is User && (name == memory_grow_name() || name == memory_size_name()) ==> !(classification(
            name,
        ).unwrap() is UserFunc),
{
}

/// A user-defined symbol stands for a function only in the function
/// namespace; in any other it stands for an intrinsic or for nothing.
pub proof fn lemma_user_function_only_in_namespace(namespace: u32, index: u32)
    ensures
        classification(SymbolName::User { namespace, index }) matches Some(TargetModel::UserFunc(number))
            ==> namespace == FUNCTION_NAMESPACE && number == index,
{
}

} // verus!

verus! {

/// One more reference adds the record of that reference to the end of what
/// is recorded, and no reference records nothing.
pub proof fn lemma_recorded_grows_by_one(references: Seq<ExternalReference>, reference: ExternalReference)
    ensures
        recorded(references.push(reference)) == recorded(references).push(record_of(reference)),
        recorded(Seq::<ExternalReference>::empty()) == Seq::<RelocationModel>::empty(),
{
    assert(recorded(references.push(reference)) =~= recorded(references).push(record_of(reference)));
    assert(recorded(Seq::<ExternalReference>::empty()) =~= Seq::<RelocationModel>::empty());
}

/// Where every reference that is reported for a function names a function
/// of the module, `numbers[i]` being the number in the name of the `i`-th,
/// every record has a `UserFunc` target with that number, at the offset and
/// with the patch kind and the addend of its reference.
pub proof fn lemma_function_references_give_function_targets(
    references: Seq<ExternalReference>,
    numbers: Seq<u32>,
)
    requires
        numbers.len() == references.len(),
        forall|i: int|
            0 <= i < references.len() ==> numbers[i] < u32::MAX && (#[trigger] references[i]).name == func_name(
                numbers[i],
            ),
    ensures
        recorded(references).len() == references.len(),
        forall|i: int|
            0 <= i < references.len() ==> (#[trigger] recorded(references)[i]) == (RelocationModel {
                reloc: references[i].reloc,
                target: TargetModel::UserFunc(numbers[i]),
                offset: references[i].offset,
                addend: references[i].addend,
            }),
{
    assert forall|i: int| 0 <= i < references.len() implies (#[trigger] recorded(references)[i]) == (
    RelocationModel {
        reloc: references[i].reloc,
        target: TargetModel::UserFunc(numbers[i]),
        offset: references[i].offset,
        addend: references[i].addend,
    }) by {
        assert(references[i].name == func_name(numbers[i]));
        lemma_function_name_target(numbers[i]);
    }
}

} // verus!
