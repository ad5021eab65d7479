//! Entity references and densely indexed maps of the Cranelift crates, as far
//! as this library uses them.

use vstd::prelude::*;
use cranelift_entity::{EntityRef, PrimaryMap};
use cranelift_wasm::{DefinedFuncIndex, FuncIndex};
use crate::relocation::Relocation;

verus! {

/// The index of a function, imported or defined, within a module.
#[verifier::external_type_specification]
#[verifier::external_body]
pub struct ExFuncIndex(FuncIndex);

/// The number that `FuncIndex::as_u32` gives for a function index.
pub uninterp spec fn func_index_number(index: FuncIndex) -> u32;

/// `FuncIndex::from_u32`: the index that holds `number`, which `as_u32`
/// gives back. The entity crates reserve `u32::MAX`, so that number is left
/// out.
#[verifier::external_body]
pub(crate) fn func_index_from_u32(number: u32) -> (index: FuncIndex)
    requires
        number < u32::MAX,
    ensures
        func_index_number(index) == number,
{
    FuncIndex::from_u32(number)
}

/// `FuncIndex::as_u32`: the number that `index` stands for.
#[verifier::external_body]
pub(crate) fn func_index_as_u32(index: FuncIndex) -> (number: u32)
    ensures
        number == func_index_number(index),
{
    index.as_u32()
}

/// One byte buffer for each function that a module defines, in the order of
/// their indices. It holds a `PrimaryMap` keyed by `DefinedFuncIndex`.
#[verifier::external_body]
#[derive(Debug)]
pub struct FunctionBuffers {
    buffers: PrimaryMap<DefinedFuncIndex, Vec<u8>>,
}

/// The buffers that a `FunctionBuffers` holds, by defined-function index.
pub uninterp spec fn buffer_contents(buffers: FunctionBuffers) -> Seq<Vec<u8>>;

/// One list of relocations for each function that a module defines, in the
/// order of their indices. It holds a `PrimaryMap` keyed by
/// `DefinedFuncIndex`.
#[verifier::external_body]
#[derive(Debug)]
pub struct Relocations {
    lists: PrimaryMap<DefinedFuncIndex, Vec<Relocation>>,
}

/// The lists that a `Relocations` holds, by defined-function index.
pub uninterp spec fn relocation_lists(relocations: Relocations) -> Seq<Vec<Relocation>>;

/// `PrimaryMap::new`: a map that holds nothing.
#[verifier::external_body]
fn buffers_new() -> (buffers: FunctionBuffers)
    ensures
        buffer_contents(buffers) == Seq::<Vec<u8>>::empty(),
{
    FunctionBuffers { buffers: PrimaryMap::new() }
}

/// `PrimaryMap::len`: the number of entries.
#[verifier::external_body]
fn buffers_len(buffers: &FunctionBuffers) -> (len: usize)
    ensures
        len == buffer_contents(*buffers).len(),
{
    buffers.buffers.len()
}

/// `PrimaryMap::push`: appends `buffer` under the next key. That key must be
/// an entity reference, so the map holds fewer than `u32::MAX` entries.
#[verifier::external_body]
fn buffers_push(buffers: &mut FunctionBuffers, buffer: Vec<u8>)
    requires
        buffer_contents(*old(buffers)).len() < u32::MAX,
    ensures
        buffer_contents(*final(buffers)) == buffer_contents(*old(buffers)).push(buffer),
{
    buffers.buffers.push(buffer);
}

/// `PrimaryMap::index`: the entry under the key `DefinedFuncIndex::new(i)`.
#[verifier::external_body]
fn buffers_index(buffers: &FunctionBuffers, i: usize) -> (buffer: &Vec<u8>)
    requires
        i < buffer_contents(*buffers).len(),
        i < u32::MAX,
    ensures
        *buffer == buffer_contents(*buffers)[i as int],
{
    &buffers.buffers[DefinedFuncIndex::new(i)]
}

/// `PrimaryMap::new`: a map that holds nothing.
#[verifier::external_body]
fn relocations_new() -> (relocations: Relocations)
    ensures
        relocation_lists(relocations) == Seq::<Vec<Relocation>>::empty(),
{
    Relocations { lists: PrimaryMap::new() }
}

/// `PrimaryMap::len`: the number of entries.
#[verifier::external_body]
fn relocations_len(relocations: &Relocations) -> (len: usize)
    ensures
        len == relocation_lists(*relocations).len(),
{
    relocations.lists.len()
}

/// `PrimaryMap::push`: appends `list` under the next key. That key must be an
/// entity reference, so the map holds fewer than `u32::MAX` entries.
#[verifier::external_body]
fn relocations_push(relocations: &mut Relocations, list: Vec<Relocation>)
    requires
        relocation_lists(*old(relocations)).len() < u32::MAX,
    ensures
        relocation_lists(*final(relocations)) == relocation_lists(*old(relocations)).push(list),
{
    relocations.lists.push(list);
}

/// `PrimaryMap::index`: the entry under the key `DefinedFuncIndex::new(i)`.
#[verifier::external_body]
fn relocations_index(relocations: &Relocations, i: usize) -> (list: &Vec<Relocation>)
    requires
        i < relocation_lists(*relocations).len(),
        i < u32::MAX,
    ensures
        *list == relocation_lists(*relocations)[i as int],
{
    &relocations.lists[DefinedFuncIndex::new(i)]
}

impl View for FunctionBuffers {
    type V = Seq<Vec<u8>>;

    open spec fn view(&self) -> Seq<Vec<u8>> {
        buffer_contents(*self)
    }
}

impl FunctionBuffers {
    /// A collection without buffers.
    pub fn new() -> (buffers: Self)
        ensures
            buffers@ == Seq::<Vec<u8>>::empty(),
    {
        buffers_new()
    }

    /// The number of buffers.
    pub fn len(&self) -> (len: usize)
        ensures
            len == self@.len(),
    {
        buffers_len(self)
    }

    /// Appends the buffer of the next defined function.
    pub fn push(&mut self, buffer: Vec<u8>)
        requires
            old(self)@.len() < u32::MAX,
        ensures
            final(self)@ == old(self)@.push(buffer),
    {
        buffers_push(self, buffer)
    }

    /// The buffer of the defined function `i`, where there is one.
    pub fn get(&self, i: usize) -> (buffer: Option<&Vec<u8>>)
        ensures
            buffer.is_some() == (i < self@.len() && i < u32::MAX),
            buffer.is_some() ==> *buffer.unwrap() == self@[i as int],
    {
        if i < buffers_len(self) && i < 0xffff_ffff {
            Some(buffers_index(self, i))
        } else {
            None
        }
    }
}

impl View for Relocations {
    type V = Seq<Vec<Relocation>>;

    open spec fn view(&self) -> Seq<Vec<Relocation>> {
        relocation_lists(*self)
    }
}

impl Relocations {
    /// A collection without lists.
    pub fn new() -> (relocations: Self)
        ensures
            relocations@ == Seq::<Vec<Relocation>>::empty(),
    {
        relocations_new()
    }

    /// The number of lists.
    pub fn len(&self) -> (len: usize)
        ensures
            len == self@.len(),
    {
        relocations_len(self)
    }

    /// Appends the relocations of the next defined function.
    pub fn push(&mut self, list: Vec<Relocation>)
        requires
            old(self)@.len() < u32::MAX,
        ensures
            final(self)@ == old(self)@.push(list),
    {
        relocations_push(self, list)
    }

    /// The relocations of the defined function `i`, where there are any.
    pub fn get(&self, i: usize) -> (list: Option<&Vec<Relocation>>)
        ensures
            list.is_some() == (i < self@.len() && i < u32::MAX),
            list.is_some() ==> *list.unwrap() == self@[i as int],
    {
        if i < relocations_len(self) && i < 0xffff_ffff {
            Some(relocations_index(self, i))
        } else {
            None
        }
    }
}

} // verus!
