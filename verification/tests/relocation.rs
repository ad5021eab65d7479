use cranelift_codegen::binemit::Reloc;
use cranelift_codegen::ir::{ExternalName, LibCall};
use cranelift_wasm::FuncIndex;
use wasm_linkage::relocation::{
    classify, get_func_name, get_memory_grow_name, get_memory_size_name, RelocSink,
    RelocationTarget, SymbolName,
};

fn user(namespace: u32, index: u32) -> SymbolName {
    SymbolName::User { namespace, index }
}

#[test]
fn memory_grow_name_is_classified_as_memory_grow() {
    let target = classify(&get_memory_grow_name());
    assert!(matches!(target, Some(RelocationTarget::MemoryGrow)));
}

#[test]
fn memory_size_name_is_classified_as_memory_size() {
    let target = classify(&get_memory_size_name());
    assert!(matches!(target, Some(RelocationTarget::MemorySize)));
}

#[test]
fn intrinsic_names_have_the_user_shape_and_still_win() {
    assert!(matches!(get_memory_grow_name(), SymbolName::User { namespace: 1, index: 0 }));
    assert!(matches!(get_memory_size_name(), SymbolName::User { namespace: 1, index: 1 }));
    assert!(matches!(classify(&user(1, 0)), Some(RelocationTarget::MemoryGrow)));
    assert!(matches!(classify(&user(1, 1)), Some(RelocationTarget::MemorySize)));
}

#[test]
fn user_symbol_is_classified_as_the_function_of_its_index() {
    for index in [0u32, 1, 7, 4096, u32::MAX - 1] {
        match classify(&user(0, index)) {
            Some(RelocationTarget::UserFunc(func)) => assert_eq!(func.as_u32(), index),
            other => panic!("{:?}", other),
        }
    }
}

#[test]
fn function_name_round_trips_through_classification() {
    let name = get_func_name(FuncIndex::from_u32(42));
    assert!(matches!(name, SymbolName::User { namespace: 0, index: 42 }));
    match classify(&name) {
        Some(RelocationTarget::UserFunc(func)) => assert_eq!(func, FuncIndex::from_u32(42)),
        other => panic!("{:?}", other),
    }
}

#[test]
fn libcall_is_classified_as_that_libcall() {
    match classify(&SymbolName::LibCall(LibCall::Memcpy)) {
        Some(RelocationTarget::LibCall(call)) => assert_eq!(call, LibCall::Memcpy),
        other => panic!("{:?}", other),
    }
    match classify(&SymbolName::LibCall(LibCall::CeilF64)) {
        Some(RelocationTarget::LibCall(call)) => assert_eq!(call, LibCall::CeilF64),
        other => panic!("{:?}", other),
    }
}

#[test]
fn names_without_a_rule_are_not_classified() {
    let mut ascii = [0u8; 16];
    ascii[0] = b'f';
    assert!(classify(&SymbolName::TestCase { length: 1, ascii }).is_none());
    assert!(classify(&user(2, 0)).is_none());
    assert!(classify(&user(1, 2)).is_none());
    assert!(classify(&user(0, u32::MAX)).is_none());
}

#[test]
fn new_sink_is_empty() {
    assert!(RelocSink::new().func_relocs.is_empty());
}

#[test]
fn sink_records_in_emission_order() {
    let mut sink = RelocSink::new();
    sink.reloc_external(4, Reloc::X86CallPCRel4, &user(0, 3), -4);
    sink.reloc_external(16, Reloc::Abs8, &get_memory_grow_name(), 0);
    sink.reloc_external(32, Reloc::Abs8, &SymbolName::LibCall(LibCall::Probestack), 8);
    sink.reloc_external(40, Reloc::Abs4, &get_memory_size_name(), i64::MIN);
    assert_eq!(sink.func_relocs.len(), 4);

    let first = &sink.func_relocs[0];
    assert_eq!(first.offset, 4);
    assert_eq!(first.reloc, Reloc::X86CallPCRel4);
    assert_eq!(first.addend, -4);
    assert!(matches!(first.reloc_target, RelocationTarget::UserFunc(f) if f.as_u32() == 3));

    let second = &sink.func_relocs[1];
    assert_eq!((second.offset, second.reloc, second.addend), (16, Reloc::Abs8, 0));
    assert!(matches!(second.reloc_target, RelocationTarget::MemoryGrow));

    let third = &sink.func_relocs[2];
    assert_eq!((third.offset, third.reloc, third.addend), (32, Reloc::Abs8, 8));
    assert!(matches!(third.reloc_target, RelocationTarget::LibCall(LibCall::Probestack)));

    let fourth = &sink.func_relocs[3];
    assert_eq!((fourth.offset, fourth.reloc, fourth.addend), (40, Reloc::Abs4, i64::MIN));
    assert!(matches!(fourth.reloc_target, RelocationTarget::MemorySize));
}

#[test]
fn only_user_function_references_give_only_user_function_targets() {
    let mut sink = RelocSink::new();
    let ids = [5u32, 0, 17, 5, 1000];
    for (at, id) in ids.iter().enumerate() {
        sink.reloc_external(at as u32 * 8, Reloc::X86CallPCRel4, &user(0, *id), 0);
    }
    assert_eq!(sink.func_relocs.len(), ids.len());
    for (record, id) in sink.func_relocs.iter().zip(ids.iter()) {
        match record.reloc_target {
            RelocationTarget::UserFunc(func) => assert_eq!(func.as_u32(), *id),
            other => panic!("{:?}", other),
        }
    }
}

#[test]
fn external_names_are_read_as_they_stand() {
    let mut sink = RelocSink::new();
    assert!(sink.try_reloc_external(1, Reloc::Abs8, &ExternalName::user(0, 5), 2));
    assert!(sink.try_reloc_external(3, Reloc::Abs4, &ExternalName::user(1, 0), 4));
    assert!(sink.try_reloc_external(5, Reloc::Abs4, &ExternalName::user(1, 1), 6));
    assert!(sink.try_reloc_external(7, Reloc::Arm64Call, &ExternalName::LibCall(LibCall::Memset), -8));
    assert_eq!(sink.func_relocs.len(), 4);
    assert!(matches!(sink.func_relocs[0].reloc_target, RelocationTarget::UserFunc(f) if f.as_u32() == 5));
    assert!(matches!(sink.func_relocs[1].reloc_target, RelocationTarget::MemoryGrow));
    assert!(matches!(sink.func_relocs[2].reloc_target, RelocationTarget::MemorySize));
    assert!(matches!(sink.func_relocs[3].reloc_target, RelocationTarget::LibCall(LibCall::Memset)));
    assert_eq!(sink.func_relocs[3].offset, 7);
    assert_eq!(sink.func_relocs[3].reloc, Reloc::Arm64Call);
    assert_eq!(sink.func_relocs[3].addend, -8);
}

#[test]
fn unclassified_external_names_are_reported_and_not_recorded() {
    let mut sink = RelocSink::new();
    assert!(sink.try_reloc_external(0, Reloc::Abs8, &ExternalName::user(0, 1), 0));
    assert!(!sink.try_reloc_external(8, Reloc::Abs8, &ExternalName::testcase("grow_memory"), 0));
    assert!(!sink.try_reloc_external(8, Reloc::Abs8, &ExternalName::user(3, 1), 0));
    assert!(!sink.try_reloc_external(8, Reloc::Abs8, &ExternalName::user(0, u32::MAX), 0));
    assert_eq!(sink.func_relocs.len(), 1);
}

#[test]
fn relocation_clone_keeps_every_field() {
    let mut sink = RelocSink::new();
    sink.reloc_external(12, Reloc::X86GOTPCRel4, &user(0, 9), -1);
    let copy = sink.func_relocs[0].clone();
    assert_eq!(copy.offset, 12);
    assert_eq!(copy.reloc, Reloc::X86GOTPCRel4);
    assert_eq!(copy.addend, -1);
    assert!(matches!(copy.reloc_target, RelocationTarget::UserFunc(f) if f.as_u32() == 9));
}
