//! Compilation of all the functions that a module defines.

use vstd::prelude::*;
use cranelift_codegen::ir::Signature;
use cranelift_codegen::{CodegenError, Context};
use cranelift_wasm::{FuncIndex, WasmError};
use crate::entity::{func_index_from_u32, func_index_number, FunctionBuffers, Relocations};
use crate::relocation::{func_name, get_func_name, Relocation, SymbolName};

verus! {

/// The type of a function, as the code generator knows it.
#[verifier::external_type_specification]
#[verifier::external_body]
pub struct ExSignature(Signature);

/// The compilation context of one function: the function in the code
/// generator's own representation, once a body has been translated into it.
#[verifier::external_type_specification]
#[verifier::external_body]
pub struct ExContext(Context);

/// What the translation of a function body can fail with.
#[verifier::external_type_specification]
#[verifier::external_body]
pub struct ExWasmError(WasmError);

/// What code generation can fail with.
#[verifier::external_type_specification]
#[verifier::external_body]
pub struct ExCodegenError(CodegenError);

/// An error while compiling WebAssembly to machine code.
#[derive(Debug)]
pub enum CompileError {
    /// A wasm translation error occured.
    Wasm(WasmError),
    /// A compilation error occured.
    Codegen(CodegenError),
}

/// The result of compiling a WebAssemby module's functions.
#[derive(Debug)]
pub struct Compilation {
    /// Compiled machine code for the function bodies.
    pub functions: FunctionBuffers,
}

impl Compilation {
    /// Allocates the compilation result with the given function bodies.
    pub fn new(functions: FunctionBuffers) -> (compilation: Self)
        ensures
            compilation.functions == functions,
    {
        Self { functions }
    }
}

/// What compilation reads of a module: its function index space, imported
/// functions first, and the signatures of its functions.
pub struct Module {
    /// The number of functions that the module imports.
    pub imported_funcs: usize,
    /// For each function, imported or defined, the index of its signature.
    pub functions: Vec<usize>,
    /// The signatures that the module declares.
    pub signatures: Vec<Signature>,
}

impl Module {
    /// The imported functions are among the functions, every function index
    /// is an entity reference, and every function has a signature.
    pub open spec fn wf(&self) -> bool {
        &&& self.imported_funcs <= self.functions@.len()
        &&& self.functions@.len() < u32::MAX
        &&& forall|i: int|
            0 <= i < self.functions@.len() ==> (#[trigger] self.functions@[i]) < self.signatures@.len()
    }

    /// The number of functions that the module defines itself.
    pub open spec fn defined_funcs(&self) -> nat {
        (self.functions@.len() - self.imported_funcs) as nat
    }

    /// The number, in the function index space, of the defined function
    /// `defined`.
    pub open spec fn func_number(&self, defined: int) -> u32 {
        (self.imported_funcs + defined) as u32
    }

    /// The signature of the defined function `defined`.
    pub open spec fn func_signature(&self, defined: int) -> Signature {
        self.signatures@[self.functions@[self.imported_funcs + defined] as int]
    }

    /// The index, among all functions, of the defined function `defined`.
    pub fn func_index(&self, defined: usize) -> (index: FuncIndex)
        requires
            self.wf(),
            defined < self.defined_funcs(),
        ensures
            func_index_number(index) == self.imported_funcs + defined,
            func_index_number(index) == self.func_number(defined as int),
    {
        let number: usize = self.imported_funcs + defined;
        func_index_from_u32(number as u32)
    }
}

} // verus!

verus! {

/// What compiling a function comes to where its translation has succeeded:
/// the code and the relocations that code generation gave, or the error
/// that it failed with.
pub open spec fn after_translation(emitted: Result<(Vec<u8>, Vec<Relocation>), CodegenError>) -> Result<
    (Vec<u8>, Vec<Relocation>),
    CompileError,
> {
    match emitted {
        Ok(output) => Ok(output),
        Err(error) => Err(CompileError::Codegen(error)),
    }
}

/// The translation step `translate`, handed the function's name, its
/// signature and its body, may give `context`, and the code generation step
/// `emit`, handed that context, may give `emitted`.
pub open spec fn emitted_through<T, E>(
    translate: T,
    emit: E,
    name: SymbolName,
    signature: Signature,
    body: Vec<u8>,
    context: Context,
    emitted: Result<(Vec<u8>, Vec<Relocation>), CodegenError>,
) -> bool where
    T: Fn(SymbolName, &Signature, &Vec<u8>) -> Result<Context, WasmError>,
    E: Fn(Context) -> Result<(Vec<u8>, Vec<Relocation>), CodegenError>,
 {
    translate.ensures((name, &signature, &body), Ok(context)) && emit.ensures((context,), emitted)
}

/// `outcome` is a result that compiling one function may have. Where the
/// translation fails, its error is the outcome. Where it gives a context,
/// the code and relocations that code generation gives for that context, or
/// its error, are the outcome.
pub open spec fn function_outcome<T, E>(
    translate: T,
    emit: E,
    name: SymbolName,
    signature: Signature,
    body: Vec<u8>,
    outcome: Result<(Vec<u8>, Vec<Relocation>), CompileError>,
) -> bool where
    T: Fn(SymbolName, &Signature, &Vec<u8>) -> Result<Context, WasmError>,
    E: Fn(Context) -> Result<(Vec<u8>, Vec<Relocation>), CodegenError>,
 {
    ||| exists|error: WasmError|
        outcome == Err::<(Vec<u8>, Vec<Relocation>), CompileError>(CompileError::Wasm(error))
            && #[trigger] translate.ensures((name, &signature, &body), Err(error))
    ||| exists|context: Context, emitted: Result<(Vec<u8>, Vec<Relocation>), CodegenError>|
        outcome == after_translation(emitted) && #[trigger] emitted_through(
            translate,
            emit,
            name,
            signature,
            body,
            context,
            emitted,
        )
}

/// Compiles one function: translates its body, and generates code from what
/// the translation gave. An error of either step ends the compilation, and
/// says which step it was.
pub fn compile_function<T, E>(
    translate: &T,
    emit: &E,
    name: SymbolName,
    signature: &Signature,
    body: &Vec<u8>,
) -> (outcome: Result<(Vec<u8>, Vec<Relocation>), CompileError>) where
    T: Fn(SymbolName, &Signature, &Vec<u8>) -> Result<Context, WasmError>,
    E: Fn(Context) -> Result<(Vec<u8>, Vec<Relocation>), CodegenError>,

    requires
        translate.requires((name, signature, body)),
        forall|context: Context| emit.requires((context,)),
    ensures
        function_outcome(*translate, *emit, name, *signature, *body, outcome),
{
    match translate(name, signature, body) {
        Err(error) => Err(CompileError::Wasm(error)),
        Ok(context) => {
            let emitted = emit(context);
            assert(emitted_through(*translate, *emit, name, *signature, *body, context, emitted));
            match emitted {
                Err(error) => Err(CompileError::Codegen(error)),
                Ok(output) => Ok(output),
            }
        },
    }
}

/// `outcome` is a result that compiling the defined function `i` of
/// `module` may have, where `inputs[i]` is its body.
pub open spec fn outcome_at<T, E>(
    translate: T,
    emit: E,
    module: Module,
    inputs: Seq<Vec<u8>>,
    i: int,
    outcome: Result<(Vec<u8>, Vec<Relocation>), CompileError>,
) -> bool where
    T: Fn(SymbolName, &Signature, &Vec<u8>) -> Result<Context, WasmError>,
    E: Fn(Context) -> Result<(Vec<u8>, Vec<Relocation>), CodegenError>,
 {
    function_outcome(
        translate,
        emit,
        func_name(module.func_number(i)),
        module.func_signature(i),
        inputs[i],
        outcome,
    )
}

/// Compiling the defined function `i` may succeed.
pub open spec fn succeeds_at<T, E>(translate: T, emit: E, module: Module, inputs: Seq<Vec<u8>>, i: int) -> bool where
    T: Fn(SymbolName, &Signature, &Vec<u8>) -> Result<Context, WasmError>,
    E: Fn(Context) -> Result<(Vec<u8>, Vec<Relocation>), CodegenError>,
 {
    exists|output: (Vec<u8>, Vec<Relocation>)| #[trigger] outcome_at(translate, emit, module, inputs, i, Ok(output))
}

/// The defined function `k` is the first whose compilation fails, and it
/// fails with `error`.
pub open spec fn first_failure<T, E>(
    translate: T,
    emit: E,
    module: Module,
    inputs: Seq<Vec<u8>>,
    k: int,
    error: CompileError,
) -> bool where
    T: Fn(SymbolName, &Signature, &Vec<u8>) -> Result<Context, WasmError>,
    E: Fn(Context) -> Result<(Vec<u8>, Vec<Relocation>), CodegenError>,
 {
    &&& 0 <= k < inputs.len()
    &&& outcome_at(translate, emit, module, inputs, k, Err(error))
    &&& forall|j: int| 0 <= j < k ==> #[trigger] succeeds_at(translate, emit, module, inputs, j)
}

/// What compiling a module returns. On success there is one code buffer
/// and one relocation list for each input body, each of them what compiling
/// the function at that index gave. On failure the error is that of the
/// first function whose compilation failed.
pub open spec fn module_outcome<T, E>(
    translate: T,
    emit: E,
    module: Module,
    inputs: Seq<Vec<u8>>,
    result: Result<(Compilation, Relocations), CompileError>,
) -> bool where
    T: Fn(SymbolName, &Signature, &Vec<u8>) -> Result<Context, WasmError>,
    E: Fn(Context) -> Result<(Vec<u8>, Vec<Relocation>), CodegenError>,
 {
    match result {
        Ok((compilation, relocations)) => {
            &&& compilation.functions@.len() == inputs.len()
            &&& relocations@.len() == inputs.len()
            &&& forall|i: int|
                0 <= i < inputs.len() ==> #[trigger] outcome_at(
                    translate,
                    emit,
                    module,
                    inputs,
                    i,
                    Ok((compilation.functions@[i], relocations@[i])),
                )
        },
        Err(error) => exists|k: int| #[trigger] first_failure(translate, emit, module, inputs, k, error),
    }
}

/// Compile the module, producing a compilation result with associated
/// relocations. The functions are compiled in the order of their indices,
/// each by `translate` and then `emit`, and the first failure ends the
/// compilation.
pub fn compile_module<T, E>(
    module: &Module,
    function_body_inputs: &FunctionBuffers,
    translate: T,
    emit: E,
) -> (result: Result<(Compilation, Relocations), CompileError>) where
    T: Fn(SymbolName, &Signature, &Vec<u8>) -> Result<Context, WasmError>,
    E: Fn(Context) -> Result<(Vec<u8>, Vec<Relocation>), CodegenError>,

    requires
        module.wf(),
        function_body_inputs@.len() <= module.defined_funcs(),
        forall|name: SymbolName, signature: &Signature, body: &Vec<u8>|
            translate.requires((name, signature, body)),
        forall|context: Context| emit.requires((context,)),
    ensures
        module_outcome(translate, emit, *module, function_body_inputs@, result),
{
    let count: usize = function_body_inputs.len();
    let mut functions = FunctionBuffers::new();
    let mut relocations = Relocations::new();
    let mut i: usize = 0;
    while i < count
        invariant
            module.wf(),
            count == function_body_inputs@.len(),
            count <= module.defined_funcs(),
            i <= count,
            functions@.len() == i,
            relocations@.len() == i,
            forall|name: SymbolName, signature: &Signature, body: &Vec<u8>|
                translate.requires((name, signature, body)),
            forall|context: Context| emit.requires((context,)),
            forall|j: int|
                0 <= j < i ==> #[trigger] outcome_at(
                    translate,
                    emit,
                    *module,
                    function_body_inputs@,
                    j,
                    Ok((functions@[j], relocations@[j])),
                ),
        decreases count - i,
    {
        let func_index = module.func_index(i);
        let name = get_func_name(func_index);
        let signature = &module.signatures[module.functions[module.imported_funcs + i]];
        let input = function_body_inputs.get(i).unwrap();
        match compile_function(&translate, &emit, name, signature, input) {
            Ok((code_buf, func_relocs)) => {
                functions.push(code_buf);
                relocations.push(func_relocs);
            },
            Err(error) => {
                proof {
                    assert forall|j: int| 0 <= j < i implies #[trigger] succeeds_at(
                        translate,
                        emit,
                        *module,
                        function_body_inputs@,
                        j,
                    ) by {
                        assert(outcome_at(
                            translate,
                            emit,
                            *module,
                            function_body_inputs@,
                            j,
                            Ok((functions@[j], relocations@[j])),
                        ));
                    }
                    assert(first_failure(translate, emit, *module, function_body_inputs@, i as int, error));
                }
                return Err(error);
            },
        }
        i += 1;
    }
    Ok((Compilation::new(functions), relocations))
}

/// A translation step that gives one result for one input.
pub open spec fn deterministic_translation<T>(translate: T) -> bool where
    T: Fn(SymbolName, &Signature, &Vec<u8>) -> Result<Context, WasmError>,
 {
    forall|args: (SymbolName, &Signature, &Vec<u8>), a: Result<Context, WasmError>, b: Result<Context, WasmError>|
        #[trigger] translate.ensures(args, a) && #[trigger] translate.ensures(args, b) ==> a == b
}

/// A code generation step that gives one result for one input.
pub open spec fn deterministic_emission<E>(emit: E) -> bool where
    E: Fn(Context) -> Result<(Vec<u8>, Vec<Relocation>), CodegenError>,
 {
    forall|
        args: (Context,),
        a: Result<(Vec<u8>, Vec<Relocation>), CodegenError>,
        b: Result<(Vec<u8>, Vec<Relocation>), CodegenError>,
    | #[trigger] emit.ensures(args, a) && #[trigger] emit.ensures(args, b) ==> a == b
}

/// With deterministic steps, compiling one function has one outcome.
pub proof fn lemma_function_outcome_is_unique<T, E>(
    translate: T,
    emit: E,
    name: SymbolName,
    signature: Signature,
    body: Vec<u8>,
    a: Result<(Vec<u8>, Vec<Relocation>), CompileError>,
    b: Result<(Vec<u8>, Vec<Relocation>), CompileError>,
) where
    T: Fn(SymbolName, &Signature, &Vec<u8>) -> Result<Context, WasmError>,
    E: Fn(Context) -> Result<(Vec<u8>, Vec<Relocation>), CodegenError>,

    requires
        deterministic_translation(translate),
        deterministic_emission(emit),
        function_outcome(translate, emit, name, signature, body, a),
        function_outcome(translate, emit, name, signature, body, b),
    ensures
        a == b,
{
}

/// A successful compilation holds as many code buffers and relocation lists
/// as there were bodies.
pub proof fn lemma_success_is_index_aligned<T, E>(
    translate: T,
    emit: E,
    module: Module,
    inputs: Seq<Vec<u8>>,
    compilation: Compilation,
    relocations: Relocations,
) where
    T: Fn(SymbolName, &Signature, &Vec<u8>) -> Result<Context, WasmError>,
    E: Fn(Context) -> Result<(Vec<u8>, Vec<Relocation>), CodegenError>,

    requires
        module_outcome(translate, emit, module, inputs, Ok((compilation, relocations))),
    ensures
        compilation.functions@.len() == inputs.len(),
        relocations@.len() == inputs.len(),
{
}

/// Where the translation of the first body can only fail, compiling the
/// module fails with a translation error, whatever the later bodies are.
pub proof fn lemma_first_body_fails<T, E>(
    translate: T,
    emit: E,
    module: Module,
    inputs: Seq<Vec<u8>>,
    result: Result<(Compilation, Relocations), CompileError>,
) where
    T: Fn(SymbolName, &Signature, &Vec<u8>) -> Result<Context, WasmError>,
    E: Fn(Context) -> Result<(Vec<u8>, Vec<Relocation>), CodegenError>,

    requires
        inputs.len() > 0,
        module_outcome(translate, emit, module, inputs, result),
        forall|translated: Result<Context, WasmError>| #[trigger]
            translate.ensures(
                (func_name(module.func_number(0)), &module.func_signature(0), &inputs[0]),
                translated,
            ) ==> translated is Err,
    ensures
        result is Err,
        result->Err_0 is Wasm,
        translate.ensures(
            (func_name(module.func_number(0)), &module.func_signature(0), &inputs[0]),
            Err::<Context, WasmError>(result->Err_0->Wasm_0),
        ),
{
    match result {
        Ok((compilation, relocations)) => {
            assert(outcome_at(translate, emit, module, inputs, 0, Ok((compilation.functions@[0], relocations@[0]))));
        },
        Err(error) => {
            let k = choose|k: int| #[trigger] first_failure(translate, emit, module, inputs, k, error);
            if k > 0 {
                assert(succeeds_at(translate, emit, module, inputs, 0));
            }
        },
    }
}

/// With deterministic steps, compiling one module with the same bodies twice
/// gives the same code and the same relocations, or the same error.
pub proof fn lemma_compilation_is_deterministic<T, E>(
    translate: T,
    emit: E,
    module: Module,
    inputs: Seq<Vec<u8>>,
    first: Result<(Compilation, Relocations), CompileError>,
    second: Result<(Compilation, Relocations), CompileError>,
) where
    T: Fn(SymbolName, &Signature, &Vec<u8>) -> Result<Context, WasmError>,
    E: Fn(Context) -> Result<(Vec<u8>, Vec<Relocation>), CodegenError>,

    requires
        deterministic_translation(translate),
        deterministic_emission(emit),
        module_outcome(translate, emit, module, inputs, first),
        module_outcome(translate, emit, module, inputs, second),
    ensures
        match (first, second) {
            (Ok((c1, r1)), Ok((c2, r2))) => c1.functions@ == c2.functions@ && r1@ == r2@,
            (Err(e1), Err(e2)) => e1 == e2,
            _ => false,
        },
{
    match (first, second) {
        (Ok((c1, r1)), Ok((c2, r2))) => {
            assert forall|i: int| 0 <= i < inputs.len() implies #[trigger] c1.functions@[i] == c2.functions@[i] by {
                lemma_outcome_at_is_unique(
                    translate,
                    emit,
                    module,
                    inputs,
                    i,
                    Ok((c1.functions@[i], r1@[i])),
                    Ok((c2.functions@[i], r2@[i])),
                );
            }
            assert forall|i: int| 0 <= i < inputs.len() implies #[trigger] r1@[i] == r2@[i] by {
                lemma_outcome_at_is_unique(
                    translate,
                    emit,
                    module,
                    inputs,
                    i,
                    Ok((c1.functions@[i], r1@[i])),
                    Ok((c2.functions@[i], r2@[i])),
                );
            }
            assert(c1.functions@ =~= c2.functions@);
            assert(r1@ =~= r2@);
        },
        (Ok((c1, r1)), Err(e2)) => {
            let k = choose|k: int| #[trigger] first_failure(translate, emit, module, inputs, k, e2);
            lemma_outcome_at_is_unique(translate, emit, module, inputs, k, Ok((c1.functions@[k], r1@[k])), Err(e2));
        },
        (Err(e1), Ok((c2, r2))) => {
            let k = choose|k: int| #[trigger] first_failure(translate, emit, module, inputs, k, e1);
            lemma_outcome_at_is_unique(translate, emit, module, inputs, k, Ok((c2.functions@[k], r2@[k])), Err(e1));
        },
        (Err(e1), Err(e2)) => {
            let k1 = choose|k: int| #[trigger] first_failure(translate, emit, module, inputs, k, e1);
            let k2 = choose|k: int| #[trigger] first_failure(translate, emit, module, inputs, k, e2);
            if k1 < k2 {
                assert(succeeds_at(translate, emit, module, inputs, k1));
                let output = choose|output: (Vec<u8>, Vec<Relocation>)| #[trigger]
                    outcome_at(translate, emit, module, inputs, k1, Ok(output));
                lemma_outcome_at_is_unique(translate, emit, module, inputs, k1, Ok(output), Err(e1));
            } else if k2 < k1 {
                assert(succeeds_at(translate, emit, module, inputs, k2));
                let output = choose|output: (Vec<u8>, Vec<Relocation>)| #[trigger]
                    outcome_at(translate, emit, module, inputs, k2, Ok(output));
                lemma_outcome_at_is_unique(translate, emit, module, inputs, k2, Ok(output), Err(e2));
            } else {
                lemma_outcome_at_is_unique(translate, emit, module, inputs, k1, Err(e1), Err(e2));
            }
        },
    }
}

/// With deterministic steps, compiling one function of a module has one
/// outcome.
proof fn lemma_outcome_at_is_unique<T, E>(
    translate: T,
    emit: E,
    module: Module,
    inputs: Seq<Vec<u8>>,
    i: int,
    a: Result<(Vec<u8>, Vec<Relocation>), CompileError>,
    b: Result<(Vec<u8>, Vec<Relocation>), CompileError>,
) where
    T: Fn(SymbolName, &Signature, &Vec<u8>) -> Result<Context, WasmError>,
    E: Fn(Context) -> Result<(Vec<u8>, Vec<Relocation>), CodegenError>,

    requires
        deterministic_translation(translate),
        deterministic_emission(emit),
        outcome_at(translate, emit, module, inputs, i, a),
        outcome_at(translate, emit, module, inputs, i, b),
    ensures
        a == b,
{
    lemma_function_outcome_is_unique(
        translate,
        emit,
        func_name(module.func_number(i)),
        module.func_signature(i),
        inputs[i],
        a,
        b,
    );
}

} // verus!
