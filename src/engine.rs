use vstd::prelude::*;
use crate::linker::{candidates_of, first_installed, Linker};
use crate::signatures::{lookup_in, looks_up, new_registry, register_in, registered, registers, SigModel};
use crate::types::FunctionType;
use libloading::Library;
use wasmer_compiler::{Target, Triple};
use wasmer_engine::EngineId;
use wasmer_types::Features;
use wasmer_vm::{SignatureRegistry, VMSharedSignatureIndex};

verus! {

#[verifier::external_type_specification]
#[verifier::external_body]
pub struct ExLibrary(libloading::Library);

#[verifier::external_type_specification]
#[verifier::external_body]
pub struct ExTarget(wasmer_compiler::Target);

#[verifier::external_type_specification]
#[verifier::external_body]
pub struct ExFeatures(wasmer_types::Features);

/// Relies on `Target::triple` and `Triple::host`: whether the target's
/// triple is the one this library was built for. That depends on the build
/// machine, so nothing is promised of it.
#[verifier::external_body]
fn targets_host(target: &Target) -> (r: bool) {
    *target.triple() == Triple::host()
}

/// Relies on `Target::default`: the target of the build machine.
#[verifier::external_body]
fn host_target() -> (r: Target) {
    Target::default()
}

#[verifier::external_type_specification]
#[verifier::external_body]
pub struct ExEngineId(wasmer_engine::EngineId);

/// Relies on `EngineId::default`: an identifier drawn from a process-wide
/// counter, so nothing is promised of its value.
#[verifier::external_body]
fn fresh_engine_id() -> (r: EngineId) {
    EngineId::default()
}

/// Relies on `Features::default`: the features enabled unless configured.
#[verifier::external_body]
fn default_features() -> (r: Features) {
    Features::default()
}

/// Why an engine refused to validate or compile a module.
#[derive(Clone, Debug, PartialEq, Eq)]
pub enum CompileError {
    /// Code generation failed, or there is no compiler to generate code.
    Codegen(String),
    /// The module is not valid, or there is no compiler to validate it.
    Validate(String),
}

/// What a headless engine reports when asked for its compiler.
pub open spec fn headless_codegen_message() -> Seq<char> {
    "The `NativeEngine` is operating in headless mode, so it can only execute already compiled Modules."@
}

/// What a headless engine reports when asked to validate a module.
pub open spec fn headless_validate_message() -> Seq<char> {
    "The `NativeEngine` is not compiled with compiler support, which is required for validating"@
}

/// `r` is the code generation error of a headless engine.
pub open spec fn is_headless_codegen_error<A>(r: Result<A, CompileError>) -> bool {
    r matches Err(CompileError::Codegen(m)) && m@ == headless_codegen_message()
}

/// `r` is the validation error of a headless engine.
pub open spec fn is_headless_validate_error(r: Result<(), CompileError>) -> bool {
    r matches Err(CompileError::Validate(m)) && m@ == headless_validate_message()
}

/// `r` is the outcome of validation on an engine that is `headless` or not,
/// where an attached compiler would give `verdict`.
pub open spec fn validate_outcome(
    headless: bool,
    verdict: Result<(), CompileError>,
    r: Result<(), CompileError>,
) -> bool {
    if headless {
        is_headless_validate_error(r)
    } else {
        r == verdict
    }
}

/// `r` is the outcome of compilation on an engine that is `headless` or not,
/// where the compile and link pipeline would give `built`.
pub open spec fn compile_outcome<A>(
    headless: bool,
    built: Result<A, CompileError>,
    r: Result<A, CompileError>,
) -> bool {
    if headless {
        is_headless_codegen_error(r)
    } else {
        r == built
    }
}

/// The state behind an engine: whether a compiler is attached, the signature
/// registry, the linker chosen for the engine's target, and the native
/// libraries loaded so far. A loaded library is never removed: code in it
/// may be called for as long as the engine lives.
pub struct NativeEngineInner {
    has_compiler: bool,
    features: Features,
    signatures: SignatureRegistry,
    is_cross_compiling: bool,
    linker: Linker,
    libraries: Vec<Library>,
}

impl NativeEngineInner {
    /// Whether no compiler is attached.
    pub closed spec fn headless_spec(&self) -> bool {
        !self.has_compiler
    }

    /// The signatures registered so far, with their indices.
    pub closed spec fn signatures_spec(&self) -> Map<SigModel, VMSharedSignatureIndex> {
        registered(self.signatures)
    }

    /// The WebAssembly features enabled for validation and compilation.
    pub closed spec fn features_spec(&self) -> Features {
        self.features
    }

    pub closed spec fn cross_compiling_spec(&self) -> bool {
        self.is_cross_compiling
    }

    pub closed spec fn linker_spec(&self) -> Linker {
        self.linker
    }

    /// The libraries loaded so far, in the order they were added.
    pub closed spec fn libraries_spec(&self) -> Seq<Library> {
        self.libraries@
    }

    /// Succeeds when a compiler is attached; a headless engine reports a
    /// code generation error.
    pub fn compiler(&self) -> (r: Result<(), CompileError>)
        ensures
            !self.headless_spec() ==> r is Ok,
            self.headless_spec() ==> is_headless_codegen_error(r),
    {
        if !self.has_compiler {
            proof {
                reveal_strlit(
                    "The `NativeEngine` is operating in headless mode, so it can only execute already compiled Modules.",
                );
            }
            return Err(
                CompileError::Codegen(
                    "The `NativeEngine` is operating in headless mode, so it can only execute already compiled Modules.".to_owned(),
                ),
            );
        }
        Ok(())
    }

    /// Decides the outcome of validating a module. A headless engine fails
    /// with a validation error whatever `verdict` holds; otherwise the outcome
    /// is the attached compiler's `verdict`.
    pub fn validate(&self, verdict: Result<(), CompileError>) -> (r: Result<(), CompileError>)
        ensures
            validate_outcome(self.headless_spec(), verdict, r),
    {
        if !self.has_compiler {
            proof {
                reveal_strlit(
                    "The `NativeEngine` is not compiled with compiler support, which is required for validating",
                );
            }
            return Err(
                CompileError::Validate(
                    "The `NativeEngine` is not compiled with compiler support, which is required for validating".to_owned(),
                ),
            );
        }
        verdict
    }

    /// The WebAssembly features enabled for validation and compilation.
    pub fn features(&self) -> (r: &Features)
        ensures
            *r == self.features_spec(),
    {
        &self.features
    }

    /// The shared signature registry.
    pub fn signatures(&self) -> (r: &SignatureRegistry)
        ensures
            registered(*r) == self.signatures_spec(),
    {
        &self.signatures
    }

    /// Whether the engine's target differs from the host.
    pub fn is_cross_compiling(&self) -> (r: bool)
        ensures
            r == self.cross_compiling_spec(),
    {
        self.is_cross_compiling
    }

    /// The linker chosen for the engine's target.
    pub fn linker(&self) -> (r: Linker)
        ensures
            r == self.linker_spec(),
    {
        self.linker
    }

    /// The number of libraries loaded so far.
    pub fn library_count(&self) -> (r: usize)
        ensures
            r == self.libraries_spec().len(),
    {
        self.libraries.len()
    }

    /// Keeps a loaded library for the rest of the engine's life, after those
    /// already kept.
    pub fn add_library(&mut self, library: Library)
        ensures
            final(self).libraries_spec() == old(self).libraries_spec().push(library),
            final(self).headless_spec() == old(self).headless_spec(),
            final(self).signatures_spec() == old(self).signatures_spec(),
            final(self).cross_compiling_spec() == old(self).cross_compiling_spec(),
            final(self).linker_spec() == old(self).linker_spec(),
            final(self).features_spec() == old(self).features_spec(),
    {
        self.libraries.push(library);
    }
}

/// The prefix given to the exported symbols of the module in `bytes`: what
/// `prefixer` makes of the bytes, or the empty string when there is none.
pub fn get_prefix<F: Fn(&[u8]) -> String>(prefixer: Option<&F>, bytes: &[u8]) -> (r: String)
    requires
        prefixer matches Some(f) ==> f.requires((bytes,)),
    ensures
        prefixer matches Some(f) ==> f.ensures((bytes,), r),
        prefixer is None ==> r@ == Seq::<char>::empty(),
{
    match prefixer {
        Some(f) => f(bytes),
        None => {
            proof {
                reveal_strlit("");
            }
            "".to_owned()
        },
    }
}

/// A WebAssembly engine that compiles modules to native shared objects.
pub struct NativeEngine {
    inner: NativeEngineInner,
    target: Target,
    engine_id: EngineId,
}

impl NativeEngine {
    pub closed spec fn inner_spec(&self) -> NativeEngineInner {
        self.inner
    }

    /// The target code is compiled for.
    pub closed spec fn target_spec(&self) -> Target {
        self.target
    }

    /// The identifier of this engine.
    pub closed spec fn id_spec(&self) -> EngineId {
        self.engine_id
    }

    /// The identifier of this engine.
    pub fn id(&self) -> (r: &EngineId)
        ensures
            *r == self.id_spec(),
    {
        &self.engine_id
    }

    /// The target code is compiled for.
    pub fn target(&self) -> (r: &Target)
        ensures
            *r == self.target_spec(),
    {
        &self.target
    }

    /// An engine with a compiler attached that compiles for `target` with
    /// `features`. It cross-compiles when `target` is not the build machine's.
    /// The linker is the most preferred candidate for that case found on the
    /// search path; `None` when no candidate is installed, for no useful
    /// engine can exist then.
    pub fn new(target: Target, features: Features) -> (r: Option<NativeEngine>)
        ensures
            exists|cross: bool, installed: Seq<bool>|
                installed.len() == candidates_of(cross).len() && match r {
                    Some(e) => e.inner_spec().cross_compiling_spec() == cross && first_installed(
                        candidates_of(cross),
                        installed,
                    ) == Some(e.inner_spec().linker_spec()),
                    None => first_installed(candidates_of(cross), installed) is None,
                },
            r matches Some(e) ==> {
                &&& !e.inner_spec().headless_spec()
                &&& e.target_spec() == target
                &&& e.inner_spec().features_spec() == features
                &&& e.inner_spec().signatures_spec().dom() == Set::<SigModel>::empty()
                &&& e.inner_spec().libraries_spec().len() == 0
            },
    {
        let is_cross_compiling = !targets_host(&target);
        match Linker::find_linker(is_cross_compiling) {
            Some(linker) => Some(
                NativeEngine {
                    inner: NativeEngineInner {
                        has_compiler: true,
                        features,
                        signatures: new_registry(),
                        is_cross_compiling,
                        linker,
                        libraries: Vec::new(),
                    },
                    target,
                    engine_id: fresh_engine_id(),
                },
            ),
            None => None,
        }
    }

    /// An engine without a compiler: it cannot validate or compile, and only
    /// loads modules that were compiled before.
    pub fn headless() -> (r: NativeEngine)
        ensures
            r.inner_spec().headless_spec(),
            !r.inner_spec().cross_compiling_spec(),
            r.inner_spec().linker_spec() == Linker::NoLinker,
            r.inner_spec().signatures_spec().dom() == Set::<SigModel>::empty(),
            r.inner_spec().libraries_spec().len() == 0,
    {
        NativeEngine {
            inner: NativeEngineInner {
                has_compiler: false,
                features: default_features(),
                signatures: new_registry(),
                is_cross_compiling: false,
                linker: Linker::NoLinker,
                libraries: Vec::new(),
            },
            target: host_target(),
            engine_id: fresh_engine_id(),
        }
    }

    /// The engine's inner state.
    pub fn inner(&self) -> (r: &NativeEngineInner)
        ensures
            *r == self.inner_spec(),
    {
        &self.inner
    }

    /// The engine's inner state, for changes.
    pub fn inner_mut(&mut self) -> (r: &mut NativeEngineInner)
        ensures
            *r == old(self).inner_spec(),
            final(self).inner_spec() == *final(r),
            final(self).target_spec() == old(self).target_spec(),
            final(self).id_spec() == old(self).id_spec(),
    {
        &mut self.inner
    }

    /// Registers a signature and returns its index, the same index for
    /// every equal signature.
    pub fn register_signature(&mut self, func_type: &FunctionType) -> (r: VMSharedSignatureIndex)
        requires
            old(self).inner_spec().signatures_spec().len() < u32::MAX,
        ensures
            registers(
                old(self).inner_spec().signatures_spec(),
                func_type@,
                r,
                final(self).inner_spec().signatures_spec(),
            ),
            final(self).inner_spec().headless_spec() == old(self).inner_spec().headless_spec(),
            final(self).inner_spec().linker_spec() == old(self).inner_spec().linker_spec(),
            final(self).inner_spec().cross_compiling_spec() == old(
                self,
            ).inner_spec().cross_compiling_spec(),
            final(self).inner_spec().libraries_spec() == old(self).inner_spec().libraries_spec(),
            final(self).inner_spec().features_spec() == old(self).inner_spec().features_spec(),
            final(self).target_spec() == old(self).target_spec(),
            final(self).id_spec() == old(self).id_spec(),
    {
        register_in(&mut self.inner.signatures, func_type)
    }

    /// The signature registered under `sig`, or `None` when this engine
    /// gave that index to no signature.
    pub fn lookup_signature(&self, sig: VMSharedSignatureIndex) -> (r: Option<FunctionType>)
        ensures
            looks_up(
                self.inner_spec().signatures_spec(),
                sig,
                match r {
                    Some(f) => Some(f@),
                    None => None,
                },
            ),
    {
        lookup_in(&self.inner.signatures, sig)
    }

    /// Decides the outcome of validating a module: see
    /// `NativeEngineInner::validate`.
    pub fn validate(&self, verdict: Result<(), CompileError>) -> (r: Result<(), CompileError>)
        ensures
            validate_outcome(self.inner_spec().headless_spec(), verdict, r),
    {
        self.inner.validate(verdict)
    }

    /// Decides the outcome of compiling a module. A headless engine fails
    /// with a code generation error whatever `built` holds; otherwise the
    /// outcome is `built`, what the compile and link pipeline produced.
    pub fn compile<A>(&self, built: Result<A, CompileError>) -> (r: Result<A, CompileError>)
        ensures
            compile_outcome(self.inner_spec().headless_spec(), built, r),
    {
        match self.inner.compiler() {
            Ok(()) => built,
            Err(e) => Err(e),
        }
    }
}

/// A headless engine never validates nor compiles: whatever the compiler's
/// verdict or the pipeline's product would be, validation fails with the
/// headless validation error and compilation with the headless code
/// generation error.
pub proof fn lemma_headless_refuses<A>(
    engine: NativeEngine,
    verdict: Result<(), CompileError>,
    validated: Result<(), CompileError>,
    built: Result<A, CompileError>,
    compiled: Result<A, CompileError>,
)
    requires
        engine.inner_spec().headless_spec(),
        validate_outcome(engine.inner_spec().headless_spec(), verdict, validated),
        compile_outcome(engine.inner_spec().headless_spec(), built, compiled),
    ensures
        validated matches Err(CompileError::Validate(m)) && m@ == headless_validate_message(),
        compiled matches Err(CompileError::Codegen(m)) && m@ == headless_codegen_message(),
{
}

} // verus!
