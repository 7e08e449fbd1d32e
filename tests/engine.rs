use native_engine::engine::{get_prefix, CompileError, NativeEngine};
use native_engine::linker::Linker;
use native_engine::types::{FunctionType, ValType};
use std::str::FromStr;
use wasmer_compiler::{CpuFeature, Target, Triple};
use wasmer_types::Features;
use wasmer_vm::VMSharedSignatureIndex;

fn foreign_target() -> Target {
    let host = Triple::host();
    let other = if host.to_string().starts_with("aarch64") {
        "x86_64-unknown-linux-gnu"
    } else {
        "aarch64-unknown-linux-gnu"
    };
    Target::new(Triple::from_str(other).unwrap(), CpuFeature::set())
}

fn sig(params: Vec<ValType>, results: Vec<ValType>) -> FunctionType {
    FunctionType::new(params, results)
}

#[test]
fn register_same_signature_twice() {
    let mut e = NativeEngine::headless();
    let a = e.register_signature(&sig(vec![ValType::I32, ValType::I64], vec![ValType::F32]));
    let b = e.register_signature(&sig(vec![ValType::I32, ValType::I64], vec![ValType::F32]));
    assert_eq!(a, b);
}

#[test]
fn distinct_signatures_get_distinct_indices() {
    let mut e = NativeEngine::headless();
    let a = e.register_signature(&sig(vec![ValType::I32], vec![]));
    let b = e.register_signature(&sig(vec![], vec![ValType::I32]));
    let c = e.register_signature(&sig(vec![], vec![]));
    assert_ne!(a, b);
    assert_ne!(a, c);
    assert_ne!(b, c);
    assert_eq!(e.register_signature(&sig(vec![ValType::I32], vec![])), a);
}

#[test]
fn registry_indices_count_from_zero() {
    let mut e = NativeEngine::headless();
    let a = e.register_signature(&sig(vec![ValType::FuncRef], vec![ValType::ExternRef]));
    let b = e.register_signature(&sig(vec![ValType::V128], vec![ValType::F64]));
    assert_eq!(a, VMSharedSignatureIndex::new(0));
    assert_eq!(b, VMSharedSignatureIndex::new(1));
}

#[test]
fn lookup_registered_signature() {
    let mut e = NativeEngine::headless();
    let idx = e.register_signature(&sig(vec![ValType::ExternRef, ValType::F64], vec![ValType::FuncRef]));
    let found = e.lookup_signature(idx).expect("registered");
    assert_eq!(found.params(), &vec![ValType::ExternRef, ValType::F64]);
    assert_eq!(found.results(), &vec![ValType::FuncRef]);
}

#[test]
fn lookup_unknown_index() {
    let mut e = NativeEngine::headless();
    assert!(e.lookup_signature(VMSharedSignatureIndex::new(0)).is_none());
    e.register_signature(&sig(vec![], vec![]));
    assert!(e.lookup_signature(VMSharedSignatureIndex::new(7)).is_none());
    assert!(e.lookup_signature(VMSharedSignatureIndex::default()).is_none());
}

#[test]
fn indices_are_per_engine() {
    let mut first = NativeEngine::headless();
    let mut second = NativeEngine::headless();
    first.register_signature(&sig(vec![ValType::I64], vec![]));
    let idx = first.register_signature(&sig(vec![ValType::I32], vec![]));
    let other = second.register_signature(&sig(vec![ValType::I32], vec![]));
    assert_ne!(idx, other);
    assert!(second.lookup_signature(idx).is_none());
}

#[test]
fn headless_compile_fails_with_codegen() {
    let e = NativeEngine::headless();
    let r: Result<u32, CompileError> = e.compile(Ok(5));
    assert_eq!(
        r,
        Err(CompileError::Codegen(
            "The `NativeEngine` is operating in headless mode, so it can only execute already compiled Modules."
                .to_string()
        ))
    );
    assert!(e.inner().compiler().is_err());
}

#[test]
fn headless_validate_fails_with_validate() {
    let e = NativeEngine::headless();
    assert_eq!(
        e.validate(Ok(())),
        Err(CompileError::Validate(
            "The `NativeEngine` is not compiled with compiler support, which is required for validating"
                .to_string()
        ))
    );
    assert!(matches!(
        e.validate(Err(CompileError::Codegen("x".to_string()))),
        Err(CompileError::Validate(_))
    ));
}

#[test]
fn headless_engine_state() {
    let e = NativeEngine::headless();
    assert_eq!(e.inner().linker(), Linker::NoLinker);
    assert!(!e.inner().is_cross_compiling());
    assert_eq!(e.inner().library_count(), 0);
    assert_eq!(e.target().triple(), &Triple::host());
    assert_eq!(e.inner().features(), &Features::default());
}

#[test]
fn full_engine_passes_outcomes_through() {
    if let Some(e) = NativeEngine::new(Target::default(), Features::new()) {
        assert_eq!(e.target().triple(), &Triple::host());
        assert_eq!(e.inner().features(), &Features::new());
        assert_eq!(e.inner().linker(), Linker::Gcc);
        assert!(!e.inner().is_cross_compiling());
        assert_eq!(e.inner().compiler(), Ok(()));
        assert_eq!(e.validate(Ok(())), Ok(()));
        let bad = Err(CompileError::Validate("bad magic".to_string()));
        assert_eq!(e.validate(bad.clone()), bad);
        let r: Result<u32, CompileError> = e.compile(Ok(9));
        assert_eq!(r, Ok(9));
        let failed: Result<u32, CompileError> = Err(CompileError::Codegen("oops".to_string()));
        assert_eq!(e.compile(failed.clone()), failed);
    }
}

#[test]
fn cross_engine_picks_clang() {
    if let Some(e) = NativeEngine::new(foreign_target(), Features::new()) {
        assert!(e.inner().is_cross_compiling());
        assert!(Linker::candidates(true).contains(&e.inner().linker()));
    }
}

#[test]
fn prefix_without_prefixer_is_empty() {
    assert_eq!(get_prefix::<fn(&[u8]) -> String>(None, b"\0asm"), "");
}

#[test]
fn prefix_from_prefixer() {
    let prefixer = |bytes: &[u8]| format!("m{}", bytes.len());
    assert_eq!(get_prefix(Some(&prefixer), b"\0asm\x01\0\0\0"), "m8");
}

#[test]
fn function_type_keeps_order() {
    let f = FunctionType::new(vec![ValType::I64, ValType::I32], vec![ValType::V128, ValType::F32]);
    assert_eq!(f.params(), &vec![ValType::I64, ValType::I32]);
    assert_eq!(f.results(), &vec![ValType::V128, ValType::F32]);
    let g = f.duplicate();
    assert_eq!(g.params(), f.params());
    assert_eq!(g.results(), f.results());
}

#[test]
fn engines_have_distinct_ids() {
    let first = NativeEngine::headless();
    let second = NativeEngine::headless();
    assert_ne!(first.id(), second.id());
    assert_ne!(first.id().id(), second.id().id());
}
