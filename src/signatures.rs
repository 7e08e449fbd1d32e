use vstd::prelude::*;
use crate::types::{FunctionType, ValType};
use wasmer_types::Type;
use wasmer_vm::{SignatureRegistry, VMSharedSignatureIndex};

verus! {

/// A signature as the contracts see it: parameter types, then result types.
pub type SigModel = (Seq<ValType>, Seq<ValType>);

#[verifier::external_type_specification]
#[verifier::external_body]
pub struct ExSignatureRegistry(wasmer_vm::SignatureRegistry);

#[verifier::external_type_specification]
#[verifier::external_body]
pub struct ExVMSharedSignatureIndex(wasmer_vm::VMSharedSignatureIndex);

/// The signatures held by a registry, each with the index it was given.
pub uninterp spec fn registered(reg: SignatureRegistry) -> Map<SigModel, VMSharedSignatureIndex>;

/// `after` and `idx` are what registering `sig` in a registry holding
/// `before` leaves and returns: a signature already there keeps its index and
/// changes nothing; a new one is added under an index that no other signature
/// holds.
pub open spec fn registers(
    before: Map<SigModel, VMSharedSignatureIndex>,
    sig: SigModel,
    idx: VMSharedSignatureIndex,
    after: Map<SigModel, VMSharedSignatureIndex>,
) -> bool {
    if before.contains_key(sig) {
        idx == before[sig] && after == before
    } else {
        after == before.insert(sig, idx) && !before.values().contains(idx)
    }
}

/// `found` is what looking up `idx` in a registry holding `contents` gives:
/// the signature registered under it, or nothing if none is.
pub open spec fn looks_up(
    contents: Map<SigModel, VMSharedSignatureIndex>,
    idx: VMSharedSignatureIndex,
    found: Option<SigModel>,
) -> bool {
    match found {
        Some(sig) => contents.contains_key(sig) && contents[sig] == idx,
        None => !contents.values().contains(idx),
    }
}

/// Registering is idempotent: registering a signature equal to one just
/// registered returns the same index and leaves the registry as it was.
pub proof fn lemma_register_idempotent(
    m0: Map<SigModel, VMSharedSignatureIndex>,
    s1: SigModel,
    i1: VMSharedSignatureIndex,
    m1: Map<SigModel, VMSharedSignatureIndex>,
    s2: SigModel,
    i2: VMSharedSignatureIndex,
    m2: Map<SigModel, VMSharedSignatureIndex>,
)
    requires
        registers(m0, s1, i1, m1),
        registers(m1, s2, i2, m2),
        s1 == s2,
    ensures
        i1 == i2,
        m2 == m1,
{
    assert(m1.contains_key(s1));
    assert(m1[s1] == i1);
}

/// Registering keeps distinct signatures under distinct indices.
pub proof fn lemma_register_keeps_indices_distinct(
    m0: Map<SigModel, VMSharedSignatureIndex>,
    s: SigModel,
    i: VMSharedSignatureIndex,
    m1: Map<SigModel, VMSharedSignatureIndex>,
)
    requires
        registers(m0, s, i, m1),
        forall|a, b| m0.contains_key(a) && m0.contains_key(b) && a != b ==> m0[a] != m0[b],
    ensures
        forall|a, b| m1.contains_key(a) && m1.contains_key(b) && a != b ==> m1[a] != m1[b],
{
    if !m0.contains_key(s) {
        assert forall|a, b| m1.contains_key(a) && m1.contains_key(b) && a != b implies m1[a]
            != m1[b] by {
            if a == s {
                assert(m0.contains_key(b) && m0[b] == m1[b]);
            } else if b == s {
                assert(m0.contains_key(a) && m0[a] == m1[a]);
            }
        }
    }
}

/// Relies on `SignatureRegistry::new`: a registry that holds no signature.
#[verifier::external_body]
pub(crate) fn new_registry() -> (r: SignatureRegistry)
    ensures
        registered(r).dom() == Set::<SigModel>::empty(),
{
    SignatureRegistry::new()
}

/// Relies on `SignatureRegistry::register`: an equal signature already held
/// keeps its index; a new one gets the count of those held, an index that no
/// other holds. Past `u32::MAX - 1` signatures the registry's own assertion
/// fails, so that count is excluded.
#[verifier::external_body]
pub(crate) fn register_in(reg: &mut SignatureRegistry, sig: &FunctionType) -> (r: VMSharedSignatureIndex)
    requires
        registered(*old(reg)).len() < u32::MAX,
    ensures
        registers(registered(*old(reg)), sig@, r, registered(*final(reg))),
{
    let conv = |t: &ValType| match t {
        ValType::I32 => Type::I32,
        ValType::I64 => Type::I64,
        ValType::F32 => Type::F32,
        ValType::F64 => Type::F64,
        ValType::V128 => Type::V128,
        ValType::ExternRef => Type::ExternRef,
        ValType::FuncRef => Type::FuncRef,
    };
    let params: Vec<Type> = sig.params().iter().map(conv).collect();
    let results: Vec<Type> = sig.results().iter().map(conv).collect();
    reg.register(&wasmer_types::FunctionType::new(params, results))
}

/// Relies on `SignatureRegistry::lookup`: the signature registered under
/// `idx`, or `None` when no signature holds it.
#[verifier::external_body]
pub(crate) fn lookup_in(reg: &SignatureRegistry, idx: VMSharedSignatureIndex) -> (r: Option<FunctionType>)
    ensures
        looks_up(registered(*reg), idx, match r { Some(f) => Some(f@), None => None }),
{
    let conv = |t: &Type| match t {
        Type::I32 => ValType::I32,
        Type::I64 => ValType::I64,
        Type::F32 => ValType::F32,
        Type::F64 => ValType::F64,
        Type::V128 => ValType::V128,
        Type::ExternRef => ValType::ExternRef,
        Type::FuncRef => ValType::FuncRef,
    };
    reg.lookup(idx).map(|f| FunctionType::new(f.params().iter().map(conv).collect(), f.results().iter().map(conv).collect()))
}

} // verus!
