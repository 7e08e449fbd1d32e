use vstd::prelude::*;

verus! {

/// The value types a WebAssembly function can take or return.
#[derive(Clone, Copy, Debug, PartialEq, Eq, Structural)]
pub enum ValType {
    I32,
    I64,
    F32,
    F64,
    V128,
    ExternRef,
    FuncRef,
}

/// A function signature: the ordered parameter types and the ordered result
/// types.
#[derive(Clone, Debug)]
pub struct FunctionType {
    params: Vec<ValType>,
    results: Vec<ValType>,
}

impl View for FunctionType {
    type V = (Seq<ValType>, Seq<ValType>);

    closed spec fn view(&self) -> (Seq<ValType>, Seq<ValType>) {
        (self.params@, self.results@)
    }
}

impl FunctionType {
    /// The signature with these parameter and result types.
    pub fn new(params: Vec<ValType>, results: Vec<ValType>) -> (r: FunctionType)
        ensures
            r@ == (params@, results@),
    {
        FunctionType { params, results }
    }

    /// The parameter types, in order.
    pub fn params(&self) -> (r: &Vec<ValType>)
        ensures
            r@ == self@.0,
    {
        &self.params
    }

    /// The result types, in order.
    pub fn results(&self) -> (r: &Vec<ValType>)
        ensures
            r@ == self@.1,
    {
        &self.results
    }

    /// A copy of this signature.
    pub fn duplicate(&self) -> (r: FunctionType)
        ensures
            r@ == self@,
    {
        FunctionType { params: self.params.clone(), results: self.results.clone() }
    }
}

} // verus!
