//! Host-side WebAssembly values and their kinds.

use vstd::prelude::*;

verus! {

/// The kind of a value crossing the host/module boundary. `Ref` covers
/// every reference type (function, extern, and other heap references).
#[derive(Clone, Copy, PartialEq, Eq, Structural, Debug)]
pub enum ValueKind {
    I32,
    I64,
    F32,
    F64,
    V128,
    Ref,
}

/// A value crossing the host/module boundary. Floating-point values are
/// carried as their raw bit patterns; reference values cannot be built by
/// the host, so no variant of kind `Ref` exists.
#[derive(Clone, Copy, PartialEq, Eq, Structural, Debug)]
pub enum Value {
    I32(i32),
    I64(i64),
    F32Bits(u32),
    F64Bits(u64),
    V128(u128),
}

impl Value {
    /// The kind tag carried by this value.
    pub open spec fn kind_spec(self) -> ValueKind {
        match self {
            Value::I32(_) => ValueKind::I32,
            Value::I64(_) => ValueKind::I64,
            Value::F32Bits(_) => ValueKind::F32,
            Value::F64Bits(_) => ValueKind::F64,
            Value::V128(_) => ValueKind::V128,
        }
    }

    /// Returns the kind tag of this value.
    pub fn kind(&self) -> (k: ValueKind)
        ensures
            k == self.kind_spec(),
    {
        match self {
            Value::I32(_) => ValueKind::I32,
            Value::I64(_) => ValueKind::I64,
            Value::F32Bits(_) => ValueKind::F32,
            Value::F64Bits(_) => ValueKind::F64,
            Value::V128(_) => ValueKind::V128,
        }
    }
}

/// An argument list matches a parameter signature exactly when the lengths
/// agree and every argument carries the declared kind.
pub open spec fn args_match_spec(params: Seq<ValueKind>, args: Seq<Value>) -> bool {
    &&& params.len() == args.len()
    &&& forall|i: int| 0 <= i < args.len() ==> args[i].kind_spec() == params[i]
}

/// Checks an argument list against a parameter signature.
pub fn args_match(params: &Vec<ValueKind>, args: &Vec<Value>) -> (r: bool)
    ensures
        r == args_match_spec(params@, args@),
{
    if params.len() != args.len() {
        return false;
    }
    let n = params.len();
    let mut i: usize = 0;
    while i < n
        invariant
            0 <= i <= n,
            n == params@.len(),
            params@.len() == args@.len(),
            forall|j: int| 0 <= j < i ==> args@[j].kind_spec() == params@[j],
        decreases n - i,
    {
        let k = args[i].kind();
        if k != params[i] {
            assert(args@[i as int].kind_spec() != params@[i as int]);
            return false;
        }
        i += 1;
    }
    true
}

} // verus!
