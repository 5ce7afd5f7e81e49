use vstd::prelude::*;

use crate::types::{tag_of, CallArgument, FunctionDescriptor, Parameter, RpcError, TypeDescriptor, TypeTag};

verus! {

/// Whether an argument of this variant can stand for a parameter of this type:
/// each primitive matches itself, and a byte vector matches `Vector(U8)`.
pub open spec fn compatible(ty: TypeDescriptor, arg: CallArgument) -> bool {
    match (ty, arg) {
        (TypeDescriptor::U8, CallArgument::U8(_)) => true,
        (TypeDescriptor::U64, CallArgument::U64(_)) => true,
        (TypeDescriptor::U128, CallArgument::U128(_)) => true,
        (TypeDescriptor::Bool, CallArgument::Bool(_)) => true,
        (TypeDescriptor::Address, CallArgument::Address(_)) => true,
        (TypeDescriptor::Vector(inner), CallArgument::ByteVector(_)) => *inner == TypeDescriptor::U8,
        _ => false,
    }
}

/// Every argument before position `end` fits the parameter at its position.
pub open spec fn fits_up_to(params: Seq<Parameter>, args: Seq<CallArgument>, end: int) -> bool {
    forall|j: int| 0 <= j < end ==> compatible(#[trigger] params[j].ty, args[j])
}

/// `p` is the first position whose argument does not fit its parameter.
pub open spec fn first_mismatch(params: Seq<Parameter>, args: Seq<CallArgument>, p: int) -> bool {
    &&& 0 <= p < params.len()
    &&& p < args.len()
    &&& !compatible(params[p].ty, args[p])
    &&& fits_up_to(params, args, p)
}

/// Whether `arg` can stand for a parameter of type `ty`.
pub fn argument_fits(ty: &TypeDescriptor, arg: &CallArgument) -> (r: bool)
    ensures
        r == compatible(*ty, *arg),
{
    match (ty, arg) {
        (TypeDescriptor::U8, CallArgument::U8(_)) => true,
        (TypeDescriptor::U64, CallArgument::U64(_)) => true,
        (TypeDescriptor::U128, CallArgument::U128(_)) => true,
        (TypeDescriptor::Bool, CallArgument::Bool(_)) => true,
        (TypeDescriptor::Address, CallArgument::Address(_)) => true,
        (TypeDescriptor::Vector(inner), CallArgument::ByteVector(_)) => {
            match **inner {
                TypeDescriptor::U8 => true,
                _ => false,
            }
        },
        _ => false,
    }
}

/// Checks a call against the signature of the function it invokes, and hands the
/// signature back when the call may proceed.
///
/// The type-argument count is checked first, then the value-argument count, then
/// each argument in order; the first argument that does not fit is reported and
/// no later one is looked at.
pub fn validate_call(
    func: FunctionDescriptor,
    type_args: &Vec<TypeTag>,
    args: &Vec<CallArgument>,
) -> (r: Result<FunctionDescriptor, RpcError>)
    ensures
        func.type_params.len() != type_args.len() ==> r == Err::<FunctionDescriptor, RpcError>(
            RpcError::TypeArgCountMismatch {
                expected: func.type_params.len(),
                actual: type_args.len(),
            },
        ),
        func.type_params.len() == type_args.len() && func.params.len() != args.len() ==> r
            == Err::<FunctionDescriptor, RpcError>(
            RpcError::ArgCountMismatch { expected: func.params.len(), actual: args.len() },
        ),
        func.type_params.len() == type_args.len() && func.params.len() == args.len() ==> (r is Ok
            <==> fits_up_to(func.params@, args@, args.len() as int)),
        r is Ok ==> r == Ok::<FunctionDescriptor, RpcError>(func),
        forall|p: int|
            #![trigger first_mismatch(func.params@, args@, p)]
            func.type_params.len() == type_args.len() && func.params.len() == args.len()
                && first_mismatch(func.params@, args@, p)
                ==> r == Err::<FunctionDescriptor, RpcError>(
                RpcError::ArgTypeMismatch {
                    position: p as usize,
                    expected: func.params@[p].ty,
                    actual: tag_of(args@[p]),
                },
            ),
{
    if func.type_params.len() != type_args.len() {
        return Err(
            RpcError::TypeArgCountMismatch {
                expected: func.type_params.len(),
                actual: type_args.len(),
            },
        );
    }
    if func.params.len() != args.len() {
        return Err(RpcError::ArgCountMismatch { expected: func.params.len(), actual: args.len() });
    }
    let n = args.len();
    let mut i: usize = 0;
    while i < n
        invariant
            n == args.len(),
            n == func.params.len(),
            i <= n,
            fits_up_to(func.params@, args@, i as int),
        ensures
            i <= n,
            fits_up_to(func.params@, args@, i as int),
            i < n ==> !compatible(func.params@[i as int].ty, args@[i as int]),
        decreases n - i,
    {
        if !argument_fits(&func.params[i].ty, &args[i]) {
            break;
        }
        i = i + 1;
    }
    if i < n {
        let actual = args[i].tag();
        assert(first_mismatch(func.params@, args@, i as int));
        assert forall|p: int| first_mismatch(func.params@, args@, p) implies p == i by {
            if p < i {
                assert(compatible(func.params@[p].ty, args@[p]));
            } else if p > i {
                assert(compatible(func.params@[i as int].ty, args@[i as int]));
            }
        }
        let mut params = func.params;
        let param = params.remove(i);
        return Err(RpcError::ArgTypeMismatch { position: i, expected: param.ty, actual });
    }
    Ok(func)
}

} // verus!
