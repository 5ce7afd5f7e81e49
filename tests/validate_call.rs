use contract_rpc::types::{
    AccountAddress, ArgTag, CallArgument, FunctionDescriptor, ModuleId, Parameter, RpcError,
    TypeDescriptor, TypeParameter, TypeTag,
};
use contract_rpc::validate::{argument_fits, validate_call};

fn module() -> ModuleId {
    ModuleId { address: AccountAddress([1u8; 16]), name: "Token".to_string() }
}

fn function(type_params: usize, params: Vec<TypeDescriptor>) -> FunctionDescriptor {
    FunctionDescriptor {
        module: module(),
        name: "transfer".to_string(),
        type_params: (0..type_params).map(|i| TypeParameter { name: format!("T{}", i) }).collect(),
        params: params
            .into_iter()
            .enumerate()
            .map(|(i, ty)| Parameter { name: format!("p{}", i), ty })
            .collect(),
        returns: vec![],
    }
}

fn byte_vector() -> TypeDescriptor {
    TypeDescriptor::Vector(Box::new(TypeDescriptor::U8))
}

#[test]
fn u8_and_byte_vector_arguments_are_accepted() {
    let f = function(0, vec![TypeDescriptor::U8, byte_vector()]);
    let args = vec![CallArgument::U8(5), CallArgument::ByteVector(vec![1, 2, 3])];
    let r = validate_call(f, &vec![], &args);
    let back = r.expect("the call fits the signature");
    assert_eq!(back.name, "transfer");
    assert_eq!(back.params.len(), 2);
}

#[test]
fn bool_for_u64_is_a_mismatch_at_position_zero() {
    let f = function(0, vec![TypeDescriptor::U64]);
    let r = validate_call(f, &vec![], &vec![CallArgument::Bool(true)]);
    assert_eq!(
        r.unwrap_err(),
        RpcError::ArgTypeMismatch { position: 0, expected: TypeDescriptor::U64, actual: ArgTag::Bool }
    );
}

#[test]
fn missing_type_arguments_are_counted() {
    let f = function(2, vec![]);
    let r = validate_call(f, &vec![], &vec![]);
    assert_eq!(r.unwrap_err(), RpcError::TypeArgCountMismatch { expected: 2, actual: 0 });
}

#[test]
fn type_argument_count_is_checked_before_value_arguments() {
    let f = function(1, vec![TypeDescriptor::U64]);
    let r = validate_call(f, &vec![], &vec![CallArgument::Bool(true), CallArgument::U8(1)]);
    assert_eq!(r.unwrap_err(), RpcError::TypeArgCountMismatch { expected: 1, actual: 0 });
}

#[test]
fn value_argument_count_mismatch() {
    let f = function(1, vec![TypeDescriptor::U64, TypeDescriptor::Bool]);
    let r = validate_call(f, &vec![TypeTag::U64], &vec![CallArgument::U64(3)]);
    assert_eq!(r.unwrap_err(), RpcError::ArgCountMismatch { expected: 2, actual: 1 });
}

#[test]
fn only_the_first_mismatch_is_reported() {
    let f = function(0, vec![TypeDescriptor::U8, TypeDescriptor::Address, TypeDescriptor::U128]);
    let args = vec![CallArgument::U8(1), CallArgument::U64(2), CallArgument::Bool(false)];
    let r = validate_call(f, &vec![], &args);
    assert_eq!(
        r.unwrap_err(),
        RpcError::ArgTypeMismatch {
            position: 1,
            expected: TypeDescriptor::Address,
            actual: ArgTag::U64
        }
    );
}

#[test]
fn every_primitive_pairing_is_accepted() {
    let f = function(
        1,
        vec![
            TypeDescriptor::U8,
            TypeDescriptor::U64,
            TypeDescriptor::U128,
            TypeDescriptor::Bool,
            TypeDescriptor::Address,
            byte_vector(),
        ],
    );
    let args = vec![
        CallArgument::U8(255),
        CallArgument::U64(u64::MAX),
        CallArgument::U128(u128::MAX),
        CallArgument::Bool(false),
        CallArgument::Address(AccountAddress([0u8; 16])),
        CallArgument::ByteVector(vec![]),
    ];
    assert!(validate_call(f, &vec![TypeTag::Bool], &args).is_ok());
}

#[test]
fn empty_signature_and_empty_call_are_accepted() {
    assert!(validate_call(function(0, vec![]), &vec![], &vec![]).is_ok());
}

#[test]
fn byte_vector_does_not_fit_other_vectors_or_structs() {
    let bytes = CallArgument::ByteVector(vec![1]);
    assert!(!argument_fits(&TypeDescriptor::Vector(Box::new(TypeDescriptor::U64)), &bytes));
    assert!(!argument_fits(
        &TypeDescriptor::Vector(Box::new(byte_vector())),
        &bytes
    ));
    assert!(!argument_fits(&TypeDescriptor::U8, &bytes));
    assert!(argument_fits(&byte_vector(), &bytes));
    let f = function(0, vec![TypeDescriptor::Vector(Box::new(TypeDescriptor::Bool))]);
    let r = validate_call(f, &vec![], &vec![bytes]);
    assert_eq!(
        r.unwrap_err(),
        RpcError::ArgTypeMismatch {
            position: 0,
            expected: TypeDescriptor::Vector(Box::new(TypeDescriptor::Bool)),
            actual: ArgTag::ByteVector
        }
    );
}

#[test]
fn u8_does_not_stand_for_u64() {
    assert!(!argument_fits(&TypeDescriptor::U64, &CallArgument::U8(1)));
    assert!(!argument_fits(&TypeDescriptor::U8, &CallArgument::U64(1)));
    assert!(!argument_fits(&TypeDescriptor::Bool, &CallArgument::Address(AccountAddress([2u8; 16]))));
}

#[test]
fn argument_tags() {
    assert_eq!(CallArgument::U128(7).tag(), ArgTag::U128);
    assert_eq!(CallArgument::ByteVector(vec![]).tag(), ArgTag::ByteVector);
    assert_eq!(CallArgument::Address(AccountAddress([0u8; 16])).tag(), ArgTag::Address);
}

#[test]
fn struct_parameter_accepts_no_argument() {
    let layout = contract_rpc::types::StructDescriptor { module: module(), name: "Coin".to_string(), fields: vec![] };
    let ty = TypeDescriptor::Struct(Box::new(layout));
    assert!(!argument_fits(&ty, &CallArgument::ByteVector(vec![])));
    assert!(!argument_fits(&ty, &CallArgument::Address(AccountAddress([0u8; 16]))));
}
