use vstd::prelude::*;

verus! {

/// A 16-byte account address.
#[derive(Clone, Copy, Debug, PartialEq, Eq)]
pub struct AccountAddress(pub [u8; 16]);

/// Identifies a published module: the account that holds it and its name.
#[derive(Clone, Debug, PartialEq, Eq)]
pub struct ModuleId {
    pub address: AccountAddress,
    pub name: String,
}

/// A concrete type, as passed for a type parameter or named by a resource path.
#[derive(Debug, PartialEq, Eq)]
pub enum TypeTag {
    Bool,
    U8,
    U64,
    U128,
    Address,
    Signer,
    Vector(Box<TypeTag>),
    Struct(StructTag),
}

/// A fully qualified struct type.
#[derive(Debug, PartialEq, Eq)]
pub struct StructTag {
    pub address: AccountAddress,
    pub module: String,
    pub name: String,
    pub type_params: Vec<TypeTag>,
}

/// The shape of a value, as published in an interface.
#[derive(Debug, PartialEq, Eq)]
pub enum TypeDescriptor {
    U8,
    U64,
    U128,
    Bool,
    Address,
    Vector(Box<TypeDescriptor>),
    Struct(Box<StructDescriptor>),
}

/// One named field of a struct layout.
#[derive(Debug, PartialEq, Eq)]
pub struct FieldDescriptor {
    pub name: String,
    pub ty: TypeDescriptor,
}

/// A struct layout: its fields in storage and decode order.
#[derive(Debug, PartialEq, Eq)]
pub struct StructDescriptor {
    pub module: ModuleId,
    pub name: String,
    pub fields: Vec<FieldDescriptor>,
}

/// A type-parameter slot of a function.
#[derive(Clone, Debug, PartialEq, Eq)]
pub struct TypeParameter {
    pub name: String,
}

/// A named value parameter of a function.
#[derive(Debug, PartialEq, Eq)]
pub struct Parameter {
    pub name: String,
    pub ty: TypeDescriptor,
}

/// A published function signature.
#[derive(Debug, PartialEq, Eq)]
pub struct FunctionDescriptor {
    pub module: ModuleId,
    pub name: String,
    pub type_params: Vec<TypeParameter>,
    pub params: Vec<Parameter>,
    pub returns: Vec<TypeDescriptor>,
}

/// The interface summary of a module: its struct layouts and functions.
#[derive(Debug, PartialEq, Eq)]
pub struct ModuleDescriptor {
    pub module: ModuleId,
    pub structs: Vec<StructDescriptor>,
    pub functions: Vec<FunctionDescriptor>,
}

/// A concrete argument supplied by a caller.
#[derive(Clone, Debug, PartialEq, Eq)]
pub enum CallArgument {
    U8(u8),
    U64(u64),
    U128(u128),
    Bool(bool),
    Address(AccountAddress),
    ByteVector(Vec<u8>),
}

/// The variant of a `CallArgument`, without its value.
#[derive(Clone, Copy, Debug, PartialEq, Eq, Structural)]
pub enum ArgTag {
    U8,
    U64,
    U128,
    Bool,
    Address,
    ByteVector,
}

/// A decoded value tree.
#[derive(Debug, PartialEq, Eq)]
pub enum DecodedValue {
    U8(u8),
    U64(u64),
    U128(u128),
    Bool(bool),
    Address(AccountAddress),
    Vector(Vec<DecodedValue>),
    Struct(DecodedStruct),
}

/// A decoded struct value, with its type and named fields in layout order.
#[derive(Debug, PartialEq, Eq)]
pub struct DecodedStruct {
    pub module: ModuleId,
    pub name: String,
    pub fields: Vec<DecodedField>,
}

/// One named field of a decoded struct.
#[derive(Debug, PartialEq, Eq)]
pub struct DecodedField {
    pub name: String,
    pub value: DecodedValue,
}

/// What can go wrong while serving a call or a dry run.
#[derive(Debug, PartialEq, Eq)]
pub enum RpcError {
    /// The number of type arguments differs from the function's type parameters.
    TypeArgCountMismatch { expected: usize, actual: usize },
    /// The number of value arguments differs from the function's parameters.
    ArgCountMismatch { expected: usize, actual: usize },
    /// The argument at `position` cannot stand for the parameter declared there.
    ArgTypeMismatch { position: usize, expected: TypeDescriptor, actual: ArgTag },
    /// A function, struct or module could not be found.
    UnresolvedIdentifier,
    /// The write-set entry at `entry` changes a resource under a path that names no struct.
    AccessPathDecodeError { entry: usize },
    /// Bytes did not match the descriptor that should describe them.
    ValueDecodeError,
    /// State or storage could not be reached.
    InfrastructureError,
}

/// The tag of an argument's variant.
pub open spec fn tag_of(arg: CallArgument) -> ArgTag {
    match arg {
        CallArgument::U8(_) => ArgTag::U8,
        CallArgument::U64(_) => ArgTag::U64,
        CallArgument::U128(_) => ArgTag::U128,
        CallArgument::Bool(_) => ArgTag::Bool,
        CallArgument::Address(_) => ArgTag::Address,
        CallArgument::ByteVector(_) => ArgTag::ByteVector,
    }
}

impl CallArgument {
    /// The tag of this argument's variant.
    pub fn tag(&self) -> (r: ArgTag)
        ensures
            r == tag_of(*self),
    {
        match self {
            CallArgument::U8(_) => ArgTag::U8,
            CallArgument::U64(_) => ArgTag::U64,
            CallArgument::U128(_) => ArgTag::U128,
            CallArgument::Bool(_) => ArgTag::Bool,
            CallArgument::Address(_) => ArgTag::Address,
            CallArgument::ByteVector(_) => ArgTag::ByteVector,
        }
    }
}

} // verus!
