//! The program model that the analysis builds and the code generators read.

use vstd::prelude::*;

use crate::attrs::{Codec, Dispatch, Method};

verus! {

/// Everything one macro invocation produced.
#[derive(Clone, Debug, Default)]
pub struct Program {
    /// State structures, in the order they were met.
    pub state_structs: Vec<StateStruct>,
    /// Payload structures, in the order they were met.
    pub payload_structs: Vec<PayloadStruct>,
    /// The actor implementation, if any.
    pub actor_implementation: Option<ActorImplementation>,
}

/// A structure used as an actor's persisted state.
#[derive(Clone, Debug)]
pub struct StateStruct {
    /// The name of the structure in Rust code.
    pub rust_name: String,
    /// The name of the structure in generated code.
    pub name: String,
    /// Its public fields, in declaration order.
    pub fields: Vec<StateStructField>,
    pub codec: Codec,
}

/// How a field is reached: by name, or by position in a tuple structure.
#[derive(Clone, Debug, PartialEq, Eq)]
pub enum FieldMember {
    Named(String),
    Unnamed(usize),
}

/// A field of a state structure.
#[derive(Clone, Debug)]
pub struct StateStructField {
    /// How the field is reached in Rust code.
    pub rust_name: FieldMember,
    /// The name of the field in generated code: its name, or its position in decimal.
    pub name: String,
    /// The name of the structure it belongs to.
    pub struct_name: String,
    /// The source text of its type.
    pub ty: String,
}

/// A structure used as a message payload.
#[derive(Clone, Debug)]
pub struct PayloadStruct {
    pub rust_name: String,
    pub name: String,
    pub codec: Codec,
}

/// An implementation used as an actor's interface.
#[derive(Clone, Debug)]
pub struct ActorImplementation {
    /// The type of the implementation in Rust code.
    pub rust_name: String,
    /// The name of the implementation in generated code.
    pub name: String,
    pub dispatch: Dispatch,
    /// The entry points, in declaration order.
    pub entry_points: Vec<ActorEntryPoint>,
}

/// A method exposed as an entry point.
#[derive(Clone, Debug)]
pub struct ActorEntryPoint {
    pub rust_name: String,
    pub name: String,
    pub binding: Method,
    pub mutability: Mutability,
    /// The method returns a value.
    pub returns: bool,
    /// The arguments after the receiver, in order.
    pub arguments: Vec<MethodArgument>,
}

/// How an entry point uses the actor's state.
#[derive(Clone, Copy, Debug, PartialEq, Eq, Structural)]
pub enum Mutability {
    /// No receiver: the state is neither loaded nor saved.
    Pure,
    /// `&self`: the state is loaded, not saved.
    View,
    /// `&mut self`: the state is loaded, then saved.
    Write,
}

/// An argument of an entry point.
#[derive(Clone, Debug, PartialEq, Eq)]
pub struct MethodArgument {
    pub name: String,
    /// The argument is bound mutably (`mut name`).
    pub mutable: bool,
    /// The source text of its type.
    pub arg_type: String,
}

} // verus!
