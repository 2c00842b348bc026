//! Declarations as the macros receive them: structures, implementations, methods, parameters
//! and types, each by the parts that the analysis reads.

use vstd::prelude::*;

use crate::attrs::AttrToken;

verus! {

/// A type written in a declaration, by its shape, with its source text.
#[derive(Debug)]
pub struct TypeNode {
    pub shape: TypeShape,
    pub text: String,
}

/// The shape of a type.
#[derive(Debug)]
pub enum TypeShape {
    /// `[T; n]`
    Array(Box<TypeNode>),
    /// `(T)`
    Paren(Box<TypeNode>),
    /// `a::b::C<..>`, by the arguments of its last segment.
    Path(PathArgs),
    /// `(A, B, ..)`
    Tuple(Vec<TypeNode>),
    /// `fn(A) -> B`
    BareFn,
    /// A type within invisible delimiters.
    Group,
    /// `impl Trait`
    ImplTrait,
    /// `_`
    Infer,
    /// A type produced by a macro.
    Macro,
    /// `!`
    Never,
    /// `*const T`, `*mut T`
    Ptr,
    /// `&T`, `&mut T`
    Reference,
    /// `[T]`
    Slice,
    /// `dyn Trait`
    TraitObject,
    /// Tokens that are not a type the parser knows.
    Verbatim,
}

/// The arguments of the last segment of a path type.
#[derive(Debug)]
pub enum PathArgs {
    /// No arguments.
    Bare,
    /// `<A, B>`
    AngleBracketed(Vec<GenericArg>),
    /// `(A, B) -> C`
    Parenthesized,
}

/// One argument between angle brackets.
#[derive(Debug)]
pub enum GenericArg {
    /// `'a`
    Lifetime,
    /// `T`
    Type(TypeNode),
    /// `Item = T`
    Binding(TypeNode),
    /// `Item: Bound`
    Constraint,
    /// `{ N }` or a literal
    Const,
}

/// The pattern of a typed parameter.
#[derive(Clone, Debug)]
pub enum PatternDecl {
    /// A binding to a new variable, `name` or `mut name`.
    Ident { name: String, mutable: bool },
    /// Any other pattern (a tuple, a wildcard, ..).
    Other,
}

/// A parameter of a method.
#[derive(Debug)]
pub enum ParamDecl {
    /// `self`, `&self`, `mut self` or `&mut self`; `mutable` for the last two.
    Receiver { mutable: bool },
    /// `pattern: ty`
    Typed { pattern: PatternDecl, ty: TypeNode },
}

/// An outer attribute of a method, by the last segment of its path and its arguments.
#[derive(Clone, Debug)]
pub struct AttributeDecl {
    pub name: String,
    /// The tokens between the parentheses; empty when there are none.
    pub args: Vec<AttrToken>,
}

/// A method of an implementation.
#[derive(Debug)]
pub struct MethodDecl {
    pub name: String,
    pub is_public: bool,
    /// The method declares type, lifetime or const parameters.
    pub has_generics: bool,
    pub params: Vec<ParamDecl>,
    /// The method declares a return type.
    pub returns: bool,
    pub attrs: Vec<AttributeDecl>,
}

/// The type that an implementation is for.
#[derive(Clone, Debug)]
pub struct ImplTarget {
    /// The type is a path.
    pub is_path: bool,
    /// The path has a qualified self type (`<T as Trait>::X`).
    pub qualified: bool,
    pub leading_colon: bool,
    pub segments: usize,
    /// Some segment has angle bracketed or parenthesized arguments.
    pub has_arguments: bool,
    /// The source text of the type.
    pub text: String,
}

/// An implementation block.
#[derive(Debug)]
pub struct ImplDecl {
    pub has_generics: bool,
    pub target: ImplTarget,
    /// Its methods, in order; its other items are left as they are.
    pub methods: Vec<MethodDecl>,
}

/// A field of a structure.
#[derive(Debug)]
pub struct FieldDecl {
    /// The field's name; `None` in a tuple structure.
    pub name: Option<String>,
    pub is_public: bool,
    pub ty: TypeNode,
}

/// A structure.
#[derive(Debug)]
pub struct StructDecl {
    pub name: String,
    /// The structure declares type, lifetime or const parameters.
    pub has_generics: bool,
    pub fields: Vec<FieldDecl>,
}

/// A declaration an attribute macro is applied to.
#[derive(Debug)]
pub enum ItemDecl {
    Struct(StructDecl),
    Impl(ImplDecl),
    /// Any other item.
    Other,
}

} // verus!
