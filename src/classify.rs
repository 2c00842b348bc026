//! Classification of an exported method into an entry point: its mutability, whether it
//! returns, and its arguments, whose types are checked against the shapes an entry point can
//! deserialize.

use vstd::prelude::*;

use crate::attrs::{quoted, Dispatch, Method};
use crate::ast::{ActorEntryPoint, MethodArgument, Mutability};
use crate::decl::{GenericArg, MethodDecl, ParamDecl, PathArgs, PatternDecl, TypeNode, TypeShape};
use crate::macro_attrs::{first_binding, ExportAttrs};

verus! {

broadcast use vstd::std_specs::vec::group_vec_axioms;

/// The kinds of type that an entry point argument cannot have.
#[derive(Clone, Copy, Debug, PartialEq, Eq, Structural)]
pub enum TypeCategory {
    Lifetime,
    Constraint,
    Const,
    ParenthesizedArgs,
    BareFn,
    Group,
    ImplTrait,
    Infer,
    Macro,
    Never,
    Pointer,
    Reference,
    Slice,
    TraitObject,
}

/// The label of a rejected kind of type, as messages name it.
pub open spec fn category_label(c: TypeCategory) -> Seq<char> {
    match c {
        TypeCategory::Lifetime => "a type with specified lifetime"@,
        TypeCategory::Constraint => "a constraint type"@,
        TypeCategory::Const => "a const expression"@,
        TypeCategory::ParenthesizedArgs => "arguments of a function path segment"@,
        TypeCategory::BareFn => "a bare function type"@,
        TypeCategory::Group => "a type contained within invisible delimiters"@,
        TypeCategory::ImplTrait => "an impl type"@,
        TypeCategory::Infer => "the infer type"@,
        TypeCategory::Macro => "a macro"@,
        TypeCategory::Never => "the never type"@,
        TypeCategory::Pointer => "a pointer type"@,
        TypeCategory::Reference => "a referenced type"@,
        TypeCategory::Slice => "a slice type"@,
        TypeCategory::TraitObject => "a trait object type"@,
    }
}

impl TypeCategory {
    /// The label of this kind of type.
    pub fn label(&self) -> (r: &'static str)
        ensures
            r@ == category_label(*self),
    {
        match self {
            TypeCategory::Lifetime => "a type with specified lifetime",
            TypeCategory::Constraint => "a constraint type",
            TypeCategory::Const => "a const expression",
            TypeCategory::ParenthesizedArgs => "arguments of a function path segment",
            TypeCategory::BareFn => "a bare function type",
            TypeCategory::Group => "a type contained within invisible delimiters",
            TypeCategory::ImplTrait => "an impl type",
            TypeCategory::Infer => "the infer type",
            TypeCategory::Macro => "a macro",
            TypeCategory::Never => "the never type",
            TypeCategory::Pointer => "a pointer type",
            TypeCategory::Reference => "a referenced type",
            TypeCategory::Slice => "a slice type",
            TypeCategory::TraitObject => "a trait object type",
        }
    }
}

/// Why a method cannot be an entry point.
#[derive(Clone, Debug, PartialEq, Eq)]
pub enum EntryPointError {
    /// The method has no binding.
    MissingBinding(String),
    /// The method declares type, lifetime or const parameters.
    GenericsOnEntryPoint(String),
    /// The method is not public.
    VisibilityNotPublic(String),
    /// An argument type is of a rejected kind; the text is the offending type's.
    UnexpectedArgType(TypeCategory, String),
    /// An argument type cannot be interpreted.
    UnhandledType(String),
    /// A receiver stands after the first position.
    UnexpectedArgReceiver,
    /// An argument pattern is not a binding to a new variable.
    ExpectedBindingToNewVariable,
    /// The binding does not suit the implementation's dispatch method.
    MismatchedDispatchBinding(String, Dispatch),
}

/// What a binding of a dispatch method looks like, as messages name it.
pub open spec fn binding_shape(d: Dispatch) -> Seq<char> {
    match d {
        Dispatch::Numeric => "a numeric binding"@,
    }
}

/// The message that an entry point error renders to.
pub open spec fn entry_point_error_message(e: EntryPointError) -> Seq<char> {
    match e {
        EntryPointError::MissingBinding(n) => "binding should be specified on method '"@ + n@
            + "'"@,
        EntryPointError::GenericsOnEntryPoint(n) => "'"@ + n@
            + "' can not be used as an entry point. Methods with #[fvm_export] cannot have lifetime or type parameters."@,
        EntryPointError::VisibilityNotPublic(n) => "'"@ + n@
            + "' can not be used as an entry point. Methods with #[fvm_export] must be public."@,
        EntryPointError::UnexpectedArgType(c, t) => category_label(c) + ", '"@ + t@
            + "', can not be used as a type for an entry point argument."@,
        EntryPointError::UnhandledType(t) => "'"@ + t@
            + "' can not be interpreted and thus can not be used as a type for an entry point argument."@,
        EntryPointError::UnexpectedArgReceiver =>
            "'self' should only be used as first argument for an entry point argument."@,
        EntryPointError::ExpectedBindingToNewVariable =>
            "expected binding to variable when parsing method arguments."@,
        EntryPointError::MismatchedDispatchBinding(n, d) => "binding of '"@ + n@
            + "' does not match the dispatch method, expected "@ + binding_shape(d),
    }
}

impl EntryPointError {
    /// The message this error renders to.
    pub fn message(&self) -> (r: String)
        ensures
            r@ == entry_point_error_message(*self),
    {
        match self {
            EntryPointError::MissingBinding(n) => quoted(
                "binding should be specified on method '",
                n,
                "'",
            ),
            EntryPointError::GenericsOnEntryPoint(n) => quoted(
                "'",
                n,
                "' can not be used as an entry point. Methods with #[fvm_export] cannot have lifetime or type parameters.",
            ),
            EntryPointError::VisibilityNotPublic(n) => quoted(
                "'",
                n,
                "' can not be used as an entry point. Methods with #[fvm_export] must be public.",
            ),
            EntryPointError::UnexpectedArgType(c, t) => {
                let mut r = String::from_str(c.label());
                r.append(", '");
                r.append(t.as_str());
                r.append("', can not be used as a type for an entry point argument.");
                r
            },
            EntryPointError::UnhandledType(t) => quoted(
                "'",
                t,
                "' can not be interpreted and thus can not be used as a type for an entry point argument.",
            ),
            EntryPointError::UnexpectedArgReceiver => String::from_str(
                "'self' should only be used as first argument for an entry point argument.",
            ),
            EntryPointError::ExpectedBindingToNewVariable => String::from_str(
                "expected binding to variable when parsing method arguments.",
            ),
            EntryPointError::MismatchedDispatchBinding(n, d) => {
                let mut r = quoted(
                    "binding of '",
                    n,
                    "' does not match the dispatch method, expected ",
                );
                match d {
                    Dispatch::Numeric => r.append("a numeric binding"),
                }
                r
            },
        }
    }
}

/// The error for a type of a rejected kind.
pub open spec fn rejected(c: TypeCategory, text: String) -> Result<(), EntryPointError> {
    Err(EntryPointError::UnexpectedArgType(c, text))
}

/// Whether a type can be the type of an entry point argument: `Ok`, or the first rejected
/// type met, from the outside in and from left to right.
pub open spec fn type_check(t: TypeNode) -> Result<(), EntryPointError>
    decreases t, 0nat,
{
    match t.shape {
        TypeShape::Array(e) => type_check(*e),
        TypeShape::Paren(e) => type_check(*e),
        TypeShape::Path(args) => match args {
            PathArgs::Bare => Ok(()),
            PathArgs::AngleBracketed(gs) => generic_args_check(gs, gs@.len(), t.text),
            PathArgs::Parenthesized => rejected(TypeCategory::ParenthesizedArgs, t.text),
        },
        TypeShape::Tuple(elems) => types_check(elems, elems@.len()),
        TypeShape::BareFn => rejected(TypeCategory::BareFn, t.text),
        TypeShape::Group => rejected(TypeCategory::Group, t.text),
        TypeShape::ImplTrait => rejected(TypeCategory::ImplTrait, t.text),
        TypeShape::Infer => rejected(TypeCategory::Infer, t.text),
        TypeShape::Macro => rejected(TypeCategory::Macro, t.text),
        TypeShape::Never => rejected(TypeCategory::Never, t.text),
        TypeShape::Ptr => rejected(TypeCategory::Pointer, t.text),
        TypeShape::Reference => rejected(TypeCategory::Reference, t.text),
        TypeShape::Slice => rejected(TypeCategory::Slice, t.text),
        TypeShape::TraitObject => rejected(TypeCategory::TraitObject, t.text),
        TypeShape::Verbatim => Err(EntryPointError::UnhandledType(t.text)),
    }
}

/// The check of the first `n` types of `ts`, from left to right.
pub open spec fn types_check(ts: Vec<TypeNode>, n: nat) -> Result<(), EntryPointError>
    decreases ts, n,
{
    if n == 0 || n > ts@.len() {
        Ok(())
    } else {
        match types_check(ts, (n - 1) as nat) {
            Err(e) => Err(e),
            Ok(_) => type_check(ts@[n - 1]),
        }
    }
}

/// The check of the first `n` generic arguments of the path type whose text is `path`.
pub open spec fn generic_args_check(gs: Vec<GenericArg>, n: nat, path: String) -> Result<
    (),
    EntryPointError,
>
    decreases gs, n,
{
    if n == 0 || n > gs@.len() {
        Ok(())
    } else {
        match generic_args_check(gs, (n - 1) as nat, path) {
            Err(e) => Err(e),
            Ok(_) => match gs@[n - 1] {
                GenericArg::Lifetime => rejected(TypeCategory::Lifetime, path),
                GenericArg::Type(t) => type_check(t),
                GenericArg::Binding(t) => type_check(t),
                GenericArg::Constraint => rejected(TypeCategory::Constraint, path),
                GenericArg::Const => rejected(TypeCategory::Const, path),
            },
        }
    }
}

/// Checks that a type can be the type of an entry point argument.
pub fn check_type(t: &TypeNode) -> (r: Result<(), EntryPointError>)
    ensures
        r == type_check(*t),
    decreases t, 0nat,
{
    match &t.shape {
        TypeShape::Array(e) => check_type(e),
        TypeShape::Paren(e) => check_type(e),
        TypeShape::Path(args) => match args {
            PathArgs::Bare => Ok(()),
            PathArgs::AngleBracketed(gs) => check_generic_args(gs, gs.len(), &t.text),
            PathArgs::Parenthesized => Err(
                EntryPointError::UnexpectedArgType(TypeCategory::ParenthesizedArgs, t.text.clone()),
            ),
        },
        TypeShape::Tuple(elems) => check_types(elems, elems.len()),
        TypeShape::BareFn => Err(
            EntryPointError::UnexpectedArgType(TypeCategory::BareFn, t.text.clone()),
        ),
        TypeShape::Group => Err(
            EntryPointError::UnexpectedArgType(TypeCategory::Group, t.text.clone()),
        ),
        TypeShape::ImplTrait => Err(
            EntryPointError::UnexpectedArgType(TypeCategory::ImplTrait, t.text.clone()),
        ),
        TypeShape::Infer => Err(
            EntryPointError::UnexpectedArgType(TypeCategory::Infer, t.text.clone()),
        ),
        TypeShape::Macro => Err(
            EntryPointError::UnexpectedArgType(TypeCategory::Macro, t.text.clone()),
        ),
        TypeShape::Never => Err(
            EntryPointError::UnexpectedArgType(TypeCategory::Never, t.text.clone()),
        ),
        TypeShape::Ptr => Err(
            EntryPointError::UnexpectedArgType(TypeCategory::Pointer, t.text.clone()),
        ),
        TypeShape::Reference => Err(
            EntryPointError::UnexpectedArgType(TypeCategory::Reference, t.text.clone()),
        ),
        TypeShape::Slice => Err(
            EntryPointError::UnexpectedArgType(TypeCategory::Slice, t.text.clone()),
        ),
        TypeShape::TraitObject => Err(
            EntryPointError::UnexpectedArgType(TypeCategory::TraitObject, t.text.clone()),
        ),
        TypeShape::Verbatim => Err(EntryPointError::UnhandledType(t.text.clone())),
    }
}

fn check_types(ts: &Vec<TypeNode>, n: usize) -> (r: Result<(), EntryPointError>)
    requires
        n <= ts@.len(),
    ensures
        r == types_check(*ts, n as nat),
    decreases ts, n,
{
    if n == 0 {
        return Ok(());
    }
    match check_types(ts, n - 1) {
        Err(e) => Err(e),
        Ok(_) => check_type(&ts[n - 1]),
    }
}

fn check_generic_args(gs: &Vec<GenericArg>, n: usize, path: &String) -> (r: Result<
    (),
    EntryPointError,
>)
    requires
        n <= gs@.len(),
    ensures
        r == generic_args_check(*gs, n as nat, *path),
    decreases gs, n,
{
    if n == 0 {
        return Ok(());
    }
    match check_generic_args(gs, n - 1, path) {
        Err(e) => Err(e),
        Ok(_) => match &gs[n - 1] {
            GenericArg::Lifetime => Err(
                EntryPointError::UnexpectedArgType(TypeCategory::Lifetime, path.clone()),
            ),
            GenericArg::Type(t) => check_type(t),
            GenericArg::Binding(t) => check_type(t),
            GenericArg::Constraint => Err(
                EntryPointError::UnexpectedArgType(TypeCategory::Constraint, path.clone()),
            ),
            GenericArg::Const => Err(
                EntryPointError::UnexpectedArgType(TypeCategory::Const, path.clone()),
            ),
        },
    }
}

/// The mutability an entry point gets from its first parameter.
pub open spec fn mutability_of(ps: Seq<ParamDecl>) -> Mutability {
    if ps.len() > 0 {
        match ps[0] {
            ParamDecl::Receiver { mutable } => if mutable {
                Mutability::Write
            } else {
                Mutability::View
            },
            ParamDecl::Typed { .. } => Mutability::Pure,
        }
    } else {
        Mutability::Pure
    }
}

/// The position of the first argument: after the receiver, if there is one.
pub open spec fn first_argument(ps: Seq<ParamDecl>) -> int {
    if ps.len() > 0 && ps[0] is Receiver {
        1
    } else {
        0
    }
}

/// The argument that a parameter after the receiver becomes, or why it cannot be one.
pub open spec fn param_result(p: ParamDecl) -> Result<MethodArgument, EntryPointError> {
    match p {
        ParamDecl::Receiver { .. } => Err(EntryPointError::UnexpectedArgReceiver),
        ParamDecl::Typed { pattern, ty } => match pattern {
            PatternDecl::Other => Err(EntryPointError::ExpectedBindingToNewVariable),
            PatternDecl::Ident { name, mutable } => match type_check(ty) {
                Err(e) => Err(e),
                Ok(_) => Ok(MethodArgument { name, mutable, arg_type: ty.text }),
            },
        },
    }
}

/// The first error among the arguments of `ps` that stand before position `n`.
pub open spec fn params_error(ps: Seq<ParamDecl>, n: int) -> Option<EntryPointError>
    decreases n,
{
    if n <= first_argument(ps) || n > ps.len() {
        None
    } else {
        match params_error(ps, n - 1) {
            Some(e) => Some(e),
            None => match param_result(ps[n - 1]) {
                Err(e) => Some(e),
                Ok(_) => None,
            },
        }
    }
}

/// Whether a binding suits a dispatch method.
pub open spec fn binding_fits(d: Dispatch, b: Method) -> bool {
    match (d, b) {
        (Dispatch::Numeric, Method::Numeric(_)) => true,
    }
}

/// Why a method with the given binding cannot be an entry point of an implementation with
/// dispatch method `d`, checked in this order: generics, visibility, binding, arguments,
/// and the binding's fit with the dispatch method.
pub open spec fn entry_point_error(m: MethodDecl, binding: Option<Method>, d: Dispatch) -> Option<
    EntryPointError,
> {
    if m.has_generics {
        Some(EntryPointError::GenericsOnEntryPoint(m.name))
    } else if !m.is_public {
        Some(EntryPointError::VisibilityNotPublic(m.name))
    } else if binding is None {
        Some(EntryPointError::MissingBinding(m.name))
    } else if params_error(m.params@, m.params@.len() as int) is Some {
        params_error(m.params@, m.params@.len() as int)
    } else if !binding_fits(d, binding->0) {
        Some(EntryPointError::MismatchedDispatchBinding(m.name, d))
    } else {
        None
    }
}

/// `ep` is the entry point that method `m` with binding `b` becomes.
pub open spec fn is_entry_point_of(ep: ActorEntryPoint, m: MethodDecl, b: Method) -> bool {
    let ps = m.params@;
    let first = first_argument(ps);
    &&& ep.rust_name == m.name
    &&& ep.name == m.name
    &&& ep.binding == b
    &&& ep.mutability == mutability_of(ps)
    &&& ep.returns == m.returns
    &&& ep.arguments@.len() == ps.len() - first
    &&& forall|i: int|
        0 <= i < ep.arguments@.len() ==> ep.arguments@[i] == param_result(ps[i + first])->Ok_0
}

/// A parameter whose type is a reference, a raw pointer, a slice, a function pointer or the
/// never type is rejected, naming that kind of type and the type's text.
pub proof fn lemma_rejected_type_shapes(name: String, mutable: bool, text: String)
    ensures
        param_result(
            ParamDecl::Typed {
                pattern: PatternDecl::Ident { name, mutable },
                ty: TypeNode { shape: TypeShape::Reference, text },
            },
        ) == Err::<MethodArgument, EntryPointError>(
            EntryPointError::UnexpectedArgType(TypeCategory::Reference, text),
        ),
        param_result(
            ParamDecl::Typed {
                pattern: PatternDecl::Ident { name, mutable },
                ty: TypeNode { shape: TypeShape::Ptr, text },
            },
        ) == Err::<MethodArgument, EntryPointError>(
            EntryPointError::UnexpectedArgType(TypeCategory::Pointer, text),
        ),
        param_result(
            ParamDecl::Typed {
                pattern: PatternDecl::Ident { name, mutable },
                ty: TypeNode { shape: TypeShape::Slice, text },
            },
        ) == Err::<MethodArgument, EntryPointError>(
            EntryPointError::UnexpectedArgType(TypeCategory::Slice, text),
        ),
        param_result(
            ParamDecl::Typed {
                pattern: PatternDecl::Ident { name, mutable },
                ty: TypeNode { shape: TypeShape::BareFn, text },
            },
        ) == Err::<MethodArgument, EntryPointError>(
            EntryPointError::UnexpectedArgType(TypeCategory::BareFn, text),
        ),
        param_result(
            ParamDecl::Typed {
                pattern: PatternDecl::Ident { name, mutable },
                ty: TypeNode { shape: TypeShape::Never, text },
            },
        ) == Err::<MethodArgument, EntryPointError>(
            EntryPointError::UnexpectedArgType(TypeCategory::Never, text),
        ),
        category_label(TypeCategory::Reference) == "a referenced type"@,
        category_label(TypeCategory::Pointer) == "a pointer type"@,
        category_label(TypeCategory::Slice) == "a slice type"@,
        category_label(TypeCategory::BareFn) == "a bare function type"@,
        category_label(TypeCategory::Never) == "the never type"@,
{
}

/// Once an argument error is met, it stays the first one.
proof fn lemma_params_error_stable(ps: Seq<ParamDecl>, k: int, n: int)
    requires
        k <= n <= ps.len(),
        params_error(ps, k) is Some,
    ensures
        params_error(ps, n) == params_error(ps, k),
    decreases n - k,
{
    if n > k {
        lemma_params_error_stable(ps, k, n - 1);
    }
}

/// Classifies one parameter after the receiver.
pub fn classify_param(p: &ParamDecl) -> (r: Result<MethodArgument, EntryPointError>)
    ensures
        r == param_result(*p),
{
    match p {
        ParamDecl::Receiver { .. } => Err(EntryPointError::UnexpectedArgReceiver),
        ParamDecl::Typed { pattern, ty } => match pattern {
            PatternDecl::Other => Err(EntryPointError::ExpectedBindingToNewVariable),
            PatternDecl::Ident { name, mutable } => match check_type(ty) {
                Err(e) => Err(e),
                Ok(_) => Ok(MethodArgument { name: name.clone(), mutable: *mutable, arg_type: ty.text.clone() }),
            },
        },
    }
}

/// The mutability of a method, from its first parameter.
pub fn classify_mutability(ps: &Vec<ParamDecl>) -> (r: Mutability)
    ensures
        r == mutability_of(ps@),
{
    if ps.len() > 0 {
        match &ps[0] {
            ParamDecl::Receiver { mutable } => if *mutable {
                Mutability::Write
            } else {
                Mutability::View
            },
            ParamDecl::Typed { .. } => Mutability::Pure,
        }
    } else {
        Mutability::Pure
    }
}

/// Classifies a method exported with attributes `attrs` in an implementation with
/// dispatch method `dispatch`.
pub fn classify_entry_point(m: &MethodDecl, attrs: &ExportAttrs, dispatch: Dispatch) -> (r: Result<
    ActorEntryPoint,
    EntryPointError,
>)
    ensures
        match entry_point_error(*m, first_binding(attrs.settings()), dispatch) {
            Some(e) => r == Err::<ActorEntryPoint, EntryPointError>(e),
            None => r is Ok && is_entry_point_of(
                r->Ok_0,
                *m,
                first_binding(attrs.settings())->0,
            ),
        },
{
    if m.has_generics {
        return Err(EntryPointError::GenericsOnEntryPoint(m.name.clone()));
    }
    if !m.is_public {
        return Err(EntryPointError::VisibilityNotPublic(m.name.clone()));
    }
    let binding = match attrs.binding_method() {
        Some(b) => b,
        None => return Err(EntryPointError::MissingBinding(m.name.clone())),
    };
    let ghost ps = m.params@;
    let start: usize = if m.params.len() > 0 {
        match &m.params[0] {
            ParamDecl::Receiver { .. } => 1,
            ParamDecl::Typed { .. } => 0,
        }
    } else {
        0
    };
    assert(start as int == first_argument(ps));
    let mut arguments: Vec<MethodArgument> = Vec::new();
    let mut i: usize = start;
    while i < m.params.len()
        invariant
            ps == m.params@,
            !m.has_generics,
            m.is_public,
            first_binding(attrs.settings()) == Some(binding),
            start as int == first_argument(ps),
            start <= i <= ps.len(),
            params_error(ps, i as int) is None,
            arguments@.len() == i - start,
            forall|k: int|
                0 <= k < arguments@.len() ==> arguments@[k] == param_result(ps[k + start])->Ok_0,
        decreases ps.len() - i,
    {
        match classify_param(&m.params[i]) {
            Ok(a) => {
                arguments.push(a);
            },
            Err(e) => {
                proof {
                    assert(params_error(ps, i + 1) == Some(e));
                    lemma_params_error_stable(ps, i + 1, ps.len() as int);
                }
                return Err(e);
            },
        }
        i = i + 1;
    }
    match (dispatch, binding) {
        (Dispatch::Numeric, Method::Numeric(_)) => {},
    }
    let mutability = classify_mutability(&m.params);
    Ok(
        ActorEntryPoint {
            rust_name: m.name.clone(),
            name: m.name.clone(),
            binding,
            mutability,
            returns: m.returns,
            arguments,
        },
    )
}

} // verus!
