use std::str::FromStr;

use fvm_rs_sdk_macro_support::analyze::{actor_implementation, state_struct, MacroType};
use fvm_rs_sdk_macro_support::ast::{FieldMember, Mutability};
use fvm_rs_sdk_macro_support::attrs::{AttrToken, Codec, Dispatch, Method};
use fvm_rs_sdk_macro_support::classify::EntryPointError;
use fvm_rs_sdk_macro_support::codegen::{
    dispatch_steps, dispatch_table, render_dispatch, DispatchStep,
};
use fvm_rs_sdk_macro_support::decl::{
    AttributeDecl, FieldDecl, GenericArg, ImplDecl, ImplTarget, ItemDecl, MethodDecl, ParamDecl, PathArgs,
    PatternDecl, StructDecl, TypeNode, TypeShape,
};
use fvm_rs_sdk_macro_support::expand::{expand, Expansion};
use fvm_rs_sdk_macro_support::macro_attrs::StateAttrs;

fn ident(s: &str) -> AttrToken {
    AttrToken::Ident(s.to_string())
}

fn punct(c: char) -> AttrToken {
    AttrToken::Punct(c)
}

fn lit(s: &str) -> AttrToken {
    AttrToken::Literal(s.to_string())
}

fn path_ty(text: &str) -> TypeNode {
    TypeNode { shape: TypeShape::Path(PathArgs::Bare), text: text.to_string() }
}

fn field(name: Option<&str>, is_public: bool, ty: &str) -> FieldDecl {
    FieldDecl { name: name.map(|n| n.to_string()), is_public, ty: path_ty(ty) }
}

fn mock_struct(has_generics: bool, fields: Vec<FieldDecl>) -> ItemDecl {
    ItemDecl::Struct(StructDecl { name: "MockStruct".to_string(), has_generics, fields })
}

fn export(key: &str, value: AttrToken) -> AttributeDecl {
    AttributeDecl { name: "fvm_export".to_string(), args: vec![ident(key), punct('='), value] }
}

fn arg(name: &str, mutable: bool, ty: TypeNode) -> ParamDecl {
    ParamDecl::Typed { pattern: PatternDecl::Ident { name: name.to_string(), mutable }, ty }
}

fn method(
    name: &str,
    params: Vec<ParamDecl>,
    returns: bool,
    attrs: Vec<AttributeDecl>,
) -> MethodDecl {
    MethodDecl {
        name: name.to_string(),
        is_public: true,
        has_generics: false,
        params,
        returns,
        attrs,
    }
}

fn target(name: &str) -> ImplTarget {
    ImplTarget {
        is_path: true,
        qualified: false,
        leading_colon: false,
        segments: 1,
        has_arguments: false,
        text: name.to_string(),
    }
}

fn actor(methods: Vec<MethodDecl>) -> ItemDecl {
    ItemDecl::Impl(ImplDecl { has_generics: false, target: target("Actor"), methods })
}

fn expand_err(t: MacroType, attr: Vec<AttrToken>, item: ItemDecl) -> String {
    match expand(t, &attr, &item) {
        Err(d) => d.render(),
        Ok(_) => panic!("expansion should fail"),
    }
}

fn expand_ok(t: MacroType, attr: Vec<AttrToken>, item: ItemDecl) -> Expansion {
    match expand(t, &attr, &item) {
        Ok(x) => x,
        Err(d) => panic!("expansion failed: {}", d.render()),
    }
}

fn counter_actor(key: &str) -> ItemDecl {
    actor(vec![
        method("new", vec![], true, vec![export(key, lit("1"))]),
        method(
            "add",
            vec![ParamDecl::Receiver { mutable: true }, arg("value", false, path_ty("u64"))],
            false,
            vec![export(key, lit("2"))],
        ),
        method("read", vec![ParamDecl::Receiver { mutable: false }], true, vec![export(key, lit("3"))]),
    ])
}

fn normalized(code: &str) -> String {
    proc_macro2::TokenStream::from_str(code).unwrap().to_string()
}

#[test]
fn parser_struct_to_ast() {
    let x = expand_ok(MacroType::State, vec![], mock_struct(false, vec![field(Some("count"), true, "u64")]));
    let parsed_struct = &x.program.state_structs[0];
    let parsed_field = &parsed_struct.fields[0];

    assert_eq!(parsed_struct.name, "MockStruct");
    assert_eq!(parsed_struct.rust_name, parsed_struct.name);
    assert_eq!(parsed_struct.codec, Codec::DagCbor);

    assert_eq!(parsed_field.name, "count");
    assert_eq!(parsed_field.struct_name, parsed_struct.name);
    assert_eq!(parsed_field.ty, "u64");
    match &parsed_field.rust_name {
        FieldMember::Named(ident) => assert_eq!(*ident, parsed_field.name),
        _ => panic!("parsed struct field rust name should be named"),
    }
}

#[test]
fn fvm_state_parser_struct_to_ast() {
    let d = StructDecl {
        name: "MockStruct".to_string(),
        has_generics: false,
        fields: vec![field(Some("count"), true, "u64")],
    };
    let s = state_struct(&d, &StateAttrs::new()).unwrap();
    assert_eq!(s.name, "MockStruct");
    assert_eq!(s.fields[0].name, "count");
    assert_eq!(s.fields[0].ty, "u64");
    assert_eq!(s.fields[0].rust_name, FieldMember::Named("count".to_string()));
}

#[test]
fn parser_no_struct_with_lifetime() {
    let item = mock_struct(true, vec![field(Some("count"), true, "&'a u64")]);
    match expand(MacroType::State, &vec![], &item) {
        Err(diagnostic) => assert_eq!(
            diagnostic.first_message().unwrap(),
            "structure with #[fvm_state] cannot have lifetime or type parameters."
        ),
        _ => panic!("parse result should be error when struct has lifetime"),
    }
    match expand(MacroType::Payload, &vec![], &item) {
        Err(diagnostic) => assert_eq!(
            diagnostic.first_message().unwrap(),
            "structure with #[fvm_payload] cannot have lifetime or type parameters."
        ),
        _ => panic!("parse result should be error when struct has lifetime"),
    }
}

#[test]
fn parser_private_fields_not_parsed() {
    let item = mock_struct(
        false,
        vec![field(Some("count"), true, "u64"), field(Some("count_bis"), false, "u64")],
    );
    let x = expand_ok(MacroType::State, vec![], item);
    let parsed_struct = &x.program.state_structs[0];
    assert_eq!(parsed_struct.fields.len(), 1usize);
    assert_eq!(parsed_struct.fields[0].name, "count");
}

#[test]
fn fvm_state_parser_private_fields_not_parsed() {
    let d = StructDecl {
        name: "MockStruct".to_string(),
        has_generics: false,
        fields: vec![field(Some("count"), true, "u64"), field(Some("count_bis"), false, "u64")],
    };
    let s = state_struct(&d, &StateAttrs::new()).unwrap();
    assert_eq!(s.fields.len(), 1usize);
    assert_eq!(s.fields[0].name, "count");
}

#[test]
fn public_fields_kept_in_declaration_order() {
    let item = mock_struct(
        false,
        vec![
            field(Some("a"), false, "u8"),
            field(Some("b"), true, "u16"),
            field(Some("c"), false, "u32"),
            field(Some("d"), true, "u64"),
            field(Some("e"), true, "String"),
        ],
    );
    let x = expand_ok(MacroType::State, vec![], item);
    let names: Vec<&str> = x.program.state_structs[0].fields.iter().map(|f| f.name.as_str()).collect();
    assert_eq!(names, vec!["b", "d", "e"]);
}

#[test]
fn tuple_struct_fields_named_by_position() {
    let item = mock_struct(
        false,
        vec![field(None, false, "u8"), field(None, true, "u64"), field(None, true, "String")],
    );
    let x = expand_ok(MacroType::State, vec![], item);
    let fields = &x.program.state_structs[0].fields;
    assert_eq!(fields.len(), 2);
    assert_eq!(fields[0].name, "1");
    assert_eq!(fields[0].rust_name, FieldMember::Unnamed(1));
    assert_eq!(fields[1].name, "2");
    assert_eq!(fields[1].ty, "String");
}

#[test]
fn parser_struct_with_codec_attr() {
    let attr = vec![ident("codec"), punct('='), lit("\"dag-cbor\"")];
    let x = expand_ok(MacroType::Payload, attr, mock_struct(false, vec![field(Some("count"), true, "u64")]));
    assert_eq!(x.program.payload_structs[0].codec, Codec::DagCbor);
    assert_eq!(x.program.payload_structs[0].name, "MockStruct");
}

#[test]
fn parser_struct_with_unknown_attr() {
    let attr = vec![ident("john"), punct('='), lit("\"dag-cbor\"")];
    let r = expand_err(MacroType::Payload, attr, mock_struct(false, vec![]));
    assert_eq!(r, "compile_error ! { \"unknown attribute 'john'\" }");
}

#[test]
fn structure_macros_need_a_structure() {
    let r = expand_err(MacroType::State, vec![], ItemDecl::Other);
    assert_eq!(r, "compile_error ! { \"#[fvm_state] should be used with a structure.\" }");
    let r = expand_err(MacroType::Payload, vec![], actor(vec![]));
    assert_eq!(r, "compile_error ! { \"#[fvm_payload] should be used with a structure.\" }");
    let r = expand_err(MacroType::Actor, vec![], mock_struct(false, vec![]));
    assert_eq!(r, "compile_error ! { \"#[fvm_actor] should be used with an implementation.\" }");
}

#[test]
fn implementation_to_ast() {
    // A method without #[fvm_export] is not an entry point.
    let item = actor(vec![method("new", vec![], true, vec![])]);
    let x = expand_ok(MacroType::Actor, vec![], item);
    let actor_implementation = x.program.actor_implementation.unwrap();
    assert_eq!(actor_implementation.name, String::from("Actor"));
    assert_eq!(actor_implementation.dispatch, Dispatch::Numeric);
    assert!(actor_implementation.entry_points.is_empty());
}

#[test]
fn implementation_with_generics() {
    let item = ItemDecl::Impl(ImplDecl {
        has_generics: true,
        target: ImplTarget { has_arguments: true, text: "Actor < T >".to_string(), ..target("Actor") },
        methods: vec![],
    });
    assert_eq!(
        expand_err(MacroType::Actor, vec![], item),
        "compile_error ! { \"implementation with #[fvm_actor] cannot have lifetime or type parameters.\" }"
    );
}

#[test]
fn implementation_target_must_be_plain() {
    for t in [
        ImplTarget { segments: 2, ..target("a::Actor") },
        ImplTarget { leading_colon: true, ..target("::Actor") },
        ImplTarget { has_arguments: true, ..target("Actor<u8>") },
        ImplTarget { qualified: true, ..target("<T as X>::Actor") },
        ImplTarget { is_path: false, ..target("(u8, u8)") },
    ] {
        let item = ItemDecl::Impl(ImplDecl { has_generics: false, target: t, methods: vec![] });
        let r = expand_err(MacroType::Actor, vec![], item);
        assert!(r.contains("expected implementation for type with no leading colon, 1 path segment"));
    }
}

#[test]
fn export_to_ast() {
    let x = expand_ok(MacroType::Actor, vec![], counter_actor("method_num"));
    let actor_entry_points = &x.program.actor_implementation.unwrap().entry_points;
    assert_eq!(actor_entry_points.len(), 3);

    assert_eq!(actor_entry_points[0].name, String::from("new"));
    assert_eq!(actor_entry_points[0].binding, Method::Numeric(1));
    match actor_entry_points[0].mutability {
        Mutability::Pure => {}
        _ => panic!("method with no receiver should be pure"),
    }
    assert!(actor_entry_points[0].returns);

    assert_eq!(actor_entry_points[1].name, String::from("add"));
    assert_eq!(actor_entry_points[1].binding, Method::Numeric(2));
    match actor_entry_points[1].mutability {
        Mutability::Write => {}
        _ => panic!("method with mutable receiver should be write"),
    }
    assert!(!actor_entry_points[1].returns);

    assert_eq!(actor_entry_points[2].name, String::from("read"));
    assert_eq!(actor_entry_points[2].binding, Method::Numeric(3));
    match actor_entry_points[2].mutability {
        Mutability::View => {}
        _ => panic!("method with receiver should be view"),
    }
    assert!(actor_entry_points[2].returns);
}

#[test]
fn no_binding() {
    let item = actor(vec![method(
        "new",
        vec![],
        true,
        vec![AttributeDecl { name: "fvm_export".to_string(), args: vec![] }],
    )]);
    assert_eq!(
        expand_err(MacroType::Actor, vec![], item),
        "compile_error ! { \"binding should be specified on method 'new'\" }"
    );
}

#[test]
fn bad_binding_type() {
    let item = actor(vec![method("new", vec![], true, vec![export("method_num", lit("\"toto\""))])]);
    assert_eq!(
        expand_err(MacroType::Actor, vec![], item),
        "compile_error ! { \"invalid 'method_num' value, expected integer literal\" }"
    );
}

#[test]
fn unknown_attribute() {
    let item = actor(vec![method("new", vec![], true, vec![export("hello", lit("1"))])]);
    assert_eq!(
        expand_err(MacroType::Actor, vec![], item),
        "compile_error ! { \"unknown attribute 'hello'\" }"
    );
}

#[test]
fn generic_on_method() {
    let mut m = method("mock", vec![], true, vec![export("method_num", lit("1"))]);
    m.has_generics = true;
    m.is_public = false;
    assert_eq!(
        expand_err(MacroType::Actor, vec![], actor(vec![m])),
        "compile_error ! { \"'mock' can not be used as an entry point. Methods with #[fvm_export] cannot have lifetime or type parameters.\" }"
    );
}

#[test]
fn private_entry_point_rejected() {
    let mut m = method("hidden", vec![], false, vec![export("binding", lit("1"))]);
    m.is_public = false;
    assert_eq!(
        expand_err(MacroType::Actor, vec![], actor(vec![m])),
        "compile_error ! { \"'hidden' can not be used as an entry point. Methods with #[fvm_export] must be public.\" }"
    );
}

#[test]
fn argument_shapes_rejected() {
    let cases = [
        (TypeShape::Reference, "&u64", "a referenced type"),
        (TypeShape::Ptr, "*mut u64", "a pointer type"),
        (TypeShape::Slice, "[u64]", "a slice type"),
        (TypeShape::BareFn, "fn(u64) -> u64", "a bare function type"),
        (TypeShape::Never, "!", "the never type"),
        (TypeShape::TraitObject, "dyn Any", "a trait object type"),
        (TypeShape::ImplTrait, "impl Any", "an impl type"),
        (TypeShape::Infer, "_", "the infer type"),
        (TypeShape::Macro, "ty!()", "a macro"),
        (TypeShape::Group, "u64", "a type contained within invisible delimiters"),
    ];
    for (shape, text, label) in cases {
        let ty = TypeNode { shape, text: text.to_string() };
        let m = method(
            "add",
            vec![ParamDecl::Receiver { mutable: true }, arg("a", false, ty)],
            false,
            vec![export("method_num", lit("1"))],
        );
        let expected = format!(
            "compile_error ! {{ \"{}, '{}', can not be used as a type for an entry point argument.\" }}",
            label, text
        );
        assert_eq!(expand_err(MacroType::Actor, vec![], actor(vec![m])), expected);
    }
}

#[test]
fn nested_argument_types_checked() {
    // Box<[u64]>: the slice inside the path's arguments is rejected.
    let boxed_slice = TypeNode {
        shape: TypeShape::Path(PathArgs::AngleBracketed(vec![
            GenericArg::Type(TypeNode {
                shape: TypeShape::Slice,
                text: "[u64]".to_string(),
            }),
        ])),
        text: "Box < [u64] >".to_string(),
    };
    let m = method(
        "call",
        vec![ParamDecl::Receiver { mutable: true }, arg("a", false, boxed_slice)],
        false,
        vec![export("method_num", lit("1"))],
    );
    assert_eq!(
        expand_err(MacroType::Actor, vec![], actor(vec![m])),
        "compile_error ! { \"a slice type, '[u64]', can not be used as a type for an entry point argument.\" }"
    );
    // Cow<'a, str>: a lifetime argument names the whole path.
    let cow = TypeNode {
        shape: TypeShape::Path(PathArgs::AngleBracketed(vec![
            GenericArg::Lifetime,
            GenericArg::Type(path_ty("str")),
        ])),
        text: "Cow < 'a , str >".to_string(),
    };
    let m = method("call", vec![arg("a", false, cow)], false, vec![export("method_num", lit("1"))]);
    assert_eq!(
        expand_err(MacroType::Actor, vec![], actor(vec![m])),
        "compile_error ! { \"a type with specified lifetime, 'Cow < 'a , str >', can not be used as a type for an entry point argument.\" }"
    );
    // Tuples, arrays and parenthesized types of plain paths are accepted.
    let tuple = TypeNode {
        shape: TypeShape::Tuple(vec![path_ty("String"), path_ty("String")]),
        text: "(String, String)".to_string(),
    };
    let array = TypeNode { shape: TypeShape::Array(Box::new(path_ty("u8"))), text: "[u8; 5]".to_string() };
    let paren = TypeNode { shape: TypeShape::Paren(Box::new(path_ty("u8"))), text: "(u8)".to_string() };
    let m = method(
        "first_mock",
        vec![
            ParamDecl::Receiver { mutable: true },
            arg("_e", false, tuple),
            arg("_d", true, array),
            arg("_p", false, paren),
        ],
        true,
        vec![export("method_num", lit("1"))],
    );
    let x = expand_ok(MacroType::Actor, vec![], actor(vec![m]));
    let ep = &x.program.actor_implementation.unwrap().entry_points[0];
    assert_eq!(ep.arguments.len(), 3);
    assert_eq!(ep.arguments[1].arg_type, "[u8; 5]");
    assert!(ep.arguments[1].mutable);
}

#[test]
fn unhandled_and_misplaced_parameters() {
    let m = method(
        "f",
        vec![arg("a", false, TypeNode { shape: TypeShape::Verbatim, text: "weird".to_string() })],
        false,
        vec![export("binding", lit("1"))],
    );
    assert_eq!(
        expand_err(MacroType::Actor, vec![], actor(vec![m])),
        "compile_error ! { \"'weird' can not be interpreted and thus can not be used as a type for an entry point argument.\" }"
    );
    let m = method(
        "f",
        vec![arg("a", false, path_ty("u8")), ParamDecl::Receiver { mutable: false }],
        false,
        vec![export("binding", lit("1"))],
    );
    assert_eq!(
        expand_err(MacroType::Actor, vec![], actor(vec![m])),
        "compile_error ! { \"'self' should only be used as first argument for an entry point argument.\" }"
    );
    let m = method(
        "f",
        vec![ParamDecl::Typed { pattern: PatternDecl::Other, ty: path_ty("(u8, u8)") }],
        false,
        vec![export("binding", lit("1"))],
    );
    assert_eq!(
        expand_err(MacroType::Actor, vec![], actor(vec![m])),
        "compile_error ! { \"expected binding to variable when parsing method arguments.\" }"
    );
}

#[test]
fn pure_method_keeps_all_parameters() {
    let m = method("make", vec![arg("seed", false, path_ty("u64"))], true, vec![export("binding", lit("9"))]);
    let x = expand_ok(MacroType::Actor, vec![], actor(vec![m]));
    let ep = &x.program.actor_implementation.unwrap().entry_points[0];
    assert_eq!(ep.mutability, Mutability::Pure);
    assert_eq!(ep.arguments.len(), 1);
    assert_eq!(ep.arguments[0].name, "seed");
}

#[test]
fn counter_actor_end_to_end() {
    let x = expand_ok(MacroType::Actor, vec![], counter_actor("binding"));
    let imp = x.program.actor_implementation.unwrap();
    let summary: Vec<(u64, Mutability, bool)> = imp
        .entry_points
        .iter()
        .map(|ep| (ep.binding.value(), ep.mutability, ep.returns))
        .collect();
    assert_eq!(
        summary,
        vec![(1, Mutability::Pure, true), (2, Mutability::Write, false), (3, Mutability::View, true)]
    );
    let table = dispatch_table(&imp);
    assert_eq!(table.cases.len(), 3);
    assert_eq!(x.after, render_dispatch(&imp));
    assert_eq!(x.after.matches(" => { ").count(), 3);
    assert!(x.after.contains("_ => fvm_rs_sdk::syscall::vm::abort(fvm_rs_sdk::shared::error::ExitCode::USR_UNHANDLED_MESSAGE.value(), Some(\"unrecognized method\"))"));
    assert!(x.before.is_empty());
    // The generated code is well-formed Rust tokens.
    assert!(proc_macro2::TokenStream::from_str(&x.after).is_ok());
}

#[test]
fn state_steps_follow_mutability() {
    let x = expand_ok(MacroType::Actor, vec![], counter_actor("binding"));
    let imp = x.program.actor_implementation.unwrap();
    assert_eq!(
        dispatch_steps(&imp.entry_points[0]),
        vec![DispatchStep::Call { on_state: false, returns: true }, DispatchStep::SerializeResult]
    );
    assert_eq!(
        dispatch_steps(&imp.entry_points[1]),
        vec![
            DispatchStep::DeserializeArguments,
            DispatchStep::LoadState { mutable: true },
            DispatchStep::Call { on_state: true, returns: false },
            DispatchStep::SaveState,
        ]
    );
    assert_eq!(
        dispatch_steps(&imp.entry_points[2]),
        vec![
            DispatchStep::LoadState { mutable: false },
            DispatchStep::Call { on_state: true, returns: true },
            DispatchStep::SerializeResult,
        ]
    );
}

#[test]
fn dispatch_code_for_counter_actor() {
    let x = expand_ok(MacroType::Actor, vec![], counter_actor("binding"));
    let expected = "#[no_mangle] pub fn invoke(params_pointer: u32) -> u32 { let ret: Option<fvm_rs_sdk::encoding::RawBytes> = match fvm_rs_sdk::syscall::message::method_number() { \
        1 => { let method_return = Actor::new(); let ret = match fvm_rs_sdk::encoding::to_vec(&method_return) { Ok(bytes) => fvm_rs_sdk::encoding::RawBytes::new(bytes), Err(err) => fvm_rs_sdk::syscall::vm::abort(fvm_rs_sdk::shared::error::ExitCode::USR_SERIALIZATION.value(), Some(format!(\"failed to serialize return value: {:?}\", err).as_str())), }; Some(ret) }, \
        2 => { let params_bytes = match fvm_rs_sdk::syscall::message::params_raw(params_pointer) { Ok(params) => params.1, Err(err) => fvm_rs_sdk::syscall::vm::abort(fvm_rs_sdk::shared::error::ExitCode::USR_SERIALIZATION.value(), Some(format!(\"failed to read parameters: {:?}\", err).as_str())), }; let (value0): (u64) = match fvm_rs_sdk::encoding::RawBytes::new(params_bytes).deserialize() { Ok(params) => params, Err(err) => fvm_rs_sdk::syscall::vm::abort(fvm_rs_sdk::shared::error::ExitCode::USR_SERIALIZATION.value(), Some(format!(\"failed to deserialize parameters: {:?}\", err).as_str())), }; let mut state = <Actor as fvm_rs_sdk::state::StateObject>::load(); state.add(value0); fvm_rs_sdk::state::StateObject::save(&state); None }, \
        3 => { let state = <Actor as fvm_rs_sdk::state::StateObject>::load(); let method_return = state.read(); let ret = match fvm_rs_sdk::encoding::to_vec(&method_return) { Ok(bytes) => fvm_rs_sdk::encoding::RawBytes::new(bytes), Err(err) => fvm_rs_sdk::syscall::vm::abort(fvm_rs_sdk::shared::error::ExitCode::USR_SERIALIZATION.value(), Some(format!(\"failed to serialize return value: {:?}\", err).as_str())), }; Some(ret) }, \
        _ => fvm_rs_sdk::syscall::vm::abort(fvm_rs_sdk::shared::error::ExitCode::USR_UNHANDLED_MESSAGE.value(), Some(\"unrecognized method\")), }; match ret { None => fvm_rs_sdk::syscall::NO_DATA_BLOCK_ID, Some(v) => match fvm_rs_sdk::syscall::ipld::put_block(fvm_rs_sdk::encoding::DAG_CBOR, v.bytes()) { Ok(id) => id, Err(err) => fvm_rs_sdk::syscall::vm::abort(fvm_rs_sdk::shared::error::ExitCode::USR_SERIALIZATION.value(), Some(format!(\"failed to store return value: {}\", err).as_str())), }, } }";
    assert_eq!(x.after, expected);
}

#[test]
fn arguments_rendered_with_positions() {
    let m = method(
        "set",
        vec![
            ParamDecl::Receiver { mutable: true },
            arg("key", false, path_ty("String")),
            arg("value", true, path_ty("Vec<u8>")),
        ],
        false,
        vec![export("binding", lit("12"))],
    );
    let x = expand_ok(MacroType::Actor, vec![], actor(vec![m]));
    assert!(x.after.contains("12 => { "));
    assert!(x.after.contains("let (key0, mut value1): (String, Vec<u8>) = "));
    assert!(x.after.contains("state.set(key0, value1); "));
}

#[test]
fn shared_binding_keeps_both_cases() {
    let item = actor(vec![
        method("first", vec![], false, vec![export("binding", lit("1"))]),
        method("second", vec![], false, vec![export("binding", lit("1"))]),
    ]);
    let x = expand_ok(MacroType::Actor, vec![], item);
    let imp = x.program.actor_implementation.unwrap();
    assert_eq!(imp.entry_points.len(), 2);
    let table = dispatch_table(&imp);
    assert_eq!(table.cases[0].binding, 1);
    assert_eq!(table.cases[1].binding, 1);
    // Both arms are emitted, in declaration order: the first one is the one reached.
    let first = x.after.find("Actor::first()").unwrap();
    let second = x.after.find("Actor::second()").unwrap();
    assert!(first < second);
    assert_eq!(x.after.matches("1 => { ").count(), 2);
}

#[test]
fn first_error_among_methods_reported() {
    let item = actor(vec![
        method("ok", vec![], false, vec![export("binding", lit("1"))]),
        method("a", vec![], false, vec![]),
        method("bad", vec![], false, vec![export("nope", lit("1"))]),
        method("worse", vec![], false, vec![AttributeDecl { name: "fvm_export".to_string(), args: vec![] }]),
    ]);
    assert_eq!(
        expand_err(MacroType::Actor, vec![], item),
        "compile_error ! { \"unknown attribute 'nope'\" }"
    );
}

#[test]
fn actor_attribute_list_checked() {
    let attr = vec![ident("dispatch"), punct('='), lit("\"method-num\"")];
    let x = expand_ok(MacroType::Actor, attr, counter_actor("binding"));
    assert_eq!(x.program.actor_implementation.unwrap().dispatch, Dispatch::Numeric);
    let attr = vec![ident("dispatch"), punct('='), lit("\"name\"")];
    assert_eq!(
        expand_err(MacroType::Actor, attr, counter_actor("binding")),
        "compile_error ! { \"unknown dispatch method 'name'\" }"
    );
}

#[test]
fn direct_analysis_of_implementation() {
    let d = match counter_actor("method_num") {
        ItemDecl::Impl(i) => i,
        _ => unreachable!(),
    };
    let imp = actor_implementation(&d, Dispatch::Numeric).unwrap();
    assert_eq!(imp.rust_name, "Actor");
    assert_eq!(imp.entry_points[1].arguments[0].name, "value");
    assert_eq!(imp.entry_points[1].arguments[0].arg_type, "u64");
}

#[test]
fn codegen_basic_struct() {
    let x = expand_ok(MacroType::State, vec![], mock_struct(false, vec![field(Some("count"), true, "u64")]));
    let generated = format!("{}pub struct MockStruct {{ pub count: u64 }} {}", x.before, x.after);
    let expected = r#"
        #[derive(fvm_rs_sdk::encoding::tuple::Serialize_tuple, fvm_rs_sdk::encoding::tuple::Deserialize_tuple)]
        #[serde( crate = "fvm_rs_sdk::encoding::serde")]
        pub struct MockStruct {
            pub count: u64
        }

        impl fvm_rs_sdk::state::StateObject for MockStruct {
            fn load() -> Self {
                use fvm_rs_sdk::encoding::CborStore;
                let root = match fvm_rs_sdk::syscall::sself::root() {
                    Ok(root) => root,
                    Err(err) => fvm_rs_sdk::syscall::vm::abort(
                        fvm_rs_sdk::shared::error::ExitCode::USR_ILLEGAL_STATE.value(),
                        Some(format!("failed to get root: {:?}", err).as_str()),
                    ),
                };
                match fvm_rs_sdk::state::cbor::CborBlockstore.get_cbor::<Self>(&root) {
                    Ok(Some(state)) => state,
                    Ok(None) => fvm_rs_sdk::syscall::vm::abort(
                        fvm_rs_sdk::shared::error::ExitCode::USR_ILLEGAL_STATE.value(),
                        Some("state does not exist"),
                    ),
                    Err(err) => fvm_rs_sdk::syscall::vm::abort(
                        fvm_rs_sdk::shared::error::ExitCode::USR_ILLEGAL_STATE.value(),
                        Some(format!("failed to get state: {}", err).as_str()),
                    ),
                }
            }

            fn save(&self) -> fvm_rs_sdk::cid::Cid {
                let serialized = match fvm_rs_sdk::encoding::to_vec(self) {
                    Ok(s) => s,
                    Err(err) => fvm_rs_sdk::syscall::vm::abort(
                        fvm_rs_sdk::shared::error::ExitCode::USR_SERIALIZATION.value(),
                        Some(format!("failed to serialize state: {:?}", err).as_str()),
                    ),
                };
                let cid = match fvm_rs_sdk::syscall::ipld::put(
                    fvm_rs_sdk::cid::Code::Blake2b256.into(),
                    fvm_rs_sdk::state::cbor::SIZE,
                    fvm_rs_sdk::encoding::DAG_CBOR,
                    serialized.as_slice(),
                ) {
                    Ok(cid) => cid,
                    Err(err) => fvm_rs_sdk::syscall::vm::abort(
                        fvm_rs_sdk::shared::error::ExitCode::USR_SERIALIZATION.value(),
                        Some(format!("failed to store initial state: {:}", err).as_str()),
                    ),
                };
                if let Err(err) = fvm_rs_sdk::syscall::sself::set_root(&cid) {
                    fvm_rs_sdk::syscall::vm::abort(
                        fvm_rs_sdk::shared::error::ExitCode::USR_ILLEGAL_STATE.value(),
                        Some(format!("failed to set root cid: {:}", err).as_str()),
                    );
                }
                cid
            }
        }
    "#;
    assert_eq!(normalized(&generated), normalized(expected));
}

#[test]
fn payload_codegen_basic_struct() {
    let x = expand_ok(MacroType::Payload, vec![], mock_struct(false, vec![field(Some("count"), true, "u64")]));
    let generated = format!("{}pub struct MockStruct {{ pub count: u64 }}{}", x.before, x.after);
    let expected = r#"
        #[derive(fvm_rs_sdk::encoding::tuple::Serialize_tuple, fvm_rs_sdk::encoding::tuple::Deserialize_tuple)]
        #[serde( crate = "fvm_rs_sdk::encoding::serde")]
        pub struct MockStruct {
            pub count: u64
        }
    "#;
    assert_eq!(normalized(&generated), normalized(expected));
    assert!(x.program.state_structs.is_empty());
}

#[test]
fn remaining_argument_shapes_rejected() {
    let cases = [
        (PathArgs::AngleBracketed(vec![GenericArg::Constraint]), "Box < T : Clone >", "a constraint type"),
        (PathArgs::AngleBracketed(vec![GenericArg::Const]), "Buf < 4 >", "a const expression"),
        (PathArgs::Parenthesized, "Fn (u8)", "arguments of a function path segment"),
    ];
    for (args, text, label) in cases {
        let ty = TypeNode { shape: TypeShape::Path(args), text: text.to_string() };
        let m = method("f", vec![arg("a", false, ty)], false, vec![export("binding", lit("1"))]);
        let expected = format!(
            "compile_error ! {{ \"{}, '{}', can not be used as a type for an entry point argument.\" }}",
            label, text
        );
        assert_eq!(expand_err(MacroType::Actor, vec![], actor(vec![m])), expected);
    }
    // An associated type binding is checked by its type.
    let ty = TypeNode {
        shape: TypeShape::Path(PathArgs::AngleBracketed(vec![GenericArg::Binding(TypeNode {
            shape: TypeShape::Reference,
            text: "& u8".to_string(),
        })])),
        text: "It < Item = & u8 >".to_string(),
    };
    let m = method("f", vec![arg("a", false, ty)], false, vec![export("binding", lit("1"))]);
    assert_eq!(
        expand_err(MacroType::Actor, vec![], actor(vec![m])),
        "compile_error ! { \"a referenced type, '& u8', can not be used as a type for an entry point argument.\" }"
    );
}

#[test]
fn mismatched_dispatch_message() {
    let e = EntryPointError::MismatchedDispatchBinding("f".to_string(), Dispatch::Numeric);
    assert_eq!(
        e.message(),
        "binding of 'f' does not match the dispatch method, expected a numeric binding"
    );
}

#[test]
fn codec_and_dispatch_names() {
    assert_eq!(Codec::from_name("dag-cbor".to_string()).unwrap(), Codec::DagCbor);
    assert_eq!(Codec::from_name("json".to_string()).unwrap_err().message(), "unknown codec 'json'");
    assert_eq!(Dispatch::from_name("method-num".to_string()).unwrap(), Dispatch::Numeric);
    assert_eq!(
        Dispatch::from_name("x".to_string()).unwrap_err().message(),
        "unknown dispatch method 'x'"
    );
}
