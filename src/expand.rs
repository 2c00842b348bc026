//! The transform behind each attribute macro: attribute tokens and a declaration in, the
//! program model and the code to put around the declaration out.

use vstd::prelude::*;

use crate::analyze::{
    actor_implementation, impl_error, is_actor_implementation_of, is_state_struct_of,
    item_error_message, payload_struct, state_struct, ItemError, ItemErrorView, MacroType,
};
use crate::ast::{Program, StateStruct};
use crate::attrs::{spec_parse_settings, AttrNamespace, AttrToken};
use crate::codegen::{
    derive_markers_text, dispatch_text, render_derive_markers, render_dispatch,
    render_state_interface, state_interface_text,
};
use crate::decl::ItemDecl;
use crate::diagnostic::Diagnostic;
use crate::macro_attrs::{
    codec_or_default, dispatch_or_default, ActorAttrs, PayloadAttrs, StateAttrs,
};

verus! {

/// The result of a macro: the program model, and the code to emit before and after the
/// declaration, which is emitted unchanged.
#[derive(Debug)]
pub struct Expansion {
    pub program: Program,
    pub before: String,
    pub after: String,
}

/// Why macro `t` rejects attribute tokens `attr` on declaration `item`, if it does.
pub open spec fn expand_error(t: MacroType, attr: Seq<AttrToken>, item: ItemDecl) -> Option<
    ItemErrorView,
> {
    match t {
        MacroType::State => match spec_parse_settings(AttrNamespace::State, attr) {
            Err(e) => Some(ItemErrorView::Attr(e)),
            Ok(_) => match item {
                ItemDecl::Struct(d) => if d.has_generics {
                    Some(ItemErrorView::GenericsOnStructure(MacroType::State))
                } else {
                    None
                },
                _ => Some(ItemErrorView::ExpectedStructure(MacroType::State)),
            },
        },
        MacroType::Payload => match spec_parse_settings(AttrNamespace::Payload, attr) {
            Err(e) => Some(ItemErrorView::Attr(e)),
            Ok(_) => match item {
                ItemDecl::Struct(d) => if d.has_generics {
                    Some(ItemErrorView::GenericsOnStructure(MacroType::Payload))
                } else {
                    None
                },
                _ => Some(ItemErrorView::ExpectedStructure(MacroType::Payload)),
            },
        },
        MacroType::Actor => match spec_parse_settings(AttrNamespace::Actor, attr) {
            Err(e) => Some(ItemErrorView::Attr(e)),
            Ok(s) => match item {
                ItemDecl::Impl(i) => impl_error(i, dispatch_or_default(s)),
                _ => Some(ItemErrorView::ExpectedImplementation),
            },
        },
    }
}

/// `x` is what macro `t` makes of attribute tokens `attr` on declaration `item`, when it
/// accepts them.
pub open spec fn is_expansion_of(
    x: Expansion,
    t: MacroType,
    attr: Seq<AttrToken>,
    item: ItemDecl,
) -> bool {
    let p = x.program;
    match t {
        MacroType::State => {
            let s = spec_parse_settings(AttrNamespace::State, attr)->Ok_0;
            &&& p.payload_structs@.len() == 0
            &&& p.actor_implementation is None
            &&& p.state_structs@.len() == 1
            &&& is_state_struct_of(p.state_structs@[0], item->Struct_0, codec_or_default(s))
            &&& x.before@ == derive_markers_text()
            &&& x.after@ == state_interface_text(p.state_structs@[0])
        },
        MacroType::Payload => {
            let s = spec_parse_settings(AttrNamespace::Payload, attr)->Ok_0;
            let d = item->Struct_0;
            &&& p.state_structs@.len() == 0
            &&& p.actor_implementation is None
            &&& p.payload_structs@.len() == 1
            &&& p.payload_structs@[0].rust_name == d.name
            &&& p.payload_structs@[0].name == d.name
            &&& p.payload_structs@[0].codec == codec_or_default(s)
            &&& x.before@ == derive_markers_text()
            &&& x.after@ == Seq::<char>::empty()
        },
        MacroType::Actor => {
            let s = spec_parse_settings(AttrNamespace::Actor, attr)->Ok_0;
            &&& p.state_structs@.len() == 0
            &&& p.payload_structs@.len() == 0
            &&& p.actor_implementation is Some
            &&& is_actor_implementation_of(
                p.actor_implementation->0,
                item->Impl_0,
                dispatch_or_default(s),
            )
            &&& x.before@ == Seq::<char>::empty()
            &&& x.after@ == dispatch_text(p.actor_implementation->0)
        },
    }
}

/// A diagnostic holding the message of an item error.
fn diagnostic_of(e: ItemError) -> (r: Diagnostic)
    ensures
        r.leaves() == seq![(item_error_message(e@), None::<(proc_macro2::Span, proc_macro2::Span)>)],
{
    Diagnostic::error(e.message())
}

/// Runs macro `t` on attribute tokens `attr` and declaration `item`: either the program
/// model and the code to emit around the declaration, or a diagnostic with one message.
pub fn expand(t: MacroType, attr: &Vec<AttrToken>, item: &ItemDecl) -> (r: Result<
    Expansion,
    Diagnostic,
>)
    ensures
        match expand_error(t, attr@, *item) {
            Some(e) => r is Err && r->Err_0.leaves() == seq![
                (item_error_message(e), None::<(proc_macro2::Span, proc_macro2::Span)>),
            ],
            None => r is Ok && is_expansion_of(r->Ok_0, t, attr@, *item),
        },
{
    match t {
        MacroType::State => {
            let attrs = match StateAttrs::parse(attr) {
                Ok(a) => a,
                Err(e) => return Err(diagnostic_of(ItemError::Attr(e))),
            };
            let d = match item {
                ItemDecl::Struct(d) => d,
                _ => return Err(diagnostic_of(ItemError::ExpectedStructure(MacroType::State))),
            };
            let s = match state_struct(d, &attrs) {
                Ok(s) => s,
                Err(e) => return Err(diagnostic_of(e)),
            };
            let after = render_state_interface(&s);
            let mut state_structs: Vec<StateStruct> = Vec::new();
            state_structs.push(s);
            let program = Program {
                state_structs,
                payload_structs: Vec::new(),
                actor_implementation: None,
            };
            Ok(Expansion { program, before: render_derive_markers(), after })
        },
        MacroType::Payload => {
            let attrs = match PayloadAttrs::parse(attr) {
                Ok(a) => a,
                Err(e) => return Err(diagnostic_of(ItemError::Attr(e))),
            };
            let d = match item {
                ItemDecl::Struct(d) => d,
                _ => return Err(diagnostic_of(ItemError::ExpectedStructure(MacroType::Payload))),
            };
            let s = match payload_struct(d, &attrs) {
                Ok(s) => s,
                Err(e) => return Err(diagnostic_of(e)),
            };
            let mut payload_structs = Vec::new();
            payload_structs.push(s);
            let program = Program {
                state_structs: Vec::new(),
                payload_structs,
                actor_implementation: None,
            };
            Ok(Expansion { program, before: render_derive_markers(), after: String::new() })
        },
        MacroType::Actor => {
            let attrs = match ActorAttrs::parse(attr) {
                Ok(a) => a,
                Err(e) => return Err(diagnostic_of(ItemError::Attr(e))),
            };
            let i = match item {
                ItemDecl::Impl(i) => i,
                _ => return Err(diagnostic_of(ItemError::ExpectedImplementation)),
            };
            let imp = match actor_implementation(i, attrs.dispatch_or_default()) {
                Ok(imp) => imp,
                Err(e) => return Err(diagnostic_of(e)),
            };
            let after = render_dispatch(&imp);
            let program = Program {
                state_structs: Vec::new(),
                payload_structs: Vec::new(),
                actor_implementation: Some(imp),
            };
            Ok(Expansion { program, before: String::new(), after })
        },
    }
}

} // verus!
