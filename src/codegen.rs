//! Code generation: the dispatch function of an actor implementation and the state
//! interface of a state structure, as Rust source text.
//!
//! Every failure in generated code aborts the invocation with an exit code: there is no
//! recovery inside an actor.

use vstd::prelude::*;

use crate::analyze::{decimal, decimal_string};
use crate::ast::{ActorEntryPoint, ActorImplementation, MethodArgument, Mutability, StateStruct};
use crate::attrs::{Codec, Method};
use crate::classify::mutability_of;
use crate::decl::ParamDecl;

verus! {

broadcast use vstd::std_specs::vec::group_vec_axioms;

/// One step of the generated handling of an entry point.
#[derive(Clone, Copy, Debug, PartialEq, Eq, Structural)]
pub enum DispatchStep {
    /// Fetch the parameter bytes and deserialize them into the arguments.
    DeserializeArguments,
    /// Load the persisted state, into a mutable binding if `mutable`.
    LoadState { mutable: bool },
    /// Call the method, on the loaded state if `on_state`, keeping its result if `returns`.
    Call { on_state: bool, returns: bool },
    /// Serialize the method's result.
    SerializeResult,
    /// Persist the state and update the state root.
    SaveState,
}

/// The handling of one binding.
#[derive(Clone, Debug)]
pub struct DispatchCase {
    pub binding: u64,
    pub steps: Vec<DispatchStep>,
}

/// The cases of the generated dispatch function, in declaration order; any other method
/// number aborts with "unrecognized method".
#[derive(Clone, Debug)]
pub struct DispatchTable {
    pub cases: Vec<DispatchCase>,
}

/// The numeric value of a binding.
pub open spec fn binding_value(b: Method) -> u64 {
    match b {
        Method::Numeric(n) => n,
    }
}

/// The steps that handle an entry point, in order.
pub open spec fn case_steps(ep: ActorEntryPoint) -> Seq<DispatchStep> {
    let m = ep.mutability;
    (if ep.arguments@.len() > 0 {
        seq![DispatchStep::DeserializeArguments]
    } else {
        Seq::empty()
    }) + (if m != Mutability::Pure {
        seq![DispatchStep::LoadState { mutable: m == Mutability::Write }]
    } else {
        Seq::empty()
    }) + seq![DispatchStep::Call { on_state: m != Mutability::Pure, returns: ep.returns }] + (
    if ep.returns {
        seq![DispatchStep::SerializeResult]
    } else {
        Seq::empty()
    }) + (if m == Mutability::Write {
        seq![DispatchStep::SaveState]
    } else {
        Seq::empty()
    })
}

/// `fn f()`, `fn f(&self)` and `fn f(&mut self)` are classified `Pure`, `View` and `Write`.
/// The handling of a `Pure` entry point neither loads nor saves the state; that of a `View`
/// one loads it and does not save it; that of a `Write` one loads it mutably and saves it.
pub proof fn lemma_mutability_drives_state_steps(ep: ActorEntryPoint)
    ensures
        mutability_of(Seq::<ParamDecl>::empty()) == Mutability::Pure,
        mutability_of(seq![ParamDecl::Receiver { mutable: false }]) == Mutability::View,
        mutability_of(seq![ParamDecl::Receiver { mutable: true }]) == Mutability::Write,
        ep.mutability == Mutability::Pure ==> forall|i: int|
            0 <= i < case_steps(ep).len() ==> !(#[trigger] case_steps(ep)[i] is LoadState)
                && !(case_steps(ep)[i] is SaveState),
        ep.mutability == Mutability::View ==> (exists|i: int|
            0 <= i < case_steps(ep).len() && #[trigger] case_steps(ep)[i]
                == DispatchStep::LoadState { mutable: false }) && forall|i: int|
            0 <= i < case_steps(ep).len() ==> !(#[trigger] case_steps(ep)[i] is SaveState),
        ep.mutability == Mutability::Write ==> (exists|i: int|
            0 <= i < case_steps(ep).len() && #[trigger] case_steps(ep)[i]
                == DispatchStep::LoadState { mutable: true }) && (exists|i: int|
            0 <= i < case_steps(ep).len() && #[trigger] case_steps(ep)[i]
                == DispatchStep::SaveState),
{
    let steps = case_steps(ep);
    let a: int = if ep.arguments@.len() > 0 {
        1
    } else {
        0
    };
    let deser: Seq<DispatchStep> = if ep.arguments@.len() > 0 {
        seq![DispatchStep::DeserializeArguments]
    } else {
        Seq::empty()
    };
    let call = seq![
        DispatchStep::Call { on_state: ep.mutability != Mutability::Pure, returns: ep.returns },
    ];
    let ser: Seq<DispatchStep> = if ep.returns {
        seq![DispatchStep::SerializeResult]
    } else {
        Seq::empty()
    };
    if ep.mutability == Mutability::Pure {
        assert(steps =~= deser + call + ser);
    } else if ep.mutability == Mutability::View {
        let load = seq![DispatchStep::LoadState { mutable: false }];
        assert(steps =~= deser + load + call + ser);
        assert(steps[a] == DispatchStep::LoadState { mutable: false });
    } else {
        let load = seq![DispatchStep::LoadState { mutable: true }];
        let save = seq![DispatchStep::SaveState];
        assert(steps =~= deser + load + call + ser + save);
        assert(steps[a] == DispatchStep::LoadState { mutable: true });
        assert(steps[steps.len() - 1] == DispatchStep::SaveState);
    }
}

/// The steps that handle an entry point.
pub fn dispatch_steps(ep: &ActorEntryPoint) -> (r: Vec<DispatchStep>)
    ensures
        r@ == case_steps(*ep),
{
    let mut steps: Vec<DispatchStep> = Vec::new();
    if ep.arguments.len() > 0 {
        steps.push(DispatchStep::DeserializeArguments);
    }
    let pure = ep.mutability == Mutability::Pure;
    let write = ep.mutability == Mutability::Write;
    if !pure {
        steps.push(DispatchStep::LoadState { mutable: write });
    }
    steps.push(DispatchStep::Call { on_state: !pure, returns: ep.returns });
    if ep.returns {
        steps.push(DispatchStep::SerializeResult);
    }
    if write {
        steps.push(DispatchStep::SaveState);
    }
    assert(steps@ =~= case_steps(*ep));
    steps
}

/// The dispatch table of an implementation: one case per entry point, in order.
pub fn dispatch_table(imp: &ActorImplementation) -> (r: DispatchTable)
    ensures
        r.cases@.len() == imp.entry_points@.len(),
        forall|k: int|
            0 <= k < r.cases@.len() ==> (#[trigger] r.cases@[k]).binding == binding_value(
                imp.entry_points@[k].binding,
            ) && r.cases@[k].steps@ == case_steps(imp.entry_points@[k]),
{
    let mut cases: Vec<DispatchCase> = Vec::new();
    let mut k: usize = 0;
    while k < imp.entry_points.len()
        invariant
            k <= imp.entry_points@.len(),
            cases@.len() == k,
            forall|j: int|
                0 <= j < k ==> (#[trigger] cases@[j]).binding == binding_value(
                    imp.entry_points@[j].binding,
                ) && cases@[j].steps@ == case_steps(imp.entry_points@[j]),
        decreases imp.entry_points@.len() - k,
    {
        let ep = &imp.entry_points[k];
        cases.push(DispatchCase { binding: ep.binding.value(), steps: dispatch_steps(ep) });
        k = k + 1;
    }
    DispatchTable { cases }
}

/// Which list an argument list is rendered as.
#[derive(Clone, Copy, Debug, PartialEq, Eq, Structural)]
pub enum ArgList {
    /// The bindings the parameters are deserialized into: `mut name0, name1`.
    Bindings,
    /// Their types: `u64, Vec<u8>`.
    Types,
    /// The values passed to the method: `name0, name1`.
    Values,
}

/// The local variable that argument `i` is deserialized into: its name and its position.
pub open spec fn variable_text(a: MethodArgument, i: int) -> Seq<char> {
    a.name@ + decimal(i as nat)
}

/// Argument `i` as an item of list `l`.
pub open spec fn arg_item_text(l: ArgList, a: MethodArgument, i: int) -> Seq<char> {
    match l {
        ArgList::Bindings => (if a.mutable {
            "mut "@
        } else {
            Seq::empty()
        }) + variable_text(a, i),
        ArgList::Types => a.arg_type@,
        ArgList::Values => variable_text(a, i),
    }
}

/// The first `n` arguments as list `l`, separated by commas.
pub open spec fn arg_list_text(l: ArgList, args: Seq<MethodArgument>, n: int) -> Seq<char>
    decreases n,
{
    if n <= 0 || n > args.len() {
        Seq::empty()
    } else if n == 1 {
        arg_item_text(l, args[0], 0)
    } else {
        arg_list_text(l, args, n - 1) + ", "@ + arg_item_text(l, args[n - 1], n - 1)
    }
}

/// The code of one step of the handling of entry point `ep` of the implementation for
/// type `target`.
pub open spec fn step_text(s: DispatchStep, ep: ActorEntryPoint, target: Seq<char>) -> Seq<char> {
    let args = ep.arguments@;
    match s {
        DispatchStep::DeserializeArguments =>
            "let params_bytes = match fvm_rs_sdk::syscall::message::params_raw(params_pointer) { Ok(params) => params.1, Err(err) => fvm_rs_sdk::syscall::vm::abort(fvm_rs_sdk::shared::error::ExitCode::USR_SERIALIZATION.value(), Some(format!(\"failed to read parameters: {:?}\", err).as_str())), }; let ("@
                + arg_list_text(ArgList::Bindings, args, args.len() as int) + "): ("@
                + arg_list_text(ArgList::Types, args, args.len() as int)
                + ") = match fvm_rs_sdk::encoding::RawBytes::new(params_bytes).deserialize() { Ok(params) => params, Err(err) => fvm_rs_sdk::syscall::vm::abort(fvm_rs_sdk::shared::error::ExitCode::USR_SERIALIZATION.value(), Some(format!(\"failed to deserialize parameters: {:?}\", err).as_str())), }; "@,
        DispatchStep::LoadState { mutable } => "let "@ + (if mutable {
            "mut "@
        } else {
            Seq::empty()
        }) + "state = <"@ + target + " as fvm_rs_sdk::state::StateObject>::load(); "@,
        DispatchStep::Call { on_state, returns } => (if returns {
            "let method_return = "@
        } else {
            Seq::empty()
        }) + (if on_state {
            "state."@
        } else {
            target + "::"@
        }) + ep.rust_name@ + "("@ + arg_list_text(ArgList::Values, args, args.len() as int)
            + "); "@,
        DispatchStep::SerializeResult =>
            "let ret = match fvm_rs_sdk::encoding::to_vec(&method_return) { Ok(bytes) => fvm_rs_sdk::encoding::RawBytes::new(bytes), Err(err) => fvm_rs_sdk::syscall::vm::abort(fvm_rs_sdk::shared::error::ExitCode::USR_SERIALIZATION.value(), Some(format!(\"failed to serialize return value: {:?}\", err).as_str())), }; "@,
        DispatchStep::SaveState => "fvm_rs_sdk::state::StateObject::save(&state); "@,
    }
}

/// The code of the first `n` steps.
pub open spec fn steps_text(
    steps: Seq<DispatchStep>,
    n: int,
    ep: ActorEntryPoint,
    target: Seq<char>,
) -> Seq<char>
    decreases n,
{
    if n <= 0 || n > steps.len() {
        Seq::empty()
    } else {
        steps_text(steps, n - 1, ep, target) + step_text(steps[n - 1], ep, target)
    }
}

/// The match arm that handles entry point `ep`.
pub open spec fn case_text(ep: ActorEntryPoint, target: Seq<char>) -> Seq<char> {
    let steps = case_steps(ep);
    decimal(binding_value(ep.binding) as nat) + " => { "@ + steps_text(
        steps,
        steps.len() as int,
        ep,
        target,
    ) + (if ep.returns {
        "Some(ret)"@
    } else {
        "None"@
    }) + " }, "@
}

/// The match arms of the first `n` entry points.
pub open spec fn cases_text(eps: Seq<ActorEntryPoint>, n: int, target: Seq<char>) -> Seq<char>
    decreases n,
{
    if n <= 0 || n > eps.len() {
        Seq::empty()
    } else {
        cases_text(eps, n - 1, target) + case_text(eps[n - 1], target)
    }
}

/// The generated dispatch function of an implementation.
pub open spec fn dispatch_text(imp: ActorImplementation) -> Seq<char> {
    "#[no_mangle] pub fn invoke(params_pointer: u32) -> u32 { let ret: Option<fvm_rs_sdk::encoding::RawBytes> = match fvm_rs_sdk::syscall::message::method_number() { "@
        + cases_text(imp.entry_points@, imp.entry_points@.len() as int, imp.rust_name@)
        + "_ => fvm_rs_sdk::syscall::vm::abort(fvm_rs_sdk::shared::error::ExitCode::USR_UNHANDLED_MESSAGE.value(), Some(\"unrecognized method\")), }; match ret { None => fvm_rs_sdk::syscall::NO_DATA_BLOCK_ID, Some(v) => match fvm_rs_sdk::syscall::ipld::put_block(fvm_rs_sdk::encoding::DAG_CBOR, v.bytes()) { Ok(id) => id, Err(err) => fvm_rs_sdk::syscall::vm::abort(fvm_rs_sdk::shared::error::ExitCode::USR_SERIALIZATION.value(), Some(format!(\"failed to store return value: {}\", err).as_str())), }, } }"@
}

fn push_arg_item(out: &mut String, l: ArgList, a: &MethodArgument, i: usize)
    ensures
        final(out)@ == old(out)@ + arg_item_text(l, *a, i as int),
{
    let ghost start = out@;
    match l {
        ArgList::Bindings => {
            if a.mutable {
                out.append("mut ");
            }
            out.append(a.name.as_str());
            let d = decimal_string(i as u64);
            out.append(d.as_str());
        },
        ArgList::Types => {
            out.append(a.arg_type.as_str());
        },
        ArgList::Values => {
            out.append(a.name.as_str());
            let d = decimal_string(i as u64);
            out.append(d.as_str());
        },
    }
    assert(out@ =~= start + arg_item_text(l, *a, i as int));
}

fn push_arg_list(out: &mut String, l: ArgList, args: &Vec<MethodArgument>)
    ensures
        final(out)@ == old(out)@ + arg_list_text(l, args@, args@.len() as int),
{
    let ghost start = out@;
    let mut i: usize = 0;
    while i < args.len()
        invariant
            i <= args@.len(),
            out@ == start + arg_list_text(l, args@, i as int),
        decreases args@.len() - i,
    {
        let ghost before = out@;
        if i > 0 {
            out.append(", ");
        }
        push_arg_item(out, l, &args[i], i);
        proof {
            if i == 0 {
                assert(out@ =~= start + arg_list_text(l, args@, 1));
            } else {
                assert(out@ =~= start + arg_list_text(l, args@, i + 1));
            }
        }
        i = i + 1;
    }
}

fn push_step(out: &mut String, s: DispatchStep, ep: &ActorEntryPoint, target: &String)
    ensures
        final(out)@ == old(out)@ + step_text(s, *ep, target@),
{
    let ghost start = out@;
    match s {
        DispatchStep::DeserializeArguments => {
            out.append(
                "let params_bytes = match fvm_rs_sdk::syscall::message::params_raw(params_pointer) { Ok(params) => params.1, Err(err) => fvm_rs_sdk::syscall::vm::abort(fvm_rs_sdk::shared::error::ExitCode::USR_SERIALIZATION.value(), Some(format!(\"failed to read parameters: {:?}\", err).as_str())), }; let (",
            );
            push_arg_list(out, ArgList::Bindings, &ep.arguments);
            out.append("): (");
            push_arg_list(out, ArgList::Types, &ep.arguments);
            out.append(
                ") = match fvm_rs_sdk::encoding::RawBytes::new(params_bytes).deserialize() { Ok(params) => params, Err(err) => fvm_rs_sdk::syscall::vm::abort(fvm_rs_sdk::shared::error::ExitCode::USR_SERIALIZATION.value(), Some(format!(\"failed to deserialize parameters: {:?}\", err).as_str())), }; ",
            );
        },
        DispatchStep::LoadState { mutable } => {
            out.append("let ");
            if mutable {
                out.append("mut ");
            }
            out.append("state = <");
            out.append(target.as_str());
            out.append(" as fvm_rs_sdk::state::StateObject>::load(); ");
        },
        DispatchStep::Call { on_state, returns } => {
            if returns {
                out.append("let method_return = ");
            }
            if on_state {
                out.append("state.");
            } else {
                out.append(target.as_str());
                out.append("::");
            }
            out.append(ep.rust_name.as_str());
            out.append("(");
            push_arg_list(out, ArgList::Values, &ep.arguments);
            out.append("); ");
        },
        DispatchStep::SerializeResult => {
            out.append(
                "let ret = match fvm_rs_sdk::encoding::to_vec(&method_return) { Ok(bytes) => fvm_rs_sdk::encoding::RawBytes::new(bytes), Err(err) => fvm_rs_sdk::syscall::vm::abort(fvm_rs_sdk::shared::error::ExitCode::USR_SERIALIZATION.value(), Some(format!(\"failed to serialize return value: {:?}\", err).as_str())), }; ",
            );
        },
        DispatchStep::SaveState => {
            out.append("fvm_rs_sdk::state::StateObject::save(&state); ");
        },
    }
    assert(out@ =~= start + step_text(s, *ep, target@));
}

fn push_case(out: &mut String, ep: &ActorEntryPoint, target: &String)
    ensures
        final(out)@ == old(out)@ + case_text(*ep, target@),
{
    let ghost start = out@;
    let steps = dispatch_steps(ep);
    let d = decimal_string(ep.binding.value());
    out.append(d.as_str());
    out.append(" => { ");
    let ghost head = out@;
    let mut i: usize = 0;
    while i < steps.len()
        invariant
            i <= steps@.len(),
            out@ == head + steps_text(steps@, i as int, *ep, target@),
        decreases steps@.len() - i,
    {
        push_step(out, steps[i], ep, target);
        proof {
            assert(out@ =~= head + steps_text(steps@, i + 1, *ep, target@));
        }
        i = i + 1;
    }
    if ep.returns {
        out.append("Some(ret)");
    } else {
        out.append("None");
    }
    out.append(" }, ");
    assert(out@ =~= start + case_text(*ep, target@));
}

/// Renders the dispatch function of an implementation.
pub fn render_dispatch(imp: &ActorImplementation) -> (r: String)
    ensures
        r@ == dispatch_text(*imp),
{
    let mut out = String::from_str(
        "#[no_mangle] pub fn invoke(params_pointer: u32) -> u32 { let ret: Option<fvm_rs_sdk::encoding::RawBytes> = match fvm_rs_sdk::syscall::message::method_number() { ",
    );
    let ghost head = out@;
    let mut k: usize = 0;
    while k < imp.entry_points.len()
        invariant
            k <= imp.entry_points@.len(),
            out@ == head + cases_text(imp.entry_points@, k as int, imp.rust_name@),
        decreases imp.entry_points@.len() - k,
    {
        push_case(&mut out, &imp.entry_points[k], &imp.rust_name);
        proof {
            assert(out@ =~= head + cases_text(imp.entry_points@, k + 1, imp.rust_name@));
        }
        k = k + 1;
    }
    out.append(
        "_ => fvm_rs_sdk::syscall::vm::abort(fvm_rs_sdk::shared::error::ExitCode::USR_UNHANDLED_MESSAGE.value(), Some(\"unrecognized method\")), }; match ret { None => fvm_rs_sdk::syscall::NO_DATA_BLOCK_ID, Some(v) => match fvm_rs_sdk::syscall::ipld::put_block(fvm_rs_sdk::encoding::DAG_CBOR, v.bytes()) { Ok(id) => id, Err(err) => fvm_rs_sdk::syscall::vm::abort(fvm_rs_sdk::shared::error::ExitCode::USR_SERIALIZATION.value(), Some(format!(\"failed to store return value: {}\", err).as_str())), }, } }",
    );
    assert(out@ =~= dispatch_text(*imp));
    out
}

/// The derive markers put on a state or payload structure: its fields are encoded as an
/// ordered tuple.
pub open spec fn derive_markers_text() -> Seq<char> {
    "#[derive(fvm_rs_sdk::encoding::tuple::Serialize_tuple, fvm_rs_sdk::encoding::tuple::Deserialize_tuple)] #[serde(crate = \"fvm_rs_sdk::encoding::serde\")] "@
}

/// Renders the derive markers put on a state or payload structure.
pub fn render_derive_markers() -> (r: String)
    ensures
        r@ == derive_markers_text(),
{
    String::from_str(
        "#[derive(fvm_rs_sdk::encoding::tuple::Serialize_tuple, fvm_rs_sdk::encoding::tuple::Deserialize_tuple)] #[serde(crate = \"fvm_rs_sdk::encoding::serde\")] ",
    )
}

/// The generated load and save of a state structure. `load` reads the state root, fetches
/// its block and decodes it; `save` encodes the state, stores it under a Blake2b-256
/// content identifier and makes that the new state root. Every failure aborts.
pub open spec fn state_interface_text(s: StateStruct) -> Seq<char> {
    match s.codec {
        Codec::DagCbor => "impl fvm_rs_sdk::state::StateObject for "@ + s.rust_name@
            + " { fn load() -> Self { use fvm_rs_sdk::encoding::CborStore; let root = match fvm_rs_sdk::syscall::sself::root() { Ok(root) => root, Err(err) => fvm_rs_sdk::syscall::vm::abort(fvm_rs_sdk::shared::error::ExitCode::USR_ILLEGAL_STATE.value(), Some(format!(\"failed to get root: {:?}\", err).as_str()),), }; match fvm_rs_sdk::state::cbor::CborBlockstore.get_cbor::<Self>(&root) { Ok(Some(state)) => state, Ok(None) => fvm_rs_sdk::syscall::vm::abort(fvm_rs_sdk::shared::error::ExitCode::USR_ILLEGAL_STATE.value(), Some(\"state does not exist\"),), Err(err) => fvm_rs_sdk::syscall::vm::abort(fvm_rs_sdk::shared::error::ExitCode::USR_ILLEGAL_STATE.value(), Some(format!(\"failed to get state: {}\", err).as_str()),), } } fn save(&self) -> fvm_rs_sdk::cid::Cid { let serialized = match fvm_rs_sdk::encoding::to_vec(self) { Ok(s) => s, Err(err) => fvm_rs_sdk::syscall::vm::abort(fvm_rs_sdk::shared::error::ExitCode::USR_SERIALIZATION.value(), Some(format!(\"failed to serialize state: {:?}\", err).as_str()),), }; let cid = match fvm_rs_sdk::syscall::ipld::put(fvm_rs_sdk::cid::Code::Blake2b256.into(), fvm_rs_sdk::state::cbor::SIZE, fvm_rs_sdk::encoding::DAG_CBOR, serialized.as_slice(),) { Ok(cid) => cid, Err(err) => fvm_rs_sdk::syscall::vm::abort(fvm_rs_sdk::shared::error::ExitCode::USR_SERIALIZATION.value(), Some(format!(\"failed to store initial state: {:}\", err).as_str()),), }; if let Err(err) = fvm_rs_sdk::syscall::sself::set_root(&cid) { fvm_rs_sdk::syscall::vm::abort(fvm_rs_sdk::shared::error::ExitCode::USR_ILLEGAL_STATE.value(), Some(format!(\"failed to set root cid: {:}\", err).as_str()),); } cid } }"@,
    }
}

/// Renders the load and save of a state structure.
pub fn render_state_interface(s: &StateStruct) -> (r: String)
    ensures
        r@ == state_interface_text(*s),
{
    match s.codec {
        Codec::DagCbor => {
            let mut out = String::from_str("impl fvm_rs_sdk::state::StateObject for ");
            out.append(s.rust_name.as_str());
            out.append(
                " { fn load() -> Self { use fvm_rs_sdk::encoding::CborStore; let root = match fvm_rs_sdk::syscall::sself::root() { Ok(root) => root, Err(err) => fvm_rs_sdk::syscall::vm::abort(fvm_rs_sdk::shared::error::ExitCode::USR_ILLEGAL_STATE.value(), Some(format!(\"failed to get root: {:?}\", err).as_str()),), }; match fvm_rs_sdk::state::cbor::CborBlockstore.get_cbor::<Self>(&root) { Ok(Some(state)) => state, Ok(None) => fvm_rs_sdk::syscall::vm::abort(fvm_rs_sdk::shared::error::ExitCode::USR_ILLEGAL_STATE.value(), Some(\"state does not exist\"),), Err(err) => fvm_rs_sdk::syscall::vm::abort(fvm_rs_sdk::shared::error::ExitCode::USR_ILLEGAL_STATE.value(), Some(format!(\"failed to get state: {}\", err).as_str()),), } } fn save(&self) -> fvm_rs_sdk::cid::Cid { let serialized = match fvm_rs_sdk::encoding::to_vec(self) { Ok(s) => s, Err(err) => fvm_rs_sdk::syscall::vm::abort(fvm_rs_sdk::shared::error::ExitCode::USR_SERIALIZATION.value(), Some(format!(\"failed to serialize state: {:?}\", err).as_str()),), }; let cid = match fvm_rs_sdk::syscall::ipld::put(fvm_rs_sdk::cid::Code::Blake2b256.into(), fvm_rs_sdk::state::cbor::SIZE, fvm_rs_sdk::encoding::DAG_CBOR, serialized.as_slice(),) { Ok(cid) => cid, Err(err) => fvm_rs_sdk::syscall::vm::abort(fvm_rs_sdk::shared::error::ExitCode::USR_SERIALIZATION.value(), Some(format!(\"failed to store initial state: {:}\", err).as_str()),), }; if let Err(err) = fvm_rs_sdk::syscall::sself::set_root(&cid) { fvm_rs_sdk::syscall::vm::abort(fvm_rs_sdk::shared::error::ExitCode::USR_ILLEGAL_STATE.value(), Some(format!(\"failed to set root cid: {:}\", err).as_str()),); } cid } }",
            );
            out
        },
    }
}

} // verus!
