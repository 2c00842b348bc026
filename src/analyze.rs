//! Analysis of the declarations that the attribute macros are applied to: structures become
//! state or payload structures, implementations become actor implementations.

use vstd::prelude::*;

use crate::ast::{
    ActorEntryPoint, ActorImplementation, FieldMember, PayloadStruct, StateStruct,
    StateStructField,
};
use crate::attrs::{
    attr_error_message, spec_parse_settings, AttrError, AttrErrorView, AttrNamespace, Codec,
    Dispatch, Method,
};
use crate::classify::{
    classify_entry_point, entry_point_error, entry_point_error_message, is_entry_point_of,
    EntryPointError,
};
use crate::decl::{AttributeDecl, FieldDecl, ImplDecl, ImplTarget, MethodDecl, StructDecl};
use crate::macro_attrs::{codec_or_default, first_binding, ExportAttrs, PayloadAttrs, StateAttrs};

verus! {

broadcast use vstd::std_specs::vec::group_vec_axioms;

/// The attribute macros.
#[derive(Clone, Copy, Debug, PartialEq, Eq, Structural)]
pub enum MacroType {
    /// `#[fvm_state]`, on a structure holding an actor's state.
    State,
    /// `#[fvm_actor]`, on the implementation holding an actor's entry points.
    Actor,
    /// `#[fvm_payload]`, on a structure used as a message payload.
    Payload,
}

/// How a macro is written in messages.
pub open spec fn macro_label(t: MacroType) -> Seq<char> {
    match t {
        MacroType::State => "#[fvm_state]"@,
        MacroType::Actor => "#[fvm_actor]"@,
        MacroType::Payload => "#[fvm_payload]"@,
    }
}

fn macro_label_str(t: MacroType) -> (r: &'static str)
    ensures
        r@ == macro_label(t),
{
    match t {
        MacroType::State => "#[fvm_state]",
        MacroType::Actor => "#[fvm_actor]",
        MacroType::Payload => "#[fvm_payload]",
    }
}

/// Why a declaration cannot be analyzed.
#[derive(Clone, Debug)]
pub enum ItemError {
    /// A structure macro is applied to something else than a structure.
    ExpectedStructure(MacroType),
    /// A structure declares type, lifetime or const parameters.
    GenericsOnStructure(MacroType),
    /// `#[fvm_actor]` is applied to something else than an implementation.
    ExpectedImplementation,
    /// The implementation declares type, lifetime or const parameters.
    GenericsOnInterface,
    /// The implementation is not for a plain named type.
    UnexpectedImplementationType,
    /// An attribute list is malformed.
    Attr(AttrError),
    /// An exported method cannot be an entry point.
    EntryPoint(EntryPointError),
}

/// An item error, with its attribute error by its view.
pub enum ItemErrorView {
    ExpectedStructure(MacroType),
    GenericsOnStructure(MacroType),
    ExpectedImplementation,
    GenericsOnInterface,
    UnexpectedImplementationType,
    Attr(AttrErrorView),
    EntryPoint(EntryPointError),
}

impl View for ItemError {
    type V = ItemErrorView;

    open spec fn view(&self) -> ItemErrorView {
        match self {
            ItemError::ExpectedStructure(t) => ItemErrorView::ExpectedStructure(*t),
            ItemError::GenericsOnStructure(t) => ItemErrorView::GenericsOnStructure(*t),
            ItemError::ExpectedImplementation => ItemErrorView::ExpectedImplementation,
            ItemError::GenericsOnInterface => ItemErrorView::GenericsOnInterface,
            ItemError::UnexpectedImplementationType => ItemErrorView::UnexpectedImplementationType,
            ItemError::Attr(e) => ItemErrorView::Attr(e@),
            ItemError::EntryPoint(e) => ItemErrorView::EntryPoint(*e),
        }
    }
}

/// The message that an item error renders to.
pub open spec fn item_error_message(e: ItemErrorView) -> Seq<char> {
    match e {
        ItemErrorView::ExpectedStructure(t) => macro_label(t) + " should be used with a structure."@,
        ItemErrorView::GenericsOnStructure(t) => "structure with "@ + macro_label(t)
            + " cannot have lifetime or type parameters."@,
        ItemErrorView::ExpectedImplementation =>
            "#[fvm_actor] should be used with an implementation."@,
        ItemErrorView::GenericsOnInterface =>
            "implementation with #[fvm_actor] cannot have lifetime or type parameters."@,
        ItemErrorView::UnexpectedImplementationType =>
            "expected implementation for type with no leading colon, 1 path segment, and no angle bracketed or parenthesized path arguments with #[fvm_actor]"@,
        ItemErrorView::Attr(a) => attr_error_message(a),
        ItemErrorView::EntryPoint(p) => entry_point_error_message(p),
    }
}

impl ItemError {
    /// The message this error renders to.
    pub fn message(&self) -> (r: String)
        ensures
            r@ == item_error_message(self@),
    {
        match self {
            ItemError::ExpectedStructure(t) => {
                let mut r = String::from_str(macro_label_str(*t));
                r.append(" should be used with a structure.");
                r
            },
            ItemError::GenericsOnStructure(t) => {
                let mut r = String::from_str("structure with ");
                r.append(macro_label_str(*t));
                r.append(" cannot have lifetime or type parameters.");
                r
            },
            ItemError::ExpectedImplementation => String::from_str(
                "#[fvm_actor] should be used with an implementation.",
            ),
            ItemError::GenericsOnInterface => String::from_str(
                "implementation with #[fvm_actor] cannot have lifetime or type parameters.",
            ),
            ItemError::UnexpectedImplementationType => String::from_str(
                "expected implementation for type with no leading colon, 1 path segment, and no angle bracketed or parenthesized path arguments with #[fvm_actor]",
            ),
            ItemError::Attr(a) => a.message(),
            ItemError::EntryPoint(p) => p.message(),
        }
    }
}

/// The character of a decimal digit.
pub open spec fn digit_char(d: nat) -> char {
    if d == 0 {
        '0'
    } else if d == 1 {
        '1'
    } else if d == 2 {
        '2'
    } else if d == 3 {
        '3'
    } else if d == 4 {
        '4'
    } else if d == 5 {
        '5'
    } else if d == 6 {
        '6'
    } else if d == 7 {
        '7'
    } else if d == 8 {
        '8'
    } else {
        '9'
    }
}

/// The decimal representation of `n`, without leading zeros.
pub open spec fn decimal(n: nat) -> Seq<char>
    decreases n,
{
    if n < 10 {
        seq![digit_char(n)]
    } else {
        decimal(n / 10).push(digit_char(n % 10))
    }
}

/// Appends the decimal digit `d` to `s`.
fn push_digit(s: &mut String, d: u64)
    requires
        d < 10,
    ensures
        final(s)@ == old(s)@.push(digit_char(d as nat)),
{
    let ghost before = s@;
    let c: &str = if d == 0 {
        "0"
    } else if d == 1 {
        "1"
    } else if d == 2 {
        "2"
    } else if d == 3 {
        "3"
    } else if d == 4 {
        "4"
    } else if d == 5 {
        "5"
    } else if d == 6 {
        "6"
    } else if d == 7 {
        "7"
    } else if d == 8 {
        "8"
    } else {
        "9"
    };
    proof {
        reveal_strlit("0");
        reveal_strlit("1");
        reveal_strlit("2");
        reveal_strlit("3");
        reveal_strlit("4");
        reveal_strlit("5");
        reveal_strlit("6");
        reveal_strlit("7");
        reveal_strlit("8");
        reveal_strlit("9");
    }
    s.append(c);
    assert(s@ =~= before.push(digit_char(d as nat)));
}

/// The decimal representation of `n`.
pub fn decimal_string(n: u64) -> (r: String)
    ensures
        r@ == decimal(n as nat),
    decreases n,
{
    if n < 10 {
        let mut r = String::new();
        push_digit(&mut r, n);
        assert(r@ =~= decimal(n as nat));
        r
    } else {
        let mut r = decimal_string(n / 10);
        push_digit(&mut r, n % 10);
        r
    }
}

/// The positions of the public fields among the first `n` fields, in order.
pub open spec fn public_positions(fs: Seq<FieldDecl>, n: int) -> Seq<int>
    decreases n,
{
    if n <= 0 || n > fs.len() {
        Seq::empty()
    } else if fs[n - 1].is_public {
        public_positions(fs, n - 1).push(n - 1)
    } else {
        public_positions(fs, n - 1)
    }
}

/// The number of public fields among the first `n` fields.
pub open spec fn public_count(fs: Seq<FieldDecl>, n: int) -> nat
    decreases n,
{
    if n <= 0 || n > fs.len() {
        0
    } else if fs[n - 1].is_public {
        public_count(fs, n - 1) + 1
    } else {
        public_count(fs, n - 1)
    }
}

/// The public-field positions among the first `n` fields: as many as there are public
/// fields, increasing, each of a public field, and every public field's among them.
proof fn lemma_public_positions(fs: Seq<FieldDecl>, n: int)
    requires
        0 <= n <= fs.len(),
    ensures
        public_positions(fs, n).len() == public_count(fs, n),
        forall|a: int, b: int|
            0 <= a < b < public_positions(fs, n).len() ==> public_positions(fs, n)[a]
                < public_positions(fs, n)[b],
        forall|k: int|
            0 <= k < public_positions(fs, n).len() ==> 0 <= #[trigger] public_positions(fs, n)[k]
                < n && fs[public_positions(fs, n)[k]].is_public,
        forall|j: int|
            0 <= j < n && (#[trigger] fs[j]).is_public ==> exists|k: int|
                0 <= k < public_positions(fs, n).len() && public_positions(fs, n)[k] == j,
    decreases n,
{
    if n > 0 {
        lemma_public_positions(fs, n - 1);
        let prev = public_positions(fs, n - 1);
        let cur = public_positions(fs, n);
        if fs[n - 1].is_public {
            assert(cur == prev.push(n - 1));
            assert forall|j: int| 0 <= j < n && (#[trigger] fs[j]).is_public implies exists|k: int|
                0 <= k < cur.len() && cur[k] == j by {
                if j == n - 1 {
                    assert(cur[prev.len() as int] == j);
                } else {
                    let k = choose|k: int| 0 <= k < prev.len() && prev[k] == j;
                    assert(cur[k] == j);
                }
            }
        }
    }
}

/// Of a structure with N public and M other fields, the analysis keeps exactly the N public
/// fields, in their declaration order.
pub proof fn lemma_public_fields_kept_in_order(fs: Seq<FieldDecl>)
    ensures
        public_positions(fs, fs.len() as int).len() == public_count(fs, fs.len() as int),
        forall|a: int, b: int|
            0 <= a < b < public_positions(fs, fs.len() as int).len() ==> public_positions(
                fs,
                fs.len() as int,
            )[a] < public_positions(fs, fs.len() as int)[b],
        forall|k: int|
            0 <= k < public_positions(fs, fs.len() as int).len() ==> fs[#[trigger] public_positions(
                fs,
                fs.len() as int,
            )[k]].is_public,
        forall|j: int|
            0 <= j < fs.len() && (#[trigger] fs[j]).is_public ==> exists|k: int|
                0 <= k < public_positions(fs, fs.len() as int).len() && public_positions(
                    fs,
                    fs.len() as int,
                )[k] == j,
{
    lemma_public_positions(fs, fs.len() as int);
}

/// `f` is the state field that field `i` of structure `d` becomes.
pub open spec fn is_field_of(f: StateStructField, d: StructDecl, i: int) -> bool {
    let decl = d.fields@[i];
    &&& f.struct_name == d.name
    &&& f.ty == decl.ty.text
    &&& match decl.name {
        Some(n) => f.rust_name == FieldMember::Named(n) && f.name == n,
        None => f.rust_name == FieldMember::Unnamed(i as usize) && f.name@ == decimal(i as nat),
    }
}

/// `s` is the state structure that `d` becomes with codec `codec`.
pub open spec fn is_state_struct_of(s: StateStruct, d: StructDecl, codec: Codec) -> bool {
    let pos = public_positions(d.fields@, d.fields@.len() as int);
    &&& s.rust_name == d.name
    &&& s.name == d.name
    &&& s.codec == codec
    &&& s.fields@.len() == pos.len()
    &&& forall|k: int| 0 <= k < pos.len() ==> is_field_of(#[trigger] s.fields@[k], d, pos[k])
}

/// Analyzes a structure under `#[fvm_state(..)]`: its public fields, in order, and its codec.
pub fn state_struct(d: &StructDecl, attrs: &StateAttrs) -> (r: Result<StateStruct, ItemError>)
    ensures
        d.has_generics ==> r is Err && r->Err_0@ == ItemErrorView::GenericsOnStructure(
            MacroType::State,
        ),
        !d.has_generics ==> r is Ok && is_state_struct_of(
            r->Ok_0,
            *d,
            codec_or_default(attrs.settings()),
        ),
{
    if d.has_generics {
        return Err(ItemError::GenericsOnStructure(MacroType::State));
    }
    let ghost fs = d.fields@;
    let mut fields: Vec<StateStructField> = Vec::new();
    let mut i: usize = 0;
    while i < d.fields.len()
        invariant
            fs == d.fields@,
            i <= fs.len(),
            fields@.len() == public_positions(fs, i as int).len(),
            forall|k: int|
                0 <= k < fields@.len() ==> is_field_of(
                    #[trigger] fields@[k],
                    *d,
                    public_positions(fs, i as int)[k],
                ),
        decreases fs.len() - i,
    {
        let field = &d.fields[i];
        if field.is_public {
            let (name, member) = match &field.name {
                Some(n) => (n.clone(), FieldMember::Named(n.clone())),
                None => (decimal_string(i as u64), FieldMember::Unnamed(i)),
            };
            fields.push(
                StateStructField {
                    rust_name: member,
                    name,
                    struct_name: d.name.clone(),
                    ty: field.ty.text.clone(),
                },
            );
        }
        i = i + 1;
    }
    Ok(
        StateStruct {
            rust_name: d.name.clone(),
            name: d.name.clone(),
            fields,
            codec: attrs.codec_or_default(),
        },
    )
}

/// Analyzes a structure under `#[fvm_payload(..)]`: its name and its codec.
pub fn payload_struct(d: &StructDecl, attrs: &PayloadAttrs) -> (r: Result<
    PayloadStruct,
    ItemError,
>)
    ensures
        d.has_generics ==> r is Err && r->Err_0@ == ItemErrorView::GenericsOnStructure(
            MacroType::Payload,
        ),
        !d.has_generics ==> r is Ok && r->Ok_0.rust_name == d.name && r->Ok_0.name == d.name
            && r->Ok_0.codec == codec_or_default(attrs.settings()),
{
    if d.has_generics {
        return Err(ItemError::GenericsOnStructure(MacroType::Payload));
    }
    Ok(
        PayloadStruct {
            rust_name: d.name.clone(),
            name: d.name.clone(),
            codec: attrs.codec_or_default(),
        },
    )
}

/// The first attribute from position `i` on that marks a method as exported.
pub open spec fn export_attr_from(attrs: Seq<AttributeDecl>, i: int) -> Option<AttributeDecl>
    decreases attrs.len() - i,
{
    if i < 0 || i >= attrs.len() {
        None
    } else if attrs[i].name@ == "fvm_export"@ {
        Some(attrs[i])
    } else {
        export_attr_from(attrs, i + 1)
    }
}

/// What one method contributes to its implementation: `Ok(None)` when it is not exported,
/// `Ok(Some(b))` when it is an entry point with binding `b`, else why it cannot be one.
pub open spec fn method_step(m: MethodDecl, d: Dispatch) -> Result<Option<Method>, ItemErrorView> {
    match export_attr_from(m.attrs@, 0) {
        None => Ok(None),
        Some(a) => match spec_parse_settings(AttrNamespace::Export, a.args@) {
            Err(e) => Err(ItemErrorView::Attr(e)),
            Ok(s) => match entry_point_error(m, first_binding(s), d) {
                Some(e) => Err(ItemErrorView::EntryPoint(e)),
                None => Ok(Some(first_binding(s)->0)),
            },
        },
    }
}

/// The entry points among the first `n` methods, each by its method's position and binding,
/// or the first error met.
pub open spec fn entry_points_from(ms: Seq<MethodDecl>, n: int, d: Dispatch) -> Result<
    Seq<(int, Method)>,
    ItemErrorView,
>
    decreases n,
{
    if n <= 0 || n > ms.len() {
        Ok(Seq::empty())
    } else {
        match entry_points_from(ms, n - 1, d) {
            Err(e) => Err(e),
            Ok(prev) => match method_step(ms[n - 1], d) {
                Err(e) => Err(e),
                Ok(None) => Ok(prev),
                Ok(Some(b)) => Ok(prev.push((n - 1, b))),
            },
        }
    }
}

/// The implementation is for a plain named type: one segment, no leading colon, no
/// qualified self type and no arguments.
pub open spec fn is_simple_target(t: ImplTarget) -> bool {
    t.is_path && !t.qualified && !t.leading_colon && t.segments == 1 && !t.has_arguments
}

/// Why an implementation cannot be an actor implementation, checked in this order:
/// generics, target type, then its methods in order.
pub open spec fn impl_error(i: ImplDecl, d: Dispatch) -> Option<ItemErrorView> {
    if i.has_generics {
        Some(ItemErrorView::GenericsOnInterface)
    } else if !is_simple_target(i.target) {
        Some(ItemErrorView::UnexpectedImplementationType)
    } else {
        match entry_points_from(i.methods@, i.methods@.len() as int, d) {
            Err(e) => Some(e),
            Ok(_) => None,
        }
    }
}

/// `a` is the actor implementation that `i` becomes with dispatch method `d`.
pub open spec fn is_actor_implementation_of(a: ActorImplementation, i: ImplDecl, d: Dispatch) -> bool {
    let eps = entry_points_from(i.methods@, i.methods@.len() as int, d)->Ok_0;
    &&& a.rust_name == i.target.text
    &&& a.name == i.target.text
    &&& a.dispatch == d
    &&& a.entry_points@.len() == eps.len()
    &&& forall|k: int|
        0 <= k < eps.len() ==> is_entry_point_of(
            #[trigger] a.entry_points@[k],
            i.methods@[eps[k].0],
            eps[k].1,
        )
}

/// Bindings are not checked for uniqueness: two methods that are each a valid entry point
/// with the same binding are both kept, in order.
pub proof fn lemma_shared_binding_accepted(m1: MethodDecl, m2: MethodDecl, d: Dispatch, b: Method)
    requires
        method_step(m1, d) == Ok::<Option<Method>, ItemErrorView>(Some(b)),
        method_step(m2, d) == Ok::<Option<Method>, ItemErrorView>(Some(b)),
    ensures
        entry_points_from(seq![m1, m2], 2, d) == Ok::<Seq<(int, Method)>, ItemErrorView>(
            seq![(0int, b), (1int, b)],
        ),
{
    let ms = seq![m1, m2];
    assert(ms[0] == m1);
    assert(ms[1] == m2);
    assert(entry_points_from(ms, 0, d) == Ok::<Seq<(int, Method)>, ItemErrorView>(Seq::empty()));
    assert(entry_points_from(ms, 1, d) == Ok::<Seq<(int, Method)>, ItemErrorView>(
        seq![(0int, b)],
    ));
    assert(seq![(0int, b)].push((1int, b)) =~= seq![(0int, b), (1int, b)]);
}

/// Once a method error is met, it stays the first one.
proof fn lemma_entry_points_error_stable(ms: Seq<MethodDecl>, k: int, n: int, d: Dispatch)
    requires
        0 <= k <= n <= ms.len(),
        entry_points_from(ms, k, d) is Err,
    ensures
        entry_points_from(ms, n, d) == entry_points_from(ms, k, d),
    decreases n - k,
{
    if n > k {
        lemma_entry_points_error_stable(ms, k, n - 1, d);
    }
}

/// Finds the first attribute of a method that marks it as exported.
fn find_export_attr(attrs: &Vec<AttributeDecl>) -> (r: Option<usize>)
    ensures
        match export_attr_from(attrs@, 0) {
            None => r is None,
            Some(a) => r is Some && r->0 < attrs@.len() && attrs@[r->0 as int] == a,
        },
{
    let marker = String::from_str("fvm_export");
    let mut i: usize = 0;
    while i < attrs.len()
        invariant
            i <= attrs@.len(),
            marker@ == "fvm_export"@,
            export_attr_from(attrs@, 0) == export_attr_from(attrs@, i as int),
        decreases attrs@.len() - i,
    {
        if attrs[i].name == marker {
            return Some(i);
        }
        i = i + 1;
    }
    None
}

/// Analyzes one method: `None` when it is not exported, else its entry point.
fn analyze_method(m: &MethodDecl, dispatch: Dispatch) -> (r: Result<
    Option<ActorEntryPoint>,
    ItemError,
>)
    ensures
        match method_step(*m, dispatch) {
            Err(e) => r is Err && r->Err_0@ == e,
            Ok(None) => r is Ok && r->Ok_0 is None,
            Ok(Some(b)) => r is Ok && r->Ok_0 is Some && is_entry_point_of(r->Ok_0->0, *m, b),
        },
{
    let pos = match find_export_attr(&m.attrs) {
        None => return Ok(None),
        Some(p) => p,
    };
    let attrs = match ExportAttrs::parse(&m.attrs[pos].args) {
        Ok(a) => a,
        Err(e) => return Err(ItemError::Attr(e)),
    };
    match classify_entry_point(m, &attrs, dispatch) {
        Ok(ep) => Ok(Some(ep)),
        Err(e) => Err(ItemError::EntryPoint(e)),
    }
}

/// Analyzes an implementation under `#[fvm_actor]` with dispatch method `dispatch`: its
/// exported methods become its entry points, in order; other methods are left out.
pub fn actor_implementation(i: &ImplDecl, dispatch: Dispatch) -> (r: Result<
    ActorImplementation,
    ItemError,
>)
    ensures
        match impl_error(*i, dispatch) {
            Some(e) => r is Err && r->Err_0@ == e,
            None => r is Ok && is_actor_implementation_of(r->Ok_0, *i, dispatch),
        },
{
    if i.has_generics {
        return Err(ItemError::GenericsOnInterface);
    }
    let t = &i.target;
    if !(t.is_path && !t.qualified && !t.leading_colon && t.segments == 1 && !t.has_arguments) {
        return Err(ItemError::UnexpectedImplementationType);
    }
    let ghost ms = i.methods@;
    let mut entry_points: Vec<ActorEntryPoint> = Vec::new();
    let mut k: usize = 0;
    while k < i.methods.len()
        invariant
            ms == i.methods@,
            !i.has_generics,
            is_simple_target(i.target),
            k <= ms.len(),
            entry_points_from(ms, k as int, dispatch) is Ok,
            entry_points@.len() == entry_points_from(ms, k as int, dispatch)->Ok_0.len(),
            forall|j: int|
                0 <= j < entry_points@.len() ==> is_entry_point_of(
                    #[trigger] entry_points@[j],
                    ms[entry_points_from(ms, k as int, dispatch)->Ok_0[j].0],
                    entry_points_from(ms, k as int, dispatch)->Ok_0[j].1,
                ),
        decreases ms.len() - k,
    {
        let ghost prev = entry_points_from(ms, k as int, dispatch)->Ok_0;
        match analyze_method(&i.methods[k], dispatch) {
            Err(e) => {
                proof {
                    assert(entry_points_from(ms, k + 1, dispatch) == Err::<
                        Seq<(int, Method)>,
                        ItemErrorView,
                    >(e@));
                    lemma_entry_points_error_stable(ms, k + 1, ms.len() as int, dispatch);
                }
                return Err(e);
            },
            Ok(None) => {},
            Ok(Some(ep)) => {
                entry_points.push(ep);
                proof {
                    let next = entry_points_from(ms, k + 1, dispatch)->Ok_0;
                    assert(next == prev.push((k as int, method_step(ms[k as int], dispatch)->Ok_0->0)));
                    assert forall|j: int| 0 <= j < entry_points@.len() implies is_entry_point_of(
                        #[trigger] entry_points@[j],
                        ms[next[j].0],
                        next[j].1,
                    ) by {
                        if j < prev.len() {
                            assert(next[j] == prev[j]);
                        }
                    }
                }
            },
        }
        k = k + 1;
    }
    Ok(
        ActorImplementation {
            rust_name: t.text.clone(),
            name: t.text.clone(),
            dispatch,
            entry_points,
        },
    )
}

} // verus!
