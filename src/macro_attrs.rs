//! The attribute lists of each attribute macro: `#[fvm_state(..)]`, `#[fvm_payload(..)]`,
//! `#[fvm_actor(..)]` and `#[fvm_export(..)]`.
//!
//! A list may name the same key more than once; the getters honour the first setting.

use vstd::prelude::*;

use crate::attrs::{
    namespace_key, parse_settings, setting_key, settings_result_view, spec_parse_settings,
    AttrError, AttrErrorKind, AttrErrorView, AttrKey, AttrNamespace, AttrSetting, AttrToken,
    Codec, Dispatch, Method,
};

verus! {

/// The codec of the first codec setting, if there is one.
pub open spec fn first_codec(s: Seq<AttrSetting>) -> Option<Codec> {
    if s.len() > 0 && s[0] is Codec {
        Some(s[0]->Codec_0)
    } else {
        None
    }
}

/// The dispatch method of the first dispatch setting, if there is one.
pub open spec fn first_dispatch(s: Seq<AttrSetting>) -> Option<Dispatch> {
    if s.len() > 0 && s[0] is Dispatch {
        Some(s[0]->Dispatch_0)
    } else {
        None
    }
}

/// The binding of the first binding setting, if there is one.
pub open spec fn first_binding(s: Seq<AttrSetting>) -> Option<Method> {
    if s.len() > 0 && s[0] is Binding {
        Some(s[0]->Binding_0)
    } else {
        None
    }
}

/// The codec that a list of settings selects: its first, else the default.
pub open spec fn codec_or_default(s: Seq<AttrSetting>) -> Codec {
    match first_codec(s) {
        Some(c) => c,
        None => Codec::DagCbor,
    }
}

/// The dispatch method that a list of settings selects: its first, else the default.
pub open spec fn dispatch_or_default(s: Seq<AttrSetting>) -> Dispatch {
    match first_dispatch(s) {
        Some(d) => d,
        None => Dispatch::Numeric,
    }
}

/// What a parse of namespace `ns` owes: the settings on success, the error by its view.
pub open spec fn parse_outcome<T>(
    ns: AttrNamespace,
    toks: Seq<AttrToken>,
    r: Result<T, AttrError>,
    settings_of: spec_fn(T) -> Seq<AttrSetting>,
) -> bool {
    match spec_parse_settings(ns, toks) {
        Ok(s) => r is Ok && settings_of(r->Ok_0) == s,
        Err(e) => r is Err && r->Err_0@ == e,
    }
}

/// The error for a key that namespace `ns` does not recognize.
pub open spec fn unknown_key_error(key: Seq<char>) -> AttrErrorView {
    (AttrErrorKind::UnknownAttribute, key)
}

/// An attribute of `#[fvm_state(..)]`.
#[derive(Clone, Copy, Debug, PartialEq, Eq, Structural)]
pub enum StateAttr {
    Codec(Codec),
}

/// An attribute of `#[fvm_payload(..)]`.
#[derive(Clone, Copy, Debug, PartialEq, Eq, Structural)]
pub enum PayloadAttr {
    Codec(Codec),
}

/// An attribute of `#[fvm_actor(..)]`.
#[derive(Clone, Copy, Debug, PartialEq, Eq, Structural)]
pub enum ActorAttr {
    Dispatch(Dispatch),
}

/// An attribute of `#[fvm_export(..)]`.
#[derive(Clone, Copy, Debug, PartialEq, Eq, Structural)]
pub enum ExportAttr {
    BindingMethod(Method),
}

impl StateAttr {
    pub open spec fn setting(self) -> AttrSetting {
        match self {
            StateAttr::Codec(c) => AttrSetting::Codec(c),
        }
    }

    /// The attribute that `key` names, with its default value.
    pub fn from_key(key: &String) -> (r: Result<StateAttr, AttrError>)
        ensures
            key@ == "codec"@ ==> r == Ok::<StateAttr, AttrError>(StateAttr::Codec(Codec::DagCbor)),
            key@ != "codec"@ ==> r is Err && r->Err_0@ == unknown_key_error(key@),
    {
        if *key == String::from_str("codec") {
            Ok(StateAttr::Codec(Codec::DagCbor))
        } else {
            Err(AttrError::UnknownAttribute(key.clone()))
        }
    }
}

impl PayloadAttr {
    pub open spec fn setting(self) -> AttrSetting {
        match self {
            PayloadAttr::Codec(c) => AttrSetting::Codec(c),
        }
    }

    /// The attribute that `key` names, with its default value.
    pub fn from_key(key: &String) -> (r: Result<PayloadAttr, AttrError>)
        ensures
            key@ == "codec"@ ==> r == Ok::<PayloadAttr, AttrError>(
                PayloadAttr::Codec(Codec::DagCbor),
            ),
            key@ != "codec"@ ==> r is Err && r->Err_0@ == unknown_key_error(key@),
    {
        if *key == String::from_str("codec") {
            Ok(PayloadAttr::Codec(Codec::DagCbor))
        } else {
            Err(AttrError::UnknownAttribute(key.clone()))
        }
    }
}

impl ActorAttr {
    pub open spec fn setting(self) -> AttrSetting {
        match self {
            ActorAttr::Dispatch(d) => AttrSetting::Dispatch(d),
        }
    }

    /// The attribute that `key` names, with its default value.
    pub fn from_key(key: &String) -> (r: Result<ActorAttr, AttrError>)
        ensures
            key@ == "dispatch"@ ==> r == Ok::<ActorAttr, AttrError>(
                ActorAttr::Dispatch(Dispatch::Numeric),
            ),
            key@ != "dispatch"@ ==> r is Err && r->Err_0@ == unknown_key_error(key@),
    {
        if *key == String::from_str("dispatch") {
            Ok(ActorAttr::Dispatch(Dispatch::Numeric))
        } else {
            Err(AttrError::UnknownAttribute(key.clone()))
        }
    }
}

impl ExportAttr {
    pub open spec fn setting(self) -> AttrSetting {
        match self {
            ExportAttr::BindingMethod(m) => AttrSetting::Binding(m),
        }
    }

    /// The attribute that `key` names, with its default value.
    pub fn from_key(key: &String) -> (r: Result<ExportAttr, AttrError>)
        ensures
            (key@ == "method_num"@ || key@ == "binding"@) ==> r == Ok::<ExportAttr, AttrError>(
                ExportAttr::BindingMethod(Method::Numeric(0)),
            ),
            !(key@ == "method_num"@ || key@ == "binding"@) ==> r is Err && r->Err_0@
                == unknown_key_error(key@),
    {
        if *key == String::from_str("method_num") || *key == String::from_str("binding") {
            Ok(ExportAttr::BindingMethod(Method::Numeric(0)))
        } else {
            Err(AttrError::UnknownAttribute(key.clone()))
        }
    }
}

/// Parsed attributes of `#[fvm_state(..)]`.
#[derive(Clone, Debug, Default)]
pub struct StateAttrs {
    pub attrs: Vec<StateAttr>,
}

/// Parsed attributes of `#[fvm_payload(..)]`.
#[derive(Clone, Debug, Default)]
pub struct PayloadAttrs {
    pub attrs: Vec<PayloadAttr>,
}

/// Parsed attributes of `#[fvm_actor(..)]`.
#[derive(Clone, Debug, Default)]
pub struct ActorAttrs {
    pub attrs: Vec<ActorAttr>,
}

/// Parsed attributes of `#[fvm_export(..)]`.
#[derive(Clone, Debug, Default)]
pub struct ExportAttrs {
    pub attrs: Vec<ExportAttr>,
}

impl StateAttrs {
    /// The settings of this list, in order.
    pub open spec fn settings(self) -> Seq<AttrSetting> {
        self.attrs@.map_values(|a: StateAttr| a.setting())
    }

    /// An empty list: every attribute takes its default.
    pub fn new() -> (r: StateAttrs)
        ensures
            r.settings() == Seq::<AttrSetting>::empty(),
    {
        let r = StateAttrs { attrs: Vec::new() };
        assert(r.settings() =~= Seq::<AttrSetting>::empty());
        r
    }

    /// Parses the argument tokens of `#[fvm_state(..)]`.
    pub fn parse(toks: &Vec<AttrToken>) -> (r: Result<StateAttrs, AttrError>)
        ensures
            parse_outcome(AttrNamespace::State, toks@, r, |a: StateAttrs| a.settings()),
    {
        let settings = match parse_settings(AttrNamespace::State, toks) {
            Ok(s) => s,
            Err(e) => return Err(e),
        };
        let mut attrs: Vec<StateAttr> = Vec::new();
        let mut k: usize = 0;
        while k < settings.len()
            invariant
                k <= settings@.len(),
                attrs@.len() == k,
                forall|j: int| 0 <= j < k ==> (#[trigger] attrs@[j]).setting() == settings@[j],
                forall|j: int|
                    0 <= j < settings@.len() ==> setting_key(#[trigger] settings@[j])
                        == AttrKey::Codec,
            decreases settings@.len() - k,
        {
            match settings[k] {
                AttrSetting::Codec(c) => attrs.push(StateAttr::Codec(c)),
                _ => {
                    assert(setting_key(settings@[k as int]) == AttrKey::Codec);
                },
            }
            k = k + 1;
        }
        let r = StateAttrs { attrs };
        assert(r.settings() =~= settings@);
        Ok(r)
    }

    /// The first codec setting, if any.
    pub fn codec(&self) -> (r: Option<Codec>)
        ensures
            r == first_codec(self.settings()),
    {
        if self.attrs.len() > 0 {
            match self.attrs[0] {
                StateAttr::Codec(c) => Some(c),
            }
        } else {
            None
        }
    }

    /// The codec that this list selects.
    pub fn codec_or_default(&self) -> (r: Codec)
        ensures
            r == codec_or_default(self.settings()),
    {
        match self.codec() {
            Some(c) => c,
            None => Codec::default(),
        }
    }
}

impl PayloadAttrs {
    /// The settings of this list, in order.
    pub open spec fn settings(self) -> Seq<AttrSetting> {
        self.attrs@.map_values(|a: PayloadAttr| a.setting())
    }

    /// An empty list: every attribute takes its default.
    pub fn new() -> (r: PayloadAttrs)
        ensures
            r.settings() == Seq::<AttrSetting>::empty(),
    {
        let r = PayloadAttrs { attrs: Vec::new() };
        assert(r.settings() =~= Seq::<AttrSetting>::empty());
        r
    }

    /// Parses the argument tokens of `#[fvm_payload(..)]`.
    pub fn parse(toks: &Vec<AttrToken>) -> (r: Result<PayloadAttrs, AttrError>)
        ensures
            parse_outcome(AttrNamespace::Payload, toks@, r, |a: PayloadAttrs| a.settings()),
    {
        let settings = match parse_settings(AttrNamespace::Payload, toks) {
            Ok(s) => s,
            Err(e) => return Err(e),
        };
        let mut attrs: Vec<PayloadAttr> = Vec::new();
        let mut k: usize = 0;
        while k < settings.len()
            invariant
                k <= settings@.len(),
                attrs@.len() == k,
                forall|j: int| 0 <= j < k ==> (#[trigger] attrs@[j]).setting() == settings@[j],
                forall|j: int|
                    0 <= j < settings@.len() ==> setting_key(#[trigger] settings@[j])
                        == AttrKey::Codec,
            decreases settings@.len() - k,
        {
            match settings[k] {
                AttrSetting::Codec(c) => attrs.push(PayloadAttr::Codec(c)),
                _ => {
                    assert(setting_key(settings@[k as int]) == AttrKey::Codec);
                },
            }
            k = k + 1;
        }
        let r = PayloadAttrs { attrs };
        assert(r.settings() =~= settings@);
        Ok(r)
    }

    /// The first codec setting, if any.
    pub fn codec(&self) -> (r: Option<Codec>)
        ensures
            r == first_codec(self.settings()),
    {
        if self.attrs.len() > 0 {
            match self.attrs[0] {
                PayloadAttr::Codec(c) => Some(c),
            }
        } else {
            None
        }
    }

    /// The codec that this list selects.
    pub fn codec_or_default(&self) -> (r: Codec)
        ensures
            r == codec_or_default(self.settings()),
    {
        match self.codec() {
            Some(c) => c,
            None => Codec::default(),
        }
    }
}

impl ActorAttrs {
    /// The settings of this list, in order.
    pub open spec fn settings(self) -> Seq<AttrSetting> {
        self.attrs@.map_values(|a: ActorAttr| a.setting())
    }

    /// An empty list: every attribute takes its default.
    pub fn new() -> (r: ActorAttrs)
        ensures
            r.settings() == Seq::<AttrSetting>::empty(),
    {
        let r = ActorAttrs { attrs: Vec::new() };
        assert(r.settings() =~= Seq::<AttrSetting>::empty());
        r
    }

    /// Parses the argument tokens of `#[fvm_actor(..)]`.
    pub fn parse(toks: &Vec<AttrToken>) -> (r: Result<ActorAttrs, AttrError>)
        ensures
            parse_outcome(AttrNamespace::Actor, toks@, r, |a: ActorAttrs| a.settings()),
    {
        let settings = match parse_settings(AttrNamespace::Actor, toks) {
            Ok(s) => s,
            Err(e) => return Err(e),
        };
        let mut attrs: Vec<ActorAttr> = Vec::new();
        let mut k: usize = 0;
        while k < settings.len()
            invariant
                k <= settings@.len(),
                attrs@.len() == k,
                forall|j: int| 0 <= j < k ==> (#[trigger] attrs@[j]).setting() == settings@[j],
                forall|j: int|
                    0 <= j < settings@.len() ==> setting_key(#[trigger] settings@[j])
                        == AttrKey::Dispatch,
            decreases settings@.len() - k,
        {
            match settings[k] {
                AttrSetting::Dispatch(d) => attrs.push(ActorAttr::Dispatch(d)),
                _ => {
                    assert(setting_key(settings@[k as int]) == AttrKey::Dispatch);
                },
            }
            k = k + 1;
        }
        let r = ActorAttrs { attrs };
        assert(r.settings() =~= settings@);
        Ok(r)
    }

    /// The first dispatch setting, if any.
    pub fn dispatch(&self) -> (r: Option<Dispatch>)
        ensures
            r == first_dispatch(self.settings()),
    {
        if self.attrs.len() > 0 {
            match self.attrs[0] {
                ActorAttr::Dispatch(d) => Some(d),
            }
        } else {
            None
        }
    }

    /// The dispatch method that this list selects.
    pub fn dispatch_or_default(&self) -> (r: Dispatch)
        ensures
            r == dispatch_or_default(self.settings()),
    {
        match self.dispatch() {
            Some(d) => d,
            None => Dispatch::default(),
        }
    }
}

impl ExportAttrs {
    /// The settings of this list, in order.
    pub open spec fn settings(self) -> Seq<AttrSetting> {
        self.attrs@.map_values(|a: ExportAttr| a.setting())
    }

    /// An empty list: no binding is given.
    pub fn new() -> (r: ExportAttrs)
        ensures
            r.settings() == Seq::<AttrSetting>::empty(),
    {
        let r = ExportAttrs { attrs: Vec::new() };
        assert(r.settings() =~= Seq::<AttrSetting>::empty());
        r
    }

    /// Parses the argument tokens of `#[fvm_export(..)]`.
    pub fn parse(toks: &Vec<AttrToken>) -> (r: Result<ExportAttrs, AttrError>)
        ensures
            parse_outcome(AttrNamespace::Export, toks@, r, |a: ExportAttrs| a.settings()),
    {
        let settings = match parse_settings(AttrNamespace::Export, toks) {
            Ok(s) => s,
            Err(e) => return Err(e),
        };
        let mut attrs: Vec<ExportAttr> = Vec::new();
        let mut k: usize = 0;
        while k < settings.len()
            invariant
                k <= settings@.len(),
                attrs@.len() == k,
                forall|j: int| 0 <= j < k ==> (#[trigger] attrs@[j]).setting() == settings@[j],
                forall|j: int|
                    0 <= j < settings@.len() ==> setting_key(#[trigger] settings@[j])
                        == AttrKey::Binding,
            decreases settings@.len() - k,
        {
            match settings[k] {
                AttrSetting::Binding(m) => attrs.push(ExportAttr::BindingMethod(m)),
                _ => {
                    assert(setting_key(settings@[k as int]) == AttrKey::Binding);
                },
            }
            k = k + 1;
        }
        let r = ExportAttrs { attrs };
        assert(r.settings() =~= settings@);
        Ok(r)
    }

    /// The first binding setting, if any.
    pub fn binding_method(&self) -> (r: Option<Method>)
        ensures
            r == first_binding(self.settings()),
    {
        if self.attrs.len() > 0 {
            match self.attrs[0] {
                ExportAttr::BindingMethod(m) => Some(m),
            }
        } else {
            None
        }
    }
}

/// An empty attribute list is accepted by every attribute macro and leaves every attribute
/// at its default: the codec is `dag-cbor` and the dispatch is numeric.
pub proof fn lemma_empty_attrs_take_defaults(ns: AttrNamespace)
    ensures
        spec_parse_settings(ns, Seq::<AttrToken>::empty()) == Ok::<
            Seq<AttrSetting>,
            AttrErrorView,
        >(Seq::empty()),
        codec_or_default(Seq::empty()) == Codec::DagCbor,
        dispatch_or_default(Seq::empty()) == Dispatch::Numeric,
        first_binding(Seq::empty()) is None,
{
}

/// A setting `K = V` whose key `K` is not one of the namespace's keys is rejected with
/// `unknown attribute 'K'`, whatever `V` is.
pub proof fn lemma_unknown_key_rejected(ns: AttrNamespace, key: String, value: AttrToken)
    requires
        crate::attrs::key_of(ns, key@) is None,
    ensures
        spec_parse_settings(
            ns,
            seq![AttrToken::Ident(key), AttrToken::Punct('='), value],
        ) == Err::<Seq<AttrSetting>, AttrErrorView>(unknown_key_error(key@)),
        crate::attrs::attr_error_message(unknown_key_error(key@)) == "unknown attribute '"@
            + key@ + "'"@,
{
    let toks = seq![AttrToken::Ident(key), AttrToken::Punct('='), value];
    assert(toks[0] == AttrToken::Ident(key));
}

} // verus!
