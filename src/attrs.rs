//! The attribute grammar shared by every attribute macro: a comma separated list of
//! `key = literal` settings, with an optional trailing comma.

use vstd::prelude::*;

use crate::literal::{
    int_literal_value, integer_literal_value, str_literal_content, string_literal_value,
    IntLiteral,
};

verus! {

/// One token of an attribute's argument list.
#[derive(Clone, Debug)]
pub enum AttrToken {
    /// An identifier or keyword.
    Ident(String),
    /// A punctuation character.
    Punct(char),
    /// A literal, by its source text (`"dag-cbor"`, `1`, `0x2a`).
    Literal(String),
    /// A delimited group, by its source text.
    Group(String),
}

/// Codec used to store a structure.
#[derive(Clone, Copy, Debug, PartialEq, Eq, Structural)]
pub enum Codec {
    DagCbor,
}

impl Default for Codec {
    fn default() -> (r: Self)
        ensures
            r == Codec::DagCbor,
    {
        Codec::DagCbor
    }
}

impl Codec {
    /// The codec named `value`.
    pub fn from_name(value: String) -> (r: Result<Codec, AttrError>)
        ensures
            value@ == "dag-cbor"@ ==> r == Ok::<Codec, AttrError>(Codec::DagCbor),
            value@ != "dag-cbor"@ ==> r is Err && r->Err_0@ == (AttrErrorKind::UnknownCodec, value@),
    {
        if value == String::from_str("dag-cbor") {
            Ok(Codec::DagCbor)
        } else {
            Err(AttrError::UnknownCodec(value))
        }
    }
}

/// How an actor selects the entry point of an incoming message.
#[derive(Clone, Copy, Debug, PartialEq, Eq, Structural)]
pub enum Dispatch {
    Numeric,
}

impl Default for Dispatch {
    fn default() -> (r: Self)
        ensures
            r == Dispatch::Numeric,
    {
        Dispatch::Numeric
    }
}

impl Dispatch {
    /// The dispatch method named `value`.
    pub fn from_name(value: String) -> (r: Result<Dispatch, AttrError>)
        ensures
            value@ == "method-num"@ ==> r == Ok::<Dispatch, AttrError>(Dispatch::Numeric),
            value@ != "method-num"@ ==> r is Err && r->Err_0@ == (
                AttrErrorKind::UnknownDispatchMethod,
                value@,
            ),
    {
        if value == String::from_str("method-num") {
            Ok(Dispatch::Numeric)
        } else {
            Err(AttrError::UnknownDispatchMethod(value))
        }
    }
}

/// The binding of an entry point for the dispatch mechanism.
#[derive(Clone, Copy, Debug, PartialEq, Eq, Structural)]
pub enum Method {
    Numeric(u64),
}

impl Default for Method {
    fn default() -> (r: Self)
        ensures
            r == Method::Numeric(0),
    {
        Method::Numeric(0)
    }
}

impl Method {
    /// The numeric value of a numeric binding.
    pub fn value(&self) -> (r: u64)
        ensures
            *self == Method::Numeric(r),
    {
        match self {
            Method::Numeric(n) => *n,
        }
    }
}

/// Which attribute macro an attribute list belongs to; it decides the recognized keys.
#[derive(Clone, Copy, Debug, PartialEq, Eq, Structural)]
pub enum AttrNamespace {
    State,
    Payload,
    Actor,
    Export,
}

/// The kinds of setting an attribute list can hold.
#[derive(Clone, Copy, Debug, PartialEq, Eq, Structural)]
pub enum AttrKey {
    Codec,
    Dispatch,
    Binding,
}

/// One recognized setting, with its value.
#[derive(Clone, Copy, Debug, PartialEq, Eq, Structural)]
pub enum AttrSetting {
    Codec(Codec),
    Dispatch(Dispatch),
    Binding(Method),
}

/// The kinds of error of the attribute grammar.
#[derive(Clone, Copy, Debug, PartialEq, Eq, Structural)]
pub enum AttrErrorKind {
    UnknownAttribute,
    UnknownCodec,
    InvalidCodecFormat,
    UnknownDispatchMethod,
    InvalidDispatchMethodFormat,
    InvalidBindingValue,
    InvalidNumericValue,
    ExpectedIdentifier,
    ExpectedEq,
    ExpectedComma,
}

/// An error of the attribute grammar.
#[derive(Clone, Debug)]
pub enum AttrError {
    /// The key is not one of the namespace's keys.
    UnknownAttribute(String),
    /// The codec name is not a supported codec.
    UnknownCodec(String),
    /// The codec value is not a string literal.
    InvalidCodecFormat,
    /// The dispatch method name is not a supported dispatch method.
    UnknownDispatchMethod(String),
    /// The dispatch method value is not a string literal.
    InvalidDispatchMethodFormat,
    /// The value of the binding key (named here) is not an integer literal.
    InvalidBindingValue(String),
    /// The binding value is an integer literal that does not fit in a `u64`.
    InvalidNumericValue(String),
    /// A setting does not start with an identifier.
    ExpectedIdentifier,
    /// A key is not followed by `=`.
    ExpectedEq,
    /// A setting is followed by something else than `,`.
    ExpectedComma,
}

/// An attribute error by its kind and the text it carries (empty when it carries none).
pub type AttrErrorView = (AttrErrorKind, Seq<char>);

impl View for AttrError {
    type V = AttrErrorView;

    open spec fn view(&self) -> AttrErrorView {
        match self {
            AttrError::UnknownAttribute(s) => (AttrErrorKind::UnknownAttribute, s@),
            AttrError::UnknownCodec(s) => (AttrErrorKind::UnknownCodec, s@),
            AttrError::InvalidCodecFormat => (AttrErrorKind::InvalidCodecFormat, Seq::empty()),
            AttrError::UnknownDispatchMethod(s) => (AttrErrorKind::UnknownDispatchMethod, s@),
            AttrError::InvalidDispatchMethodFormat => (
                AttrErrorKind::InvalidDispatchMethodFormat,
                Seq::empty(),
            ),
            AttrError::InvalidBindingValue(s) => (AttrErrorKind::InvalidBindingValue, s@),
            AttrError::InvalidNumericValue(s) => (AttrErrorKind::InvalidNumericValue, s@),
            AttrError::ExpectedIdentifier => (AttrErrorKind::ExpectedIdentifier, Seq::empty()),
            AttrError::ExpectedEq => (AttrErrorKind::ExpectedEq, Seq::empty()),
            AttrError::ExpectedComma => (AttrErrorKind::ExpectedComma, Seq::empty()),
        }
    }
}

/// The message that an attribute error renders to.
pub open spec fn attr_error_message(e: AttrErrorView) -> Seq<char> {
    let s = e.1;
    match e.0 {
        AttrErrorKind::UnknownAttribute => "unknown attribute '"@ + s + "'"@,
        AttrErrorKind::UnknownCodec => "unknown codec '"@ + s + "'"@,
        AttrErrorKind::InvalidCodecFormat => "invalid codec format, expected string literal"@,
        AttrErrorKind::UnknownDispatchMethod => "unknown dispatch method '"@ + s + "'"@,
        AttrErrorKind::InvalidDispatchMethodFormat =>
            "invalid dispatch method format, expected string literal"@,
        AttrErrorKind::InvalidBindingValue => "invalid '"@ + s
            + "' value, expected integer literal"@,
        AttrErrorKind::InvalidNumericValue => "invalid numeric value '"@ + s + "'"@,
        AttrErrorKind::ExpectedIdentifier => "expected an identifier"@,
        AttrErrorKind::ExpectedEq => "expected `=`"@,
        AttrErrorKind::ExpectedComma => "expected `,`"@,
    }
}

/// `left + s + right`, as a new string.
pub(crate) fn quoted(left: &str, s: &String, right: &str) -> (r: String)
    ensures
        r@ == left@ + s@ + right@,
{
    let mut r = String::from_str(left);
    r.append(s.as_str());
    r.append(right);
    r
}

impl AttrError {
    /// The message this error renders to.
    pub fn message(&self) -> (r: String)
        ensures
            r@ == attr_error_message(self@),
    {
        match self {
            AttrError::UnknownAttribute(s) => quoted("unknown attribute '", s, "'"),
            AttrError::UnknownCodec(s) => quoted("unknown codec '", s, "'"),
            AttrError::InvalidCodecFormat => String::from_str(
                "invalid codec format, expected string literal",
            ),
            AttrError::UnknownDispatchMethod(s) => quoted("unknown dispatch method '", s, "'"),
            AttrError::InvalidDispatchMethodFormat => String::from_str(
                "invalid dispatch method format, expected string literal",
            ),
            AttrError::InvalidBindingValue(s) => quoted(
                "invalid '",
                s,
                "' value, expected integer literal",
            ),
            AttrError::InvalidNumericValue(s) => quoted("invalid numeric value '", s, "'"),
            AttrError::ExpectedIdentifier => String::from_str("expected an identifier"),
            AttrError::ExpectedEq => String::from_str("expected `=`"),
            AttrError::ExpectedComma => String::from_str("expected `,`"),
        }
    }
}

/// The setting kind that `name` selects in namespace `ns`, if it is one of its keys.
pub open spec fn key_of(ns: AttrNamespace, name: Seq<char>) -> Option<AttrKey> {
    match ns {
        AttrNamespace::State | AttrNamespace::Payload => if name == "codec"@ {
            Some(AttrKey::Codec)
        } else {
            None
        },
        AttrNamespace::Actor => if name == "dispatch"@ {
            Some(AttrKey::Dispatch)
        } else {
            None
        },
        AttrNamespace::Export => if name == "method_num"@ || name == "binding"@ {
            Some(AttrKey::Binding)
        } else {
            None
        },
    }
}

/// The one setting kind of namespace `ns`.
pub open spec fn namespace_key(ns: AttrNamespace) -> AttrKey {
    match ns {
        AttrNamespace::State | AttrNamespace::Payload => AttrKey::Codec,
        AttrNamespace::Actor => AttrKey::Dispatch,
        AttrNamespace::Export => AttrKey::Binding,
    }
}

/// The kind of a setting.
pub open spec fn setting_key(s: AttrSetting) -> AttrKey {
    match s {
        AttrSetting::Codec(_) => AttrKey::Codec,
        AttrSetting::Dispatch(_) => AttrKey::Dispatch,
        AttrSetting::Binding(_) => AttrKey::Binding,
    }
}

/// The setting of kind `key`, written `name`, whose value is the token `tok` (`None`: the
/// list ended).
pub open spec fn value_setting(key: AttrKey, name: Seq<char>, tok: Option<AttrToken>) -> Result<
    AttrSetting,
    AttrErrorView,
> {
    match key {
        AttrKey::Codec => match tok {
            Some(AttrToken::Literal(t)) => match str_literal_content(t@) {
                Some(v) => if v == "dag-cbor"@ {
                    Ok(AttrSetting::Codec(Codec::DagCbor))
                } else {
                    Err((AttrErrorKind::UnknownCodec, v))
                },
                None => Err((AttrErrorKind::InvalidCodecFormat, Seq::empty())),
            },
            _ => Err((AttrErrorKind::InvalidCodecFormat, Seq::empty())),
        },
        AttrKey::Dispatch => match tok {
            Some(AttrToken::Literal(t)) => match str_literal_content(t@) {
                Some(v) => if v == "method-num"@ {
                    Ok(AttrSetting::Dispatch(Dispatch::Numeric))
                } else {
                    Err((AttrErrorKind::UnknownDispatchMethod, v))
                },
                None => Err((AttrErrorKind::InvalidDispatchMethodFormat, Seq::empty())),
            },
            _ => Err((AttrErrorKind::InvalidDispatchMethodFormat, Seq::empty())),
        },
        AttrKey::Binding => match tok {
            Some(AttrToken::Literal(t)) => match int_literal_value(t@) {
                IntLiteral::Value(n) => Ok(AttrSetting::Binding(Method::Numeric(n))),
                IntLiteral::OutOfRange => Err((AttrErrorKind::InvalidNumericValue, t@)),
                IntLiteral::NotAnInteger => Err((AttrErrorKind::InvalidBindingValue, name)),
            },
            _ => Err((AttrErrorKind::InvalidBindingValue, name)),
        },
    }
}

/// The token at position `i`, if there is one.
pub open spec fn token_at(toks: Seq<AttrToken>, i: int) -> Option<AttrToken> {
    if 0 <= i < toks.len() {
        Some(toks[i])
    } else {
        None
    }
}

/// The settings that the tokens from position `i` on spell in namespace `ns`, or the first
/// error met from left to right.
pub open spec fn settings_from(ns: AttrNamespace, toks: Seq<AttrToken>, i: int) -> Result<
    Seq<AttrSetting>,
    AttrErrorView,
>
    decreases toks.len() - i,
{
    if i < 0 || i >= toks.len() {
        Ok(Seq::empty())
    } else {
        match toks[i] {
            AttrToken::Ident(name) => match key_of(ns, name@) {
                None => Err((AttrErrorKind::UnknownAttribute, name@)),
                Some(key) => if token_at(toks, i + 1) != Some(AttrToken::Punct('=')) {
                    Err((AttrErrorKind::ExpectedEq, Seq::empty()))
                } else {
                    match value_setting(key, name@, token_at(toks, i + 2)) {
                        Err(e) => Err(e),
                        Ok(s) => if i + 3 >= toks.len() {
                            Ok(seq![s])
                        } else if toks[i + 3] != AttrToken::Punct(',') {
                            Err((AttrErrorKind::ExpectedComma, Seq::empty()))
                        } else {
                            match settings_from(ns, toks, i + 4) {
                                Ok(rest) => Ok(seq![s] + rest),
                                Err(e) => Err(e),
                            }
                        },
                    }
                },
            },
            _ => Err((AttrErrorKind::ExpectedIdentifier, Seq::empty())),
        }
    }
}

/// The settings that a whole attribute list spells in namespace `ns`.
pub open spec fn spec_parse_settings(ns: AttrNamespace, toks: Seq<AttrToken>) -> Result<
    Seq<AttrSetting>,
    AttrErrorView,
> {
    settings_from(ns, toks, 0)
}

/// Every setting that an attribute list of namespace `ns` yields is of the namespace's kind.
pub proof fn lemma_settings_of_namespace_kind(ns: AttrNamespace, toks: Seq<AttrToken>, i: int)
    ensures
        settings_from(ns, toks, i) is Ok ==> forall|j: int|
            0 <= j < settings_from(ns, toks, i)->Ok_0.len() ==> setting_key(
                #[trigger] settings_from(ns, toks, i)->Ok_0[j],
            ) == namespace_key(ns),
    decreases toks.len() - i,
{
    if 0 <= i < toks.len() {
        if i + 4 <= toks.len() {
            lemma_settings_of_namespace_kind(ns, toks, i + 4);
        }
        let r = settings_from(ns, toks, i);
        if r is Ok && r->Ok_0.len() > 0 {
            let s = r->Ok_0[0];
            assert(setting_key(s) == namespace_key(ns));
            if i + 3 < toks.len() {
                let rest = settings_from(ns, toks, i + 4)->Ok_0;
                assert(r->Ok_0 == seq![s] + rest);
                assert forall|j: int| 0 <= j < r->Ok_0.len() implies setting_key(
                    #[trigger] r->Ok_0[j],
                ) == namespace_key(ns) by {
                    if j > 0 {
                        assert(r->Ok_0[j] == rest[j - 1]);
                    }
                }
            }
        }
    }
}

fn key_of_name(ns: AttrNamespace, name: &String) -> (r: Option<AttrKey>)
    ensures
        r == key_of(ns, name@),
{
    match ns {
        AttrNamespace::State | AttrNamespace::Payload => {
            if *name == String::from_str("codec") {
                Some(AttrKey::Codec)
            } else {
                None
            }
        },
        AttrNamespace::Actor => {
            if *name == String::from_str("dispatch") {
                Some(AttrKey::Dispatch)
            } else {
                None
            }
        },
        AttrNamespace::Export => {
            if *name == String::from_str("method_num") || *name == String::from_str("binding") {
                Some(AttrKey::Binding)
            } else {
                None
            }
        },
    }
}

/// The token behind an optional reference.
pub open spec fn deref_token(tok: Option<&AttrToken>) -> Option<AttrToken> {
    match tok {
        Some(t) => Some(*t),
        None => None,
    }
}

fn parse_value(key: AttrKey, name: &String, tok: Option<&AttrToken>) -> (r: Result<
    AttrSetting,
    AttrError,
>)
    ensures
        match r {
            Ok(s) => value_setting(key, name@, deref_token(tok)) == Ok::<AttrSetting, AttrErrorView>(
                s,
            ),
            Err(e) => value_setting(key, name@, deref_token(tok)) == Err::<
                AttrSetting,
                AttrErrorView,
            >(e@),
        },
{
    match key {
        AttrKey::Codec => match tok {
            Some(AttrToken::Literal(t)) => match string_literal_value(t.as_str()) {
                Some(v) => match Codec::from_name(v) {
                    Ok(c) => Ok(AttrSetting::Codec(c)),
                    Err(e) => Err(e),
                },
                None => Err(AttrError::InvalidCodecFormat),
            },
            _ => Err(AttrError::InvalidCodecFormat),
        },
        AttrKey::Dispatch => match tok {
            Some(AttrToken::Literal(t)) => match string_literal_value(t.as_str()) {
                Some(v) => match Dispatch::from_name(v) {
                    Ok(d) => Ok(AttrSetting::Dispatch(d)),
                    Err(e) => Err(e),
                },
                None => Err(AttrError::InvalidDispatchMethodFormat),
            },
            _ => Err(AttrError::InvalidDispatchMethodFormat),
        },
        AttrKey::Binding => match tok {
            Some(AttrToken::Literal(t)) => match integer_literal_value(t.as_str()) {
                IntLiteral::Value(n) => Ok(AttrSetting::Binding(Method::Numeric(n))),
                IntLiteral::OutOfRange => Err(AttrError::InvalidNumericValue(t.clone())),
                IntLiteral::NotAnInteger => Err(AttrError::InvalidBindingValue(name.clone())),
            },
            _ => Err(AttrError::InvalidBindingValue(name.clone())),
        },
    }
}

/// The result of a parse, with the settings and the error by their views.
pub open spec fn settings_result_view(r: Result<Vec<AttrSetting>, AttrError>) -> Result<
    Seq<AttrSetting>,
    AttrErrorView,
> {
    match r {
        Ok(v) => Ok(v@),
        Err(e) => Err(e@),
    }
}

fn parse_settings_from(ns: AttrNamespace, toks: &Vec<AttrToken>, i: usize) -> (r: Result<
    Vec<AttrSetting>,
    AttrError,
>)
    requires
        i <= toks.len(),
    ensures
        settings_result_view(r) == settings_from(ns, toks@, i as int),
    decreases toks.len() - i,
{
    if i >= toks.len() {
        return Ok(Vec::new());
    }
    match &toks[i] {
        AttrToken::Ident(name) => match key_of_name(ns, name) {
            None => Err(AttrError::UnknownAttribute(name.clone())),
            Some(key) => {
                let eq_follows = i + 1 < toks.len() && match &toks[i + 1] {
                    AttrToken::Punct(c) => *c == '=',
                    _ => false,
                };
                if !eq_follows {
                    return Err(AttrError::ExpectedEq);
                }
                let value = if i + 2 < toks.len() {
                    Some(&toks[i + 2])
                } else {
                    None
                };
                assert(deref_token(value) == token_at(toks@, i + 2));
                match parse_value(key, name, value) {
                    Err(e) => Err(e),
                    Ok(s) => {
                        if i + 3 >= toks.len() {
                            let mut v = Vec::new();
                            v.push(s);
                            assert(v@ == seq![s]);
                            return Ok(v);
                        }
                        let comma_follows = match &toks[i + 3] {
                            AttrToken::Punct(c) => *c == ',',
                            _ => false,
                        };
                        if !comma_follows {
                            return Err(AttrError::ExpectedComma);
                        }
                        match parse_settings_from(ns, toks, i + 4) {
                            Ok(rest) => {
                                let mut v = Vec::new();
                                v.push(s);
                                let mut rest = rest;
                                v.append(&mut rest);
                                assert(v@ == seq![s] + settings_from(ns, toks@, i + 4)->Ok_0);
                                Ok(v)
                            },
                            Err(e) => Err(e),
                        }
                    },
                }
            },
        },
        _ => Err(AttrError::ExpectedIdentifier),
    }
}

/// Parses an attribute list of namespace `ns` into its settings, in order.
pub fn parse_settings(ns: AttrNamespace, toks: &Vec<AttrToken>) -> (r: Result<
    Vec<AttrSetting>,
    AttrError,
>)
    ensures
        settings_result_view(r) == spec_parse_settings(ns, toks@),
        r is Ok ==> forall|j: int|
            0 <= j < r->Ok_0@.len() ==> setting_key(#[trigger] r->Ok_0@[j]) == namespace_key(ns),
{
    proof {
        lemma_settings_of_namespace_kind(ns, toks@, 0);
    }
    parse_settings_from(ns, toks, 0)
}

} // verus!
