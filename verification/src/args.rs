//! The directive parser.
//!
//! A declaration and its fields carry raw attributes. Those named after the
//! generator arrive as lists of entries (key-value pairs and bare flags); all
//! others are carried verbatim for forwarding. `parse_degeneric_args` turns
//! the raw attributes into typed directives or fails on the first malformed
//! or unrecognized entry, with the failure anchored at that entry's span.
//!
//! The value of the trait-declaration key is itself parsed, as a trait
//! header: an optional visibility, the `trait` keyword, and an identifier.
//! The value of a scoped-attribute key is checked to read as a sequence of
//! outer attribute fragments and then carried verbatim.

use vstd::prelude::*;
use vstd::string::StrSliceExecFns;

use crate::errors::{DirectiveParseReason, GenError};
use crate::textscan::{
    attrs_wf, exec_attrs_wf, exec_find_close, exec_ident_end, exec_skip_ws, find_close,
    ident_char, ident_end, is_ident_start, match_keyword, skip_ws, str_eq,
};

verus! {

/// A scope a directive-supplied attribute fragment can be aimed at.
#[derive(Clone, Copy, Debug, PartialEq, Eq, Structural)]
pub enum AttributeScope {
    TraitDecl,
    TraitImpl,
    GetterDecl,
    GetterImpl,
    MutGetterDecl,
    MutGetterImpl,
}

impl DeepView for AttributeScope {
    type V = AttributeScope;

    open spec fn deep_view(&self) -> AttributeScope {
        *self
    }
}

/// A visibility (mathematical form).
#[verifier::ext_equal]
pub enum VisibilityV {
    Inherited,
    Public,
    Restricted { scope: Seq<char> },
}

/// A visibility: absent, `pub`, or `pub( ... )` with the restriction carried
/// verbatim.
#[derive(Debug, PartialEq, Eq)]
pub enum Visibility {
    Inherited,
    Public,
    Restricted { scope: String },
}

impl DeepView for Visibility {
    type V = VisibilityV;

    open spec fn deep_view(&self) -> VisibilityV {
        match *self {
            Visibility::Inherited => VisibilityV::Inherited,
            Visibility::Public => VisibilityV::Public,
            Visibility::Restricted { scope } => VisibilityV::Restricted { scope: scope@ },
        }
    }
}

/// The parsed trait-declaration directive (mathematical form).
#[verifier::ext_equal]
pub struct TraitDeclV {
    pub vis: VisibilityV,
    pub ident: Seq<char>,
}

/// The parsed trait-declaration directive: the visibility and the name of
/// the interface to synthesize.
#[derive(Debug, PartialEq, Eq)]
pub struct TraitDecl {
    pub vis: Visibility,
    pub ident: String,
}

impl DeepView for TraitDecl {
    type V = TraitDeclV;

    open spec fn deep_view(&self) -> TraitDeclV {
        TraitDeclV { vis: self.vis.deep_view(), ident: self.ident@ }
    }
}

/// The literal value of a key-value entry (mathematical form).
#[verifier::ext_equal]
pub enum LitValueV {
    StrLit { value: Seq<char> },
    OtherLit,
}

/// The literal value of a key-value entry: a string literal's contents, or
/// some other kind of literal (which every key here rejects).
#[derive(Debug, PartialEq, Eq)]
pub enum LitValue {
    StrLit { value: String },
    OtherLit,
}

impl DeepView for LitValue {
    type V = LitValueV;

    open spec fn deep_view(&self) -> LitValueV {
        match self {
            LitValue::StrLit { value } => LitValueV::StrLit { value: value@ },
            LitValue::OtherLit => LitValueV::OtherLit,
        }
    }
}

/// One entry of a directive attribute's list (mathematical form).
#[verifier::ext_equal]
pub enum MetaEntryV {
    KeyValue { path: Seq<Seq<char>>, value: LitValueV, path_span: usize, value_span: usize },
    Flag { path: Seq<Seq<char>>, span: usize },
    OtherMeta { span: usize },
}

/// One entry of a directive attribute's list: a key-value pair, a bare path
/// (a flag), or anything else (a nested list, a bare literal). The key is a
/// path, kept as its segments: every key here must be a single identifier.
#[derive(Debug, PartialEq, Eq)]
pub enum MetaEntry {
    KeyValue { path: Vec<String>, value: LitValue, path_span: usize, value_span: usize },
    Flag { path: Vec<String>, span: usize },
    OtherMeta { span: usize },
}

impl DeepView for MetaEntry {
    type V = MetaEntryV;

    open spec fn deep_view(&self) -> MetaEntryV {
        match self {
            MetaEntry::KeyValue { path, value, path_span, value_span } => MetaEntryV::KeyValue {
                path: path.deep_view(),
                value: value.deep_view(),
                path_span: *path_span,
                value_span: *value_span,
            },
            MetaEntry::Flag { path, span } => MetaEntryV::Flag {
                path: path.deep_view(),
                span: *span,
            },
            MetaEntry::OtherMeta { span } => MetaEntryV::OtherMeta { span: *span },
        }
    }
}

/// One raw attribute of a declaration or field (mathematical form).
#[verifier::ext_equal]
pub enum RawAttrV {
    Degeneric { entries: Seq<MetaEntryV>, span: usize },
    DegenericMalformed { span: usize },
    Other { name: Seq<char>, text: Seq<char> },
}

/// One raw attribute of a declaration or field: a directive attribute parsed
/// into entries, a directive attribute that does not carry a parenthesized
/// list, or any other attribute with its name and verbatim text.
#[derive(Debug, PartialEq, Eq)]
pub enum RawAttr {
    Degeneric { entries: Vec<MetaEntry>, span: usize },
    DegenericMalformed { span: usize },
    Other { name: String, text: String },
}

impl DeepView for RawAttr {
    type V = RawAttrV;

    open spec fn deep_view(&self) -> RawAttrV {
        match self {
            RawAttr::Degeneric { entries, span } => RawAttrV::Degeneric {
                entries: entries.deep_view(),
                span: *span,
            },
            RawAttr::DegenericMalformed { span } => RawAttrV::DegenericMalformed { span: *span },
            RawAttr::Other { name, text } => RawAttrV::Other { name: name@, text: text@ },
        }
    }
}

/// A validated attribute fragment sequence, carried verbatim.
#[derive(Debug, PartialEq, Eq)]
pub struct Attr(pub String);

impl DeepView for Attr {
    type V = Seq<char>;

    open spec fn deep_view(&self) -> Seq<char> {
        self.0@
    }
}

/// One parsed directive (mathematical form).
#[verifier::ext_equal]
pub enum DegenericArgV {
    TraitDecl { decl: TraitDeclV },
    NoGetter,
    PreserveGeneric,
    Dynamize,
    Attr { text: Seq<char>, scopes: Seq<AttributeScope> },
}

/// One parsed directive: the trait declaration to synthesize, the marker
/// that suppresses a field's accessors, the marker that keeps a type
/// parameter visible, the marker that asks for dynamization hooks, or an
/// attribute fragment aimed at one or two scopes.
#[derive(Debug, PartialEq, Eq)]
pub enum DegenericArg {
    TraitDecl(TraitDecl),
    NoGetter,
    PreserveGeneric,
    Dynamize,
    Attr(Attr, Vec<AttributeScope>),
}

impl DeepView for DegenericArg {
    type V = DegenericArgV;

    open spec fn deep_view(&self) -> DegenericArgV {
        match self {
            DegenericArg::TraitDecl(decl) => DegenericArgV::TraitDecl {
                decl: decl.deep_view(),
            },
            DegenericArg::NoGetter => DegenericArgV::NoGetter,
            DegenericArg::PreserveGeneric => DegenericArgV::PreserveGeneric,
            DegenericArg::Dynamize => DegenericArgV::Dynamize,
            DegenericArg::Attr(a, scopes) => DegenericArgV::Attr {
                text: a.deep_view(),
                scopes: scopes.deep_view(),
            },
        }
    }
}

/// The rest of a trait header after the visibility: the `trait` keyword,
/// then an identifier, then nothing more.
pub open spec fn spec_header_tail(s: Seq<char>, i: int, vis: VisibilityV) -> Option<TraitDeclV> {
    let k = skip_ws(s, i);
    let e = ident_end(s, k);
    if s.subrange(k, e) == "trait"@ {
        let m = skip_ws(s, e);
        let f = ident_end(s, m);
        if m < f && is_ident_start(s[m]) && skip_ws(s, f) == s.len() {
            Option::Some(TraitDeclV { vis, ident: s.subrange(m, f) })
        } else {
            Option::None
        }
    } else {
        Option::None
    }
}

/// A trait header: an optional visibility (`pub`, possibly restricted by a
/// parenthesized scope), the `trait` keyword, and the trait's identifier.
pub open spec fn spec_parse_trait_header(s: Seq<char>) -> Option<TraitDeclV> {
    let i0 = skip_ws(s, 0);
    let e0 = ident_end(s, i0);
    if s.subrange(i0, e0) == "pub"@ {
        let j = skip_ws(s, e0);
        if j < s.len() && s[j] == '(' {
            match find_close(s, j + 1) {
                Option::Some(k) => spec_header_tail(
                    s,
                    k + 1,
                    VisibilityV::Restricted { scope: s.subrange(j + 1, k) },
                ),
                Option::None => Option::None,
            }
        } else {
            spec_header_tail(s, e0, VisibilityV::Public)
        }
    } else {
        spec_header_tail(s, 0, VisibilityV::Inherited)
    }
}

/// Parses the rest of a trait header after the visibility.
fn exec_header_tail(s: &str, i: usize, vis: Visibility) -> (r: Option<TraitDecl>)
    requires
        i <= s@.len(),
    ensures
        r is Some <==> spec_header_tail(s@, i as int, vis.deep_view()) is Some,
        r matches Some(td) ==> spec_header_tail(s@, i as int, vis.deep_view()) == Some(
            td.deep_view(),
        ),
{
    let n = s.unicode_len();
    let k = exec_skip_ws(s, i);
    let e = exec_ident_end(s, k);
    if !match_keyword(s, k, e, "trait") {
        return Option::None;
    }
    let m = exec_skip_ws(s, e);
    let f = exec_ident_end(s, m);
    if m < f {
        let c = s.get_char(m);
        if ident_char(c) && !('0' <= c && c <= '9') {
            let z = exec_skip_ws(s, f);
            if z == n {
                let ident = s.substring_char(m, f).to_owned();
                return Option::Some(TraitDecl { vis, ident });
            }
        }
    }
    Option::None
}

/// Parses a trait header: an optional visibility, the `trait` keyword and an
/// identifier, with nothing left over.
pub fn parse_trait_header(s: &str) -> (r: Option<TraitDecl>)
    ensures
        r is Some <==> spec_parse_trait_header(s@) is Some,
        r matches Some(td) ==> spec_parse_trait_header(s@) == Some(td.deep_view()),
{
    let n = s.unicode_len();
    let i0 = exec_skip_ws(s, 0);
    let e0 = exec_ident_end(s, i0);
    if match_keyword(s, i0, e0, "pub") {
        let j = exec_skip_ws(s, e0);
        if j < n && s.get_char(j) == '(' {
            match exec_find_close(s, j + 1) {
                Option::Some(k) => {
                    let scope = s.substring_char(j + 1, k).to_owned();
                    exec_header_tail(s, k + 1, Visibility::Restricted { scope })
                },
                Option::None => Option::None,
            }
        } else {
            exec_header_tail(s, e0, Visibility::Public)
        }
    } else {
        exec_header_tail(s, 0, Visibility::Inherited)
    }
}

/// The scopes a scoped-attribute key aims at, or nothing for an unknown key.
pub open spec fn spec_scopes_of_key(key: Seq<char>) -> Option<Seq<AttributeScope>> {
    if key == "trait_decl_attr"@ {
        Option::Some(seq![AttributeScope::TraitDecl])
    } else if key == "trait_impl_attr"@ {
        Option::Some(seq![AttributeScope::TraitImpl])
    } else if key == "trait_decl_impl_attr"@ {
        Option::Some(seq![AttributeScope::TraitDecl, AttributeScope::TraitImpl])
    } else if key == "getter_decl_attr"@ {
        Option::Some(seq![AttributeScope::GetterDecl])
    } else if key == "getter_impl_attr"@ {
        Option::Some(seq![AttributeScope::GetterImpl])
    } else if key == "getter_decl_impl_attr"@ {
        Option::Some(seq![AttributeScope::GetterDecl, AttributeScope::GetterImpl])
    } else if key == "mut_getter_decl_attr"@ {
        Option::Some(seq![AttributeScope::MutGetterDecl])
    } else if key == "mut_getter_impl_attr"@ {
        Option::Some(seq![AttributeScope::MutGetterImpl])
    } else if key == "mut_getter_decl_impl_attr"@ {
        Option::Some(seq![AttributeScope::MutGetterDecl, AttributeScope::MutGetterImpl])
    } else {
        Option::None
    }
}

/// The directive one entry parses to, or the failure it raises.
pub open spec fn spec_parse_entry(e: MetaEntryV) -> Result<DegenericArgV, GenError> {
    match e {
        MetaEntryV::KeyValue { path, value, path_span, value_span } => {
            if path.len() != 1 {
                Result::Err(
                    GenError::DirectiveParse {
                        reason: DirectiveParseReason::KeyNotIdent,
                        span: path_span,
                    },
                )
            } else {
                let key = path[0];
                if key == "trait"@ || key == "trait_decl"@ {
                    match value {
                        LitValueV::StrLit { value: v } => match spec_parse_trait_header(v) {
                            Option::Some(decl) => Result::Ok(DegenericArgV::TraitDecl { decl }),
                            Option::None => Result::Err(
                                GenError::DirectiveParse {
                                    reason: DirectiveParseReason::BadTraitHeader,
                                    span: value_span,
                                },
                            ),
                        },
                        LitValueV::OtherLit => Result::Err(
                            GenError::DirectiveParse {
                                reason: DirectiveParseReason::NonStringLiteral,
                                span: value_span,
                            },
                        ),
                    }
                } else {
                    match spec_scopes_of_key(key) {
                        Option::Some(scopes) => match value {
                            LitValueV::StrLit { value: v } => if attrs_wf(v) {
                                Result::Ok(DegenericArgV::Attr { text: v, scopes })
                            } else {
                                Result::Err(
                                    GenError::DirectiveParse {
                                        reason: DirectiveParseReason::BadAttrFragment,
                                        span: value_span,
                                    },
                                )
                            },
                            LitValueV::OtherLit => Result::Err(
                                GenError::DirectiveParse {
                                    reason: DirectiveParseReason::NonStringLiteral,
                                    span: value_span,
                                },
                            ),
                        },
                        Option::None => Result::Err(
                            GenError::DirectiveParse {
                                reason: DirectiveParseReason::UnrecognizedKeyValue,
                                span: path_span,
                            },
                        ),
                    }
                }
            }
        },
        MetaEntryV::Flag { path, span } => {
            if path.len() != 1 {
                Result::Err(
                    GenError::DirectiveParse { reason: DirectiveParseReason::KeyNotIdent, span },
                )
            } else if path[0] == "no_getter"@ {
                Result::Ok(DegenericArgV::NoGetter)
            } else if path[0] == "preserve"@ {
                Result::Ok(DegenericArgV::PreserveGeneric)
            } else if path[0] == "dynamize"@ {
                Result::Ok(DegenericArgV::Dynamize)
            } else {
                Result::Err(
                    GenError::DirectiveParse { reason: DirectiveParseReason::UnknownFlag, span },
                )
            }
        },
        MetaEntryV::OtherMeta { span } => Result::Err(
            GenError::DirectiveParse { reason: DirectiveParseReason::MalformedEntry, span },
        ),
    }
}

/// The directives a whole entry list parses to, or the first failure.
pub open spec fn spec_parse_entries(es: Seq<MetaEntryV>) -> Result<Seq<DegenericArgV>, GenError>
    decreases es.len(),
{
    if es.len() == 0 {
        Result::Ok(Seq::empty())
    } else {
        match spec_parse_entries(es.drop_last()) {
            Result::Err(e) => Result::Err(e),
            Result::Ok(pre) => match spec_parse_entry(es.last()) {
                Result::Ok(d) => Result::Ok(pre.push(d)),
                Result::Err(e) => Result::Err(e),
            },
        }
    }
}

/// The directives a whole raw-attribute list parses to, or the first
/// failure: directive attributes contribute their entries in order, a
/// directive attribute without a parenthesized list fails, every other
/// attribute contributes nothing.
pub open spec fn spec_parse_degeneric_args(attrs: Seq<RawAttrV>) -> Result<
    Seq<DegenericArgV>,
    GenError,
>
    decreases attrs.len(),
{
    if attrs.len() == 0 {
        Result::Ok(Seq::empty())
    } else {
        match spec_parse_degeneric_args(attrs.drop_last()) {
            Result::Err(e) => Result::Err(e),
            Result::Ok(pre) => match attrs.last() {
                RawAttrV::Other { .. } => Result::Ok(pre),
                RawAttrV::DegenericMalformed { span } => Result::Err(
                    GenError::DirectiveParse {
                        reason: DirectiveParseReason::MalformedList,
                        span,
                    },
                ),
                RawAttrV::Degeneric { entries, .. } => match spec_parse_entries(entries) {
                    Result::Ok(ds) => Result::Ok(pre + ds),
                    Result::Err(e) => Result::Err(e),
                },
            },
        }
    }
}

/// One step of `spec_parse_entries` along a prefix.
proof fn lemma_parse_entries_step(es: Seq<MetaEntryV>, i: int)
    requires
        0 <= i < es.len(),
    ensures
        spec_parse_entries(es.take(i + 1)) == (match spec_parse_entries(es.take(i)) {
            Result::Err(e) => Result::<Seq<DegenericArgV>, GenError>::Err(e),
            Result::Ok(pre) => match spec_parse_entry(es[i]) {
                Result::Ok(d) => Result::Ok(pre.push(d)),
                Result::Err(e) => Result::Err(e),
            },
        }),
{
    assert(es.take(i + 1).drop_last() =~= es.take(i));
    assert(es.take(i + 1).last() == es[i]);
}

/// A failing prefix decides the whole entry list.
proof fn lemma_parse_entries_err_extends(es: Seq<MetaEntryV>, n: int)
    requires
        0 <= n <= es.len(),
        spec_parse_entries(es.take(n)) is Err,
    ensures
        spec_parse_entries(es) == spec_parse_entries(es.take(n)),
    decreases es.len(),
{
    if n == es.len() {
        assert(es.take(n) =~= es);
    } else {
        assert(es.drop_last().take(n) =~= es.take(n));
        lemma_parse_entries_err_extends(es.drop_last(), n);
    }
}

/// One step of `spec_parse_degeneric_args` along a prefix.
proof fn lemma_parse_args_step(attrs: Seq<RawAttrV>, i: int)
    requires
        0 <= i < attrs.len(),
    ensures
        spec_parse_degeneric_args(attrs.take(i + 1)) == (match spec_parse_degeneric_args(
            attrs.take(i),
        ) {
            Result::Err(e) => Result::<Seq<DegenericArgV>, GenError>::Err(e),
            Result::Ok(pre) => match attrs[i] {
                RawAttrV::Other { .. } => Result::Ok(pre),
                RawAttrV::DegenericMalformed { span } => Result::Err(
                    GenError::DirectiveParse {
                        reason: DirectiveParseReason::MalformedList,
                        span,
                    },
                ),
                RawAttrV::Degeneric { entries, .. } => match spec_parse_entries(entries) {
                    Result::Ok(ds) => Result::Ok(pre + ds),
                    Result::Err(e) => Result::Err(e),
                },
            },
        }),
{
    assert(attrs.take(i + 1).drop_last() =~= attrs.take(i));
    assert(attrs.take(i + 1).last() == attrs[i]);
}

/// A failing prefix decides the whole raw-attribute list.
proof fn lemma_parse_args_err_extends(attrs: Seq<RawAttrV>, n: int)
    requires
        0 <= n <= attrs.len(),
        spec_parse_degeneric_args(attrs.take(n)) is Err,
    ensures
        spec_parse_degeneric_args(attrs) == spec_parse_degeneric_args(attrs.take(n)),
    decreases attrs.len(),
{
    if n == attrs.len() {
        assert(attrs.take(n) =~= attrs);
    } else {
        assert(attrs.drop_last().take(n) =~= attrs.take(n));
        lemma_parse_args_err_extends(attrs.drop_last(), n);
    }
}

/// A one-element scope list.
fn scope1(a: AttributeScope) -> (v: Vec<AttributeScope>)
    ensures
        v.deep_view() == seq![a],
{
    let mut v: Vec<AttributeScope> = Vec::new();
    v.push(a);
    proof {
        assert(v.deep_view() =~= seq![a]);
    }
    v
}

/// A two-element scope list.
fn scope2(a: AttributeScope, b: AttributeScope) -> (v: Vec<AttributeScope>)
    ensures
        v.deep_view() == seq![a, b],
{
    let mut v: Vec<AttributeScope> = Vec::new();
    v.push(a);
    v.push(b);
    proof {
        assert(v.deep_view() =~= seq![a, b]);
    }
    v
}

/// The scopes a scoped-attribute key aims at.
fn scopes_of_key(key: &String) -> (r: Option<Vec<AttributeScope>>)
    ensures
        match r {
            Option::Some(v) => spec_scopes_of_key(key@) == Option::Some(v.deep_view()),
            Option::None => spec_scopes_of_key(key@) is None,
        },
{
    if str_eq(key.as_str(), "trait_decl_attr") {
        Option::Some(scope1(AttributeScope::TraitDecl))
    } else if str_eq(key.as_str(), "trait_impl_attr") {
        Option::Some(scope1(AttributeScope::TraitImpl))
    } else if str_eq(key.as_str(), "trait_decl_impl_attr") {
        Option::Some(scope2(AttributeScope::TraitDecl, AttributeScope::TraitImpl))
    } else if str_eq(key.as_str(), "getter_decl_attr") {
        Option::Some(scope1(AttributeScope::GetterDecl))
    } else if str_eq(key.as_str(), "getter_impl_attr") {
        Option::Some(scope1(AttributeScope::GetterImpl))
    } else if str_eq(key.as_str(), "getter_decl_impl_attr") {
        Option::Some(scope2(AttributeScope::GetterDecl, AttributeScope::GetterImpl))
    } else if str_eq(key.as_str(), "mut_getter_decl_attr") {
        Option::Some(scope1(AttributeScope::MutGetterDecl))
    } else if str_eq(key.as_str(), "mut_getter_impl_attr") {
        Option::Some(scope1(AttributeScope::MutGetterImpl))
    } else if str_eq(key.as_str(), "mut_getter_decl_impl_attr") {
        Option::Some(scope2(AttributeScope::MutGetterDecl, AttributeScope::MutGetterImpl))
    } else {
        Option::None
    }
}

/// Parses one entry into a directive, or fails with the failure anchored at
/// the entry's span.
fn parse_entry(e: &MetaEntry) -> (r: Result<DegenericArg, GenError>)
    ensures
        r matches Ok(d) ==> spec_parse_entry(e.deep_view()) == Result::<
            DegenericArgV,
            GenError,
        >::Ok(d.deep_view()),
        r matches Err(err) ==> spec_parse_entry(e.deep_view()) == Result::<
            DegenericArgV,
            GenError,
        >::Err(err),
{
    match e {
        MetaEntry::KeyValue { path, value, path_span, value_span } => {
            if path.len() != 1 {
                return Result::Err(
                    GenError::DirectiveParse {
                        reason: DirectiveParseReason::KeyNotIdent,
                        span: *path_span,
                    },
                );
            }
            let key = &path[0];
            proof {
                assert(e.deep_view()->KeyValue_path[0] == key@);
            }
            if str_eq(key.as_str(), "trait") || str_eq(key.as_str(), "trait_decl") {
                match value {
                    LitValue::StrLit { value: v } => match parse_trait_header(v.as_str()) {
                        Option::Some(decl) => Result::Ok(DegenericArg::TraitDecl(decl)),
                        Option::None => Result::Err(
                            GenError::DirectiveParse {
                                reason: DirectiveParseReason::BadTraitHeader,
                                span: *value_span,
                            },
                        ),
                    },
                    LitValue::OtherLit => Result::Err(
                        GenError::DirectiveParse {
                            reason: DirectiveParseReason::NonStringLiteral,
                            span: *value_span,
                        },
                    ),
                }
            } else {
                match scopes_of_key(key) {
                    Option::Some(scopes) => match value {
                        LitValue::StrLit { value: v } => if exec_attrs_wf(v.as_str()) {
                            Result::Ok(DegenericArg::Attr(Attr(v.clone()), scopes))
                        } else {
                            Result::Err(
                                GenError::DirectiveParse {
                                    reason: DirectiveParseReason::BadAttrFragment,
                                    span: *value_span,
                                },
                            )
                        },
                        LitValue::OtherLit => Result::Err(
                            GenError::DirectiveParse {
                                reason: DirectiveParseReason::NonStringLiteral,
                                span: *value_span,
                            },
                        ),
                    },
                    Option::None => Result::Err(
                        GenError::DirectiveParse {
                            reason: DirectiveParseReason::UnrecognizedKeyValue,
                            span: *path_span,
                        },
                    ),
                }
            }
        },
        MetaEntry::Flag { path, span } => {
            if path.len() != 1 {
                return Result::Err(
                    GenError::DirectiveParse {
                        reason: DirectiveParseReason::KeyNotIdent,
                        span: *span,
                    },
                );
            }
            let key = &path[0];
            proof {
                assert(e.deep_view()->Flag_path[0] == key@);
            }
            if str_eq(key.as_str(), "no_getter") {
                Result::Ok(DegenericArg::NoGetter)
            } else if str_eq(key.as_str(), "preserve") {
                Result::Ok(DegenericArg::PreserveGeneric)
            } else if str_eq(key.as_str(), "dynamize") {
                Result::Ok(DegenericArg::Dynamize)
            } else {
                Result::Err(
                    GenError::DirectiveParse {
                        reason: DirectiveParseReason::UnknownFlag,
                        span: *span,
                    },
                )
            }
        },
        MetaEntry::OtherMeta { span } => Result::Err(
            GenError::DirectiveParse {
                reason: DirectiveParseReason::MalformedEntry,
                span: *span,
            },
        ),
    }
}

/// Parses the raw attributes of a declaration, a field or a type parameter
/// into the directives they carry, in order; fails on the first malformed or
/// unrecognized entry.
pub fn parse_degeneric_args(attrs: &Vec<RawAttr>) -> (r: Result<Vec<DegenericArg>, GenError>)
    ensures
        r matches Ok(v) ==> spec_parse_degeneric_args(attrs.deep_view()) == Result::<
            Seq<DegenericArgV>,
            GenError,
        >::Ok(v.deep_view()),
        r matches Err(e) ==> spec_parse_degeneric_args(attrs.deep_view()) == Result::<
            Seq<DegenericArgV>,
            GenError,
        >::Err(e),
{
    let ghost av = attrs.deep_view();
    let mut out: Vec<DegenericArg> = Vec::new();
    proof {
        assert(av.take(0) =~= Seq::<RawAttrV>::empty());
        assert(out.deep_view() =~= Seq::<DegenericArgV>::empty());
    }
    let mut i: usize = 0;
    while i < attrs.len()
        invariant
            0 <= i <= attrs@.len(),
            av == attrs.deep_view(),
            av.len() == attrs@.len(),
            spec_parse_degeneric_args(av.take(i as int)) == Result::<
                Seq<DegenericArgV>,
                GenError,
            >::Ok(out.deep_view()),
        decreases attrs@.len() - i,
    {
        proof {
            lemma_parse_args_step(av, i as int);
            assert(av[i as int] == attrs@[i as int].deep_view());
        }
        match &attrs[i] {
            RawAttr::Other { .. } => {},
            RawAttr::DegenericMalformed { span } => {
                let err = GenError::DirectiveParse {
                    reason: DirectiveParseReason::MalformedList,
                    span: *span,
                };
                proof {
                    lemma_parse_args_err_extends(av, i as int + 1);
                }
                return Result::Err(err);
            },
            RawAttr::Degeneric { entries, .. } => {
                let ghost ev = entries.deep_view();
                let mut k: usize = 0;
                while k < entries.len()
                    invariant
                        0 <= k <= entries@.len(),
                        ev == entries.deep_view(),
                        ev.len() == entries@.len(),
                        av == attrs.deep_view(),
                        av.len() == attrs@.len(),
                        i < attrs@.len(),
                        av[i as int] == (RawAttrV::Degeneric {
                            entries: ev,
                            span: attrs@[i as int].deep_view()->Degeneric_span,
                        }),
                        spec_parse_degeneric_args(av.take(i as int)) is Ok,
                        spec_parse_entries(ev.take(k as int)) is Ok,
                        out.deep_view() == spec_parse_degeneric_args(
                            av.take(i as int),
                        )->Ok_0 + spec_parse_entries(ev.take(k as int))->Ok_0,
                    decreases entries@.len() - k,
                {
                    proof {
                        lemma_parse_entries_step(ev, k as int);
                        assert(ev[k as int] == entries@[k as int].deep_view());
                    }
                    let ghost pre_out = out.deep_view();
                    match parse_entry(&entries[k]) {
                        Result::Ok(d) => {
                            let ghost dv = d.deep_view();
                            out.push(d);
                            proof {
                                assert(out.deep_view() =~= pre_out.push(dv));
                                assert(spec_parse_entries(ev.take(k as int + 1)) == Result::<
                                    Seq<DegenericArgV>,
                                    GenError,
                                >::Ok(spec_parse_entries(ev.take(k as int))->Ok_0.push(dv)));
                                assert(out.deep_view() =~= spec_parse_degeneric_args(
                                    av.take(i as int),
                                )->Ok_0 + spec_parse_entries(ev.take(k as int + 1))->Ok_0);
                            }
                        },
                        Result::Err(err) => {
                            proof {
                                assert(spec_parse_entries(ev.take(k as int + 1)) == Result::<
                                    Seq<DegenericArgV>,
                                    GenError,
                                >::Err(err));
                                lemma_parse_entries_err_extends(ev, k as int + 1);
                                assert(spec_parse_entries(ev) == Result::<
                                    Seq<DegenericArgV>,
                                    GenError,
                                >::Err(err));
                                lemma_parse_args_step(av, i as int);
                                assert(spec_parse_degeneric_args(av.take(i as int + 1)) == Result::<
                                    Seq<DegenericArgV>,
                                    GenError,
                                >::Err(err));
                                lemma_parse_args_err_extends(av, i as int + 1);
                            }
                            return Result::Err(err);
                        },
                    }
                    k += 1;
                }
                proof {
                    assert(ev.take(entries@.len() as int) =~= ev);
                }
            },
        }
        proof {
            assert(spec_parse_degeneric_args(av.take(i as int + 1)) == Result::<
                Seq<DegenericArgV>,
                GenError,
            >::Ok(out.deep_view()));
        }
        i += 1;
    }
    proof {
        assert(av.take(attrs@.len() as int) =~= av);
    }
    Result::Ok(out)
}

/// The first trait-declaration directive among the parsed directives.
pub open spec fn spec_first_trait_decl(args: Seq<DegenericArgV>) -> Option<TraitDeclV>
    decreases args.len(),
{
    if args.len() == 0 {
        Option::None
    } else {
        match args[0] {
            DegenericArgV::TraitDecl { decl } => Option::Some(decl),
            _ => spec_first_trait_decl(args.drop_first()),
        }
    }
}

/// The attribute fragments aimed at one scope, in order.
pub open spec fn spec_attrs_for_scope(args: Seq<DegenericArgV>, scope: AttributeScope) -> Seq<
    Seq<char>,
>
    decreases args.len(),
{
    if args.len() == 0 {
        Seq::empty()
    } else {
        spec_attrs_for_scope(args.drop_last(), scope) + (match args.last() {
            DegenericArgV::Attr { text, scopes } => if scopes.contains(scope) {
                seq![text]
            } else {
                Seq::empty()
            },
            _ => Seq::empty(),
        })
    }
}

/// One step of `spec_attrs_for_scope` along a prefix.
proof fn lemma_attrs_for_scope_step(args: Seq<DegenericArgV>, scope: AttributeScope, i: int)
    requires
        0 <= i < args.len(),
    ensures
        spec_attrs_for_scope(args.take(i + 1), scope) == spec_attrs_for_scope(args.take(i), scope)
            + (match args[i] {
            DegenericArgV::Attr { text, scopes } => if scopes.contains(scope) {
                seq![text]
            } else {
                Seq::empty()
            },
            _ => Seq::empty(),
        }),
{
    assert(args.take(i + 1).drop_last() =~= args.take(i));
    assert(args.take(i + 1).last() == args[i]);
}

/// Duplicates a parsed trait declaration.
fn clone_trait_decl(td: &TraitDecl) -> (r: TraitDecl)
    ensures
        r.deep_view() == td.deep_view(),
{
    let vis = match &td.vis {
        Visibility::Inherited => Visibility::Inherited,
        Visibility::Public => Visibility::Public,
        Visibility::Restricted { scope } => Visibility::Restricted { scope: scope.clone() },
    };
    TraitDecl { vis, ident: td.ident.clone() }
}

/// Picks the trait-declaration directive out of the parsed directives, or
/// fails: without one, nothing can be generated.
pub fn extract_trait_decl(args: &Vec<DegenericArg>) -> (r: Result<TraitDecl, GenError>)
    ensures
        r matches Ok(td) ==> spec_first_trait_decl(args.deep_view()) == Option::Some(
            td.deep_view(),
        ),
        r is Err ==> spec_first_trait_decl(args.deep_view()) is None && r == Result::<
            TraitDecl,
            GenError,
        >::Err(GenError::MissingRequiredDirective),
{
    let ghost av = args.deep_view();
    proof {
        assert(av.skip(0) =~= av);
    }
    let mut i: usize = 0;
    while i < args.len()
        invariant
            0 <= i <= args@.len(),
            av == args.deep_view(),
            av.len() == args@.len(),
            spec_first_trait_decl(av) == spec_first_trait_decl(av.skip(i as int)),
        decreases args@.len() - i,
    {
        proof {
            assert(av.skip(i as int)[0] == av[i as int]);
            assert(av[i as int] == args@[i as int].deep_view());
            assert(av.skip(i as int).drop_first() =~= av.skip(i as int + 1));
        }
        match &args[i] {
            DegenericArg::TraitDecl(td) => {
                return Result::Ok(clone_trait_decl(td));
            },
            _ => {},
        }
        i += 1;
    }
    proof {
        assert(av.skip(args@.len() as int) =~= Seq::<DegenericArgV>::empty());
    }
    Result::Err(GenError::MissingRequiredDirective)
}

/// Collects the attribute fragments aimed at one scope, in order.
pub fn extract_attrs(args: &Vec<DegenericArg>, scope: AttributeScope) -> (r: Vec<String>)
    ensures
        r.deep_view() == spec_attrs_for_scope(args.deep_view(), scope),
{
    let ghost av = args.deep_view();
    let mut out: Vec<String> = Vec::new();
    proof {
        assert(av.take(0) =~= Seq::<DegenericArgV>::empty());
        assert(out.deep_view() =~= Seq::<Seq<char>>::empty());
    }
    let mut i: usize = 0;
    while i < args.len()
        invariant
            0 <= i <= args@.len(),
            av == args.deep_view(),
            av.len() == args@.len(),
            out.deep_view() == spec_attrs_for_scope(av.take(i as int), scope),
        decreases args@.len() - i,
    {
        proof {
            lemma_attrs_for_scope_step(av, scope, i as int);
            assert(av[i as int] == args@[i as int].deep_view());
        }
        let ghost pre_out = out.deep_view();
        match &args[i] {
            DegenericArg::Attr(a, scopes) => {
                let mut hit = false;
                let mut k: usize = 0;
                while k < scopes.len()
                    invariant
                        0 <= k <= scopes@.len(),
                        hit == exists|m: int| 0 <= m < k && scopes.deep_view()[m] == scope,
                    decreases scopes@.len() - k,
                {
                    if scopes[k] == scope {
                        proof {
                            assert(scopes.deep_view()[k as int] == scope);
                        }
                        hit = true;
                    }
                    k += 1;
                }
                proof {
                    assert(hit == scopes.deep_view().contains(scope));
                }
                if hit {
                    out.push(a.0.clone());
                    proof {
                        assert(out.deep_view() =~= pre_out.push(a.deep_view()));
                        assert(out.deep_view() =~= spec_attrs_for_scope(
                            av.take(i as int + 1),
                            scope,
                        ));
                    }
                }
            },
            _ => {},
        }
        proof {
            assert(out.deep_view() =~= spec_attrs_for_scope(av.take(i as int + 1), scope));
        }
        i += 1;
    }
    proof {
        assert(av.take(args@.len() as int) =~= av);
    }
    out
}

/// Whether the parsed directives carry the preserve marker.
pub open spec fn spec_has_preserve(args: Seq<DegenericArgV>) -> bool {
    exists|i: int| 0 <= i < args.len() && args[i] is PreserveGeneric
}

/// Whether the parsed directives carry the accessor-suppressing marker.
pub open spec fn spec_has_no_getter(args: Seq<DegenericArgV>) -> bool {
    exists|i: int| 0 <= i < args.len() && args[i] is NoGetter
}

/// Whether the parsed directives carry the dynamization marker.
pub open spec fn spec_has_dynamize(args: Seq<DegenericArgV>) -> bool {
    exists|i: int| 0 <= i < args.len() && args[i] is Dynamize
}

/// The directives a type parameter carries.
#[derive(Debug, PartialEq, Eq)]
pub struct DegenericTypeAttrs {
    pub preserve: bool,
}

impl DegenericTypeAttrs {
    /// Reads a type parameter's directives: whether it is marked preserved.
    pub fn from_args(args: &Vec<DegenericArg>) -> (r: DegenericTypeAttrs)
        ensures
            r.preserve == spec_has_preserve(args.deep_view()),
    {
        let ghost av = args.deep_view();
        let mut i: usize = 0;
        while i < args.len()
            invariant
                0 <= i <= args@.len(),
                av == args.deep_view(),
                av.len() == args@.len(),
                forall|m: int| 0 <= m < i ==> !(av[m] is PreserveGeneric),
            decreases args@.len() - i,
        {
            proof {
                assert(av[i as int] == args@[i as int].deep_view());
            }
            match &args[i] {
                DegenericArg::PreserveGeneric => {
                    proof {
                        assert(av[i as int] is PreserveGeneric);
                    }
                    return DegenericTypeAttrs { preserve: true };
                },
                _ => {},
            }
            i += 1;
        }
        DegenericTypeAttrs { preserve: false }
    }
}

/// Whether the parsed directives of a field suppress its accessors.
pub fn has_no_getter(args: &Vec<DegenericArg>) -> (r: bool)
    ensures
        r == spec_has_no_getter(args.deep_view()),
{
    let ghost av = args.deep_view();
    let mut i: usize = 0;
    while i < args.len()
        invariant
            0 <= i <= args@.len(),
            av == args.deep_view(),
            av.len() == args@.len(),
            forall|m: int| 0 <= m < i ==> !(av[m] is NoGetter),
        decreases args@.len() - i,
    {
        proof {
            assert(av[i as int] == args@[i as int].deep_view());
        }
        match &args[i] {
            DegenericArg::NoGetter => {
                proof {
                    assert(av[i as int] is NoGetter);
                }
                return true;
            },
            _ => {},
        }
        i += 1;
    }
    false
}

/// Whether the parsed directives ask for dynamization hooks.
pub fn has_dynamize(args: &Vec<DegenericArg>) -> (r: bool)
    ensures
        r == spec_has_dynamize(args.deep_view()),
{
    let ghost av = args.deep_view();
    let mut i: usize = 0;
    while i < args.len()
        invariant
            0 <= i <= args@.len(),
            av == args.deep_view(),
            av.len() == args@.len(),
            forall|m: int| 0 <= m < i ==> !(av[m] is Dynamize),
        decreases args@.len() - i,
    {
        proof {
            assert(av[i as int] == args@[i as int].deep_view());
        }
        match &args[i] {
            DegenericArg::Dynamize => {
                proof {
                    assert(av[i as int] is Dynamize);
                }
                return true;
            },
            _ => {},
        }
        i += 1;
    }
    false
}

} // verus!
