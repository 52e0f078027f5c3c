//! The declaration being derived and its normalized reflected shape.
use vstd::prelude::*;
use vstd::string::StringExecFns;

use crate::attribute_parser::{
    parse_attribute_list, ReflectImplSource, ReflectProvenance, ReflectTraitToImpl, ReflectTypeKind,
};
use crate::container_attributes::{attrs_merge, ContainerAttributes, ContainerAttributesView};
use crate::error::{in_attribute, ErrorKind, ReflectError};
use crate::field_attributes::{parse_field_list, DefaultBehaviorView, FieldAttrs, FieldAttrsView, IgnoreBehavior};
use crate::serialization::{bitset_contents, denylist_spec, members_to_serialization_denylist};
use crate::tokens::{tokens_view, Token, TokenView};

verus! {

/// The argument form of an attribute on a declaration.
#[derive(Debug)]
pub enum AttrMeta {
    /// `#[name(tokens)]`
    List(String, Vec<Token>),
    /// `#[name]`
    Path(String),
    /// `#[name = token]`
    NameValue(String, Token),
}

/// An attribute with the position it was written at.
#[derive(Debug)]
pub struct Attribute {
    pub meta: AttrMeta,
    pub span: usize,
}

pub enum AttrMetaView {
    List(Seq<char>, Seq<TokenView>),
    Path(Seq<char>),
    NameValue(Seq<char>, TokenView),
}

pub struct AttributeView {
    pub meta: AttrMetaView,
    pub span: usize,
}

impl View for Attribute {
    type V = AttributeView;

    open spec fn view(&self) -> AttributeView {
        AttributeView {
            meta: match &self.meta {
                AttrMeta::List(n, t) => AttrMetaView::List(n@, tokens_view(t@)),
                AttrMeta::Path(n) => AttrMetaView::Path(n@),
                AttrMeta::NameValue(n, t) => AttrMetaView::NameValue(n@, t@),
            },
            span: self.span,
        }
    }
}

pub open spec fn attrs_view(a: Seq<Attribute>) -> Seq<AttributeView> {
    a.map_values(|x: Attribute| x@)
}

/// Whether the type is reflected through its fields or as an opaque value.
#[derive(Clone, Copy, Debug, PartialEq, Eq, Structural)]
pub enum ReflectMode {
    Normal,
    Value,
}

/// What reading a declaration's attributes has gathered so far.
pub struct ScanState {
    pub mode: Option<ReflectMode>,
    pub traits: ContainerAttributesView,
    pub alias: Option<Seq<Seq<char>>>,
    pub docs: Seq<Seq<char>>,
}

pub open spec fn scan_init() -> ScanState {
    ScanState { mode: None, traits: ContainerAttributesView::empty(), alias: None, docs: Seq::empty() }
}

/// What `syn` reads from a text as a path: whether it starts with `::`,
/// and for each segment its identifier and whether it has generic
/// arguments; `None` when the text is not a path.
pub uninterp spec fn syn_path(s: Seq<char>) -> Option<(bool, Seq<(Seq<char>, bool)>)>;

/// Relies on `syn::parse_str::<syn::Path>`: parses the whole text as a
/// path; a path has at least one segment.
#[verifier::external_body]
fn parse_syn_path(s: &str) -> (r: Option<(bool, Vec<(String, bool)>)>)
    ensures
        match r {
            Some((lc, segs)) => syn_path(s@) == Some((lc, segs@.map_values(|x: (String, bool)| (x.0@, x.1))))
                && segs@.len() >= 1,
            None => syn_path(s@) is None,
        },
{
    match syn::parse_str::<syn::Path>(s) {
        Ok(p) => Some(
            (
                p.leading_colon.is_some(),
                p.segments.iter().map(|seg| (seg.ident.to_string(), !seg.arguments.is_none())).collect(),
            ),
        ),
        Err(_) => None,
    }
}

/// The segments of a type path alias: a path without a leading `::` and
/// without generic arguments.
pub open spec fn alias_of(s: Seq<char>) -> Option<Seq<Seq<char>>> {
    match syn_path(s) {
        Some((lc, segs)) => if !lc && forall|k: int| 0 <= k < segs.len() ==> !(#[trigger] segs[k]).1 {
            Some(segs.map_values(|x: (Seq<char>, bool)| x.0))
        } else {
            None
        },
        None => None,
    }
}

/// Reads a type path alias (see [`alias_of`]).
pub fn parse_alias(s: &str) -> (r: Option<Vec<String>>)
    ensures
        match r {
            Some(v) => alias_of(s@) == Some(strings_view(v@)) && v@.len() >= 1,
            None => alias_of(s@) is None,
        },
{
    let (lc, segs) = match parse_syn_path(s) {
        Some(p) => p,
        None => {
            return None;
        },
    };
    let ghost sv = segs@.map_values(|x: (String, bool)| (x.0@, x.1));
    if lc {
        return None;
    }
    let mut out: Vec<String> = Vec::new();
    let mut i: usize = 0;
    while i < segs.len()
        invariant
            i <= segs@.len(),
            sv == segs@.map_values(|x: (String, bool)| (x.0@, x.1)),
            syn_path(s@) == Some((false, sv)),
            out@.len() == i,
            forall|k: int| 0 <= k < i ==> (#[trigger] out@[k])@ == segs@[k].0@ && !segs@[k].1,
        decreases segs@.len() - i,
    {
        if segs[i].1 {
            assert(sv[i as int].1);
            return None;
        }
        let name = segs[i].0.clone();
        let ghost before = out@;
        out.push(name);
        assert forall|k: int| 0 <= k < i + 1 implies (#[trigger] out@[k])@ == segs@[k].0@ && !segs@[k].1 by {
            if k < i {
                assert(out@[k] == before[k]);
            }
        }
        i += 1;
    }
    assert forall|k: int| 0 <= k < sv.len() implies !(#[trigger] sv[k]).1 by {
        assert(out@[k]@ == segs@[k].0@);
        assert(!segs@[k].1);
    }
    assert(strings_view(out@) =~= sv.map_values(|x: (Seq<char>, bool)| x.0));
    Some(out)
}

/// Selecting a reflection mode: a second, different mode is an error.
pub open spec fn select_mode(st: ScanState, m: ReflectMode, span: usize) -> Result<ScanState, ReflectError> {
    if st.mode is Some && st.mode != Some(m) {
        Err(ReflectError { kind: ErrorKind::BothReflectModes, span, attribute: None })
    } else {
        Ok(ScanState { mode: Some(m), ..st })
    }
}

/// Adds the argument list `t` of the attribute at `span`, of the given
/// mode; errors in the list, or in merging it with the earlier lists, are
/// placed in that attribute.
pub open spec fn scan_list(
    st: ScanState,
    m: ReflectMode,
    t: Seq<TokenView>,
    span: usize,
    prov: ReflectProvenance,
) -> Result<ScanState, ReflectError> {
    match select_mode(st, m, span) {
        Err(e) => Err(e),
        Ok(s) => match parse_attribute_list(t, prov) {
            Err(e) => Err(in_attribute(e, span)),
            Ok(new) => match attrs_merge(s.traits, new) {
                Err(e) => Err(in_attribute(e, span)),
                Ok(traits) => Ok(ScanState { traits, ..s }),
            },
        },
    }
}

/// The provenance under which an attribute list of mode `m` is read.
pub open spec fn list_provenance(m: ReflectMode, native: ReflectTypeKind, source: ReflectImplSource, trait_: ReflectTraitToImpl) -> ReflectProvenance {
    ReflectProvenance {
        source,
        trait_,
        type_kind: if m == ReflectMode::Value { ReflectTypeKind::Value } else { native },
    }
}

/// One attribute of the declaration; attributes of other names are skipped.
pub open spec fn scan_step(
    st: ScanState,
    a: AttributeView,
    native: ReflectTypeKind,
    source: ReflectImplSource,
    trait_: ReflectTraitToImpl,
) -> Result<ScanState, ReflectError> {
    match a.meta {
        AttrMetaView::List(n, t) => if n == "reflect"@ {
            scan_list(st, ReflectMode::Normal, t, a.span, list_provenance(ReflectMode::Normal, native, source, trait_))
        } else if n == "reflect_value"@ {
            scan_list(st, ReflectMode::Value, t, a.span, list_provenance(ReflectMode::Value, native, source, trait_))
        } else {
            Ok(st)
        },
        AttrMetaView::Path(n) => if n == "reflect_value"@ {
            select_mode(st, ReflectMode::Value, a.span)
        } else {
            Ok(st)
        },
        AttrMetaView::NameValue(n, v) => if n == "type_path"@ {
            if st.alias is Some {
                Err(ReflectError { kind: ErrorKind::MultipleTypePaths, span: a.span, attribute: None })
            } else {
                match v {
                    TokenView::Str(s) => match alias_of(s) {
                        Some(segs) => Ok(ScanState { alias: Some(segs), ..st }),
                        None => Err(ReflectError { kind: ErrorKind::InvalidTypePath, span: a.span, attribute: None }),
                    },
                    _ => Err(ReflectError { kind: ErrorKind::TypePathNotString, span: a.span, attribute: None }),
                }
            }
        } else if n == "doc"@ {
            match v {
                TokenView::Str(s) => Ok(ScanState { docs: st.docs.push(s), ..st }),
                _ => Ok(st),
            }
        } else {
            Ok(st)
        },
    }
}

/// The first `n` attributes, read in order.
pub open spec fn scan(
    attrs: Seq<AttributeView>,
    n: int,
    native: ReflectTypeKind,
    source: ReflectImplSource,
    trait_: ReflectTraitToImpl,
) -> Result<ScanState, ReflectError>
    decreases n,
{
    if n <= 0 {
        Ok(scan_init())
    } else {
        match scan(attrs, n - 1, native, source, trait_) {
            Err(e) => Err(e),
            Ok(s) => scan_step(s, attrs[n - 1], native, source, trait_),
        }
    }
}

/// Whether the attribute selects the normal mode.
pub open spec fn selects_normal(a: AttributeView) -> bool {
    a.meta matches AttrMetaView::List(n, _) && n == "reflect"@
}

/// Whether the attribute selects the value mode.
pub open spec fn selects_value(a: AttributeView) -> bool {
    (a.meta matches AttrMetaView::List(n, _) && n == "reflect_value"@)
        || (a.meta matches AttrMetaView::Path(n) && n == "reflect_value"@)
}

/// Once an attribute has selected a mode, every later successful state
/// keeps that mode.
pub proof fn lemma_scan_mode(
    attrs: Seq<AttributeView>,
    n: int,
    k: int,
    native: ReflectTypeKind,
    source: ReflectImplSource,
    trait_: ReflectTraitToImpl,
)
    requires
        0 <= k < n <= attrs.len(),
        scan(attrs, n, native, source, trait_) is Ok,
    ensures
        selects_normal(attrs[k]) ==> scan(attrs, n, native, source, trait_).unwrap().mode == Some(ReflectMode::Normal),
        selects_value(attrs[k]) ==> scan(attrs, n, native, source, trait_).unwrap().mode == Some(ReflectMode::Value),
    decreases n,
{
    reveal_strlit("reflect");
    reveal_strlit("reflect_value");
    assert("reflect"@.len() == 7);
    assert("reflect"@ != "reflect_value"@);
    if k < n - 1 {
        lemma_scan_mode(attrs, n - 1, k, native, source, trait_);
    }
}

/// An error reading the first `m` attributes is the error of reading more.
pub proof fn lemma_scan_err_stays(
    attrs: Seq<AttributeView>,
    m: int,
    n: int,
    native: ReflectTypeKind,
    source: ReflectImplSource,
    trait_: ReflectTraitToImpl,
)
    requires
        0 <= m <= n,
        scan(attrs, m, native, source, trait_) is Err,
    ensures
        scan(attrs, n, native, source, trait_) == scan(attrs, m, native, source, trait_),
    decreases n - m,
{
    if m < n {
        lemma_scan_err_stays(attrs, m, n - 1, native, source, trait_);
    }
}

/// A declaration that has both a `#[reflect(...)]` and a `#[reflect_value]`
/// attribute, in either order, is refused.
pub proof fn law_both_modes_fail(
    attrs: Seq<AttributeView>,
    i: int,
    j: int,
    native: ReflectTypeKind,
    source: ReflectImplSource,
    trait_: ReflectTraitToImpl,
)
    requires
        0 <= i < attrs.len(),
        0 <= j < attrs.len(),
        selects_normal(attrs[i]),
        selects_value(attrs[j]),
    ensures
        scan(attrs, attrs.len() as int, native, source, trait_) is Err,
{
    reveal_strlit("reflect");
    reveal_strlit("reflect_value");
    assert("reflect"@.len() == 7);
    assert("reflect"@ != "reflect_value"@);
    assert(i != j);
    let first = if i < j { i } else { j };
    let second = if i < j { j } else { i };
    if scan(attrs, second, native, source, trait_) is Ok {
        lemma_scan_mode(attrs, second, first, native, source, trait_);
        assert(scan(attrs, second + 1, native, source, trait_) is Err);
        lemma_scan_err_stays(attrs, second + 1, attrs.len() as int, native, source, trait_);
    } else {
        lemma_scan_err_stays(attrs, second, attrs.len() as int, native, source, trait_);
    }
}


/// A generic parameter of the declaration.
#[derive(Debug)]
pub enum GenericParam {
    Lifetime(String),
    Type(String),
    /// A const parameter: its name and its type.
    Const(String, String),
}

/// A field as declared.
#[derive(Debug)]
pub struct FieldDecl {
    pub ident: Option<String>,
    pub ty: String,
    pub attrs: Vec<Attribute>,
}

/// How a struct or a variant lists its fields.
#[derive(Clone, Copy, Debug, PartialEq, Eq, Structural)]
pub enum FieldsShape {
    Named,
    Unnamed,
    Unit,
}

/// An enum variant as declared.
#[derive(Debug)]
pub struct VariantDecl {
    pub ident: String,
    pub shape: FieldsShape,
    pub fields: Vec<FieldDecl>,
    pub attrs: Vec<Attribute>,
}

/// The body of a declaration.
#[derive(Debug)]
pub enum DeclData {
    Struct(FieldsShape, Vec<FieldDecl>),
    Enum(Vec<VariantDecl>),
    Union,
}

/// A type declaration with its attributes.
#[derive(Debug)]
pub struct DeriveInput {
    pub ident: String,
    /// The segments of the module that declares the type, crate first.
    pub module: Vec<String>,
    pub generics: Vec<GenericParam>,
    pub attrs: Vec<Attribute>,
    pub data: DeclData,
}

/// The shape the declaration has in the source.
pub open spec fn native_kind(d: &DeclData) -> ReflectTypeKind {
    match d {
        DeclData::Struct(FieldsShape::Named, _) => ReflectTypeKind::Struct,
        DeclData::Struct(FieldsShape::Unnamed, _) => ReflectTypeKind::TupleStruct,
        DeclData::Struct(FieldsShape::Unit, _) => ReflectTypeKind::UnitStruct,
        DeclData::Enum(_) => ReflectTypeKind::Enum,
        DeclData::Union => ReflectTypeKind::Struct,
    }
}

/// The reflection attributes of a field: its `#[reflect(...)]` lists read
/// in order, the first `n` of its attributes.
pub open spec fn field_attrs_of(attrs: Seq<AttributeView>, n: int) -> Result<FieldAttrsView, ReflectError>
    decreases n,
{
    if n <= 0 {
        Ok(FieldAttrsView { ignore: IgnoreBehavior::Active, default: DefaultBehaviorView::Required })
    } else {
        match field_attrs_of(attrs, n - 1) {
            Err(e) => Err(e),
            Ok(st) => match attrs[n - 1].meta {
                AttrMetaView::List(name, t) => if name == "reflect"@ {
                    match parse_field_list(st, t, 0) {
                        Err(e) => Err(in_attribute(e, (n - 1) as usize)),
                        Ok(a) => Ok(a),
                    }
                } else {
                    Ok(st)
                },
                _ => Ok(st),
            },
        }
    }
}

pub proof fn lemma_field_attrs_err_stays(attrs: Seq<AttributeView>, m: int, n: int)
    requires
        0 <= m <= n,
        field_attrs_of(attrs, m) is Err,
    ensures
        field_attrs_of(attrs, n) == field_attrs_of(attrs, m),
    decreases n - m,
{
    if m < n {
        lemma_field_attrs_err_stays(attrs, m, n - 1);
    }
}

pub open spec fn field_result(f: &FieldDecl) -> Result<FieldAttrsView, ReflectError> {
    field_attrs_of(attrs_view(f.attrs@), f.attrs@.len() as int)
}

/// The errors of the first `n` fields, in order.
pub open spec fn field_errors(fs: Seq<FieldDecl>, n: int) -> Seq<ReflectError>
    decreases n,
{
    if n <= 0 {
        Seq::empty()
    } else {
        field_errors(fs, n - 1) + match field_result(&fs[n - 1]) {
            Err(e) => seq![e],
            Ok(_) => Seq::empty(),
        }
    }
}

/// Reads the reflection attributes of one field.
pub fn parse_field_attrs(attrs: &Vec<Attribute>) -> (r: Result<FieldAttrs, ReflectError>)
    ensures
        match field_attrs_of(attrs_view(attrs@), attrs@.len() as int) {
            Ok(s) => r is Ok && r.unwrap()@ == s,
            Err(e) => r == Err::<FieldAttrs, ReflectError>(e),
        },
{
    let ghost v = attrs_view(attrs@);
    let mut st = FieldAttrs::new();
    let mut i: usize = 0;
    while i < attrs.len()
        invariant
            i <= attrs@.len(),
            v == attrs_view(attrs@),
            field_attrs_of(v, i as int) == Ok::<FieldAttrsView, ReflectError>(st@),
        decreases attrs@.len() - i,
    {
        if let AttrMeta::List(name, t) = &attrs[i].meta {
            if *name == String::from_str("reflect") {
                let res = st.parse_list(t);
                if let Err(e) = res {
                    proof {
                        lemma_field_attrs_err_stays(v, i + 1, attrs@.len() as int);
                    }
                    return Err(e.in_attribute(i));
                }
            }
        }
        i += 1;
    }
    Ok(st)
}

/// A field of the reflected type.
#[derive(Debug)]
pub struct StructField {
    pub ident: Option<String>,
    pub ty: String,
    pub attrs: FieldAttrs,
    /// The position of the field in its declaration.
    pub index: usize,
}

impl StructField {
    /// Whether reflection sees the field.
    pub fn is_active(&self) -> (r: bool)
        ensures
            r == (self.attrs.ignore != IgnoreBehavior::IgnoreAlways),
    {
        self.attrs.ignore != IgnoreBehavior::IgnoreAlways
    }
}

pub open spec fn same_ident(a: Option<String>, b: Option<String>) -> bool {
    match (a, b) {
        (Some(x), Some(y)) => x@ == y@,
        (None, None) => true,
        _ => false,
    }
}

/// The fields built from the declared fields: same names and types, their
/// positions, and their reflection attributes.
pub open spec fn fields_built(out: Seq<StructField>, fs: Seq<FieldDecl>) -> bool {
    &&& out.len() == fs.len()
    &&& forall|k: int| 0 <= k < fs.len() ==> {
        &&& (#[trigger] out[k]).index == k
        &&& out[k].ty@ == fs[k].ty@
        &&& same_ident(out[k].ident, fs[k].ident)
        &&& field_result(&fs[k]) == Ok::<FieldAttrsView, ReflectError>(out[k].attrs@)
    }
}

fn copy_ident(a: &Option<String>) -> (r: Option<String>)
    ensures
        same_ident(r, *a),
{
    match a {
        Some(s) => Some(s.clone()),
        None => None,
    }
}

/// Builds the fields, gathering the errors of every malformed field rather
/// than stopping at the first.
pub fn collect_struct_fields(fields: &Vec<FieldDecl>) -> (r: Result<Vec<StructField>, Vec<ReflectError>>)
    ensures
        field_errors(fields@, fields@.len() as int).len() == 0 ==> r is Ok && fields_built(r.unwrap()@, fields@),
        field_errors(fields@, fields@.len() as int).len() > 0 ==> r is Err && r.unwrap_err()@ == field_errors(fields@, fields@.len() as int),
{
    let mut out: Vec<StructField> = Vec::new();
    let mut errors: Vec<ReflectError> = Vec::new();
    let mut i: usize = 0;
    while i < fields.len()
        invariant
            i <= fields@.len(),
            errors@ == field_errors(fields@, i as int),
            errors@.len() == 0 ==> fields_built(out@, fields@.subrange(0, i as int)),
        decreases fields@.len() - i,
    {
        match parse_field_attrs(&fields[i].attrs) {
            Ok(attrs) => {
                if errors.len() == 0 {
                    let f = StructField { ident: copy_ident(&fields[i].ident), ty: fields[i].ty.clone(), attrs, index: i };
                    out.push(f);
                }
            },
            Err(e) => {
                errors.push(e);
            },
        }
        proof {
            if errors@.len() == 0 {
                assert forall|k: int| 0 <= k < i + 1 implies {
                    &&& (#[trigger] out@[k]).index == k
                    &&& out@[k].ty@ == fields@.subrange(0, i + 1)[k].ty@
                    &&& same_ident(out@[k].ident, fields@.subrange(0, i + 1)[k].ident)
                    &&& field_result(&fields@.subrange(0, i + 1)[k]) == Ok::<FieldAttrsView, ReflectError>(out@[k].attrs@)
                } by {
                    assert(fields@.subrange(0, i + 1)[k] == fields@[k]);
                    if k < i {
                        assert(fields@.subrange(0, i as int)[k] == fields@[k]);
                    }
                }
            }
        }
        i += 1;
    }
    assert(fields@.subrange(0, i as int) =~= fields@);
    if errors.len() > 0 {
        Err(errors)
    } else {
        Ok(out)
    }
}


/// Path segments joined by `::`.
pub open spec fn join_path(segs: Seq<Seq<char>>) -> Seq<char>
    decreases segs.len(),
{
    if segs.len() == 0 {
        Seq::empty()
    } else if segs.len() == 1 {
        segs[0]
    } else {
        join_path(segs.drop_last()) + "::"@ + segs.last()
    }
}

pub open spec fn strings_view(v: Seq<String>) -> Seq<Seq<char>> {
    v.map_values(|x: String| x@)
}

/// How the generated code names the type.
#[derive(Debug)]
pub enum PathToType {
    /// A type of the deriving crate: its identifier and the segments of the
    /// module that declares it, crate first.
    Internal { ident: String, module: Vec<String> },
    /// A fully qualified path, by segments.
    External(Vec<String>),
    /// A type without a module (such as `bool`).
    Primitive(String),
    /// The type's identifier with a separately given qualified path.
    AliasedNamed { ty: String, alias: Vec<String> },
    /// The type's identifier with a separately given path without module.
    AliasedAnonymous { ty: String, path: String },
}

/// The segments of the type's full path, if it has a module.
pub open spec fn path_segments(p: &PathToType) -> Option<Seq<Seq<char>>> {
    match p {
        PathToType::Internal { ident, module } => Some(strings_view(module@).push(ident@)),
        PathToType::External(segs) => Some(strings_view(segs@)),
        PathToType::AliasedNamed { alias, .. } => Some(strings_view(alias@)),
        _ => None,
    }
}

pub open spec fn quoted(s: Seq<char>) -> Seq<char> {
    "\""@ + s + "\""@
}

/// An expression for the crate's name, for types that have one.
pub open spec fn crate_name_text(p: &PathToType) -> Option<Seq<char>> {
    match p {
        PathToType::Primitive(_) | PathToType::AliasedAnonymous { .. } => None,
        _ => Some(quoted(path_segments(p).unwrap()[0])),
    }
}

/// An expression for the module's path, for types that have one.
pub open spec fn module_text(p: &PathToType) -> Option<Seq<char>> {
    match p {
        PathToType::Primitive(_) | PathToType::AliasedAnonymous { .. } => None,
        _ => Some(quoted(join_path(path_segments(p).unwrap().drop_last()))),
    }
}

/// The name of the type, which need not be a path to it.
pub open spec fn name_text(p: &PathToType) -> Seq<char> {
    match p {
        PathToType::Primitive(id) => id@,
        PathToType::AliasedAnonymous { ty, .. } => ty@,
        _ => path_segments(p).unwrap().last(),
    }
}

/// An expression for the fully qualified path as a `String`.
pub open spec fn fully_qualified_path_text(p: &PathToType) -> Seq<char> {
    match p {
        PathToType::Primitive(id) => quoted(id@) + ".to_owned()"@,
        PathToType::AliasedAnonymous { path, .. } => quoted(path@) + ".to_owned()"@,
        _ => module_text(p).unwrap() + ".to_owned() + ::core::concat!(\"::\", "@ + quoted(name_text(p)) + ")"@,
    }
}

impl PathToType {
    /// Full paths have at least a name.
    pub open spec fn wf(&self) -> bool {
        path_segments(self) matches Some(segs) ==> segs.len() >= 1
    }

    /// Whether the path is well-formed (see [`PathToType::wf`]).
    pub fn is_well_formed(&self) -> (r: bool)
        ensures
            r == self.wf(),
    {
        match self.segments() {
            Some(v) => v.len() >= 1,
            None => true,
        }
    }

    /// Whether the type has a crate and a module.
    pub fn has_module(&self) -> (r: bool)
        ensures
            r == !(self is Primitive || self is AliasedAnonymous),
    {
        match self {
            PathToType::Primitive(_) | PathToType::AliasedAnonymous { .. } => false,
            _ => true,
        }
    }

    /// The segments of the type's full path, if it has a module.
    pub fn segments(&self) -> (r: Option<Vec<String>>)
        ensures
            match r {
                Some(v) => path_segments(self) == Some(strings_view(v@)),
                None => path_segments(self) is None,
            },
    {
        match self {
            PathToType::Internal { ident, module } => {
                let mut v = copy_strings(module);
                let ghost before = strings_view(v@);
                v.push(ident.clone());
                assert(strings_view(v@) =~= before.push(ident@));
                Some(v)
            },
            PathToType::External(segs) => Some(copy_strings(segs)),
            PathToType::AliasedNamed { alias, .. } => Some(copy_strings(alias)),
            _ => None,
        }
    }

    /// The crate name expression (see [`crate_name_text`]).
    pub fn crate_name(&self) -> (r: Option<String>)
        requires
            self.wf(),
        ensures
            match crate_name_text(self) {
                Some(t) => r is Some && r.unwrap()@ == t,
                None => r is None,
            },
    {
        match self {
            PathToType::Primitive(_) | PathToType::AliasedAnonymous { .. } => None,
            _ => {
                let segs = self.segments().unwrap();
                let mut r = String::from_str("\"");
                r.append(segs[0].as_str());
                r.append("\"");
                Some(r)
            },
        }
    }

    /// The module's path expression (see [`module_text`]).
    pub fn module(&self) -> (r: Option<String>)
        requires
            self.wf(),
        ensures
            match module_text(self) {
                Some(t) => r is Some && r.unwrap()@ == t,
                None => r is None,
            },
    {
        match self {
            PathToType::Primitive(_) | PathToType::AliasedAnonymous { .. } => None,
            _ => {
                let segs = self.segments().unwrap();
                let joined = crate::registration::join_segments(&segs, segs.len() - 1);
                assert(strings_view(segs@).subrange(0, segs@.len() - 1) =~= strings_view(segs@).drop_last());
                let mut r = String::from_str("\"");
                r.append(joined.as_str());
                r.append("\"");
                Some(r)
            },
        }
    }

    /// The name of the type (see [`name_text`]).
    pub fn name(&self) -> (r: String)
        requires
            self.wf(),
        ensures
            r@ == name_text(self),
    {
        match self {
            PathToType::Primitive(id) => id.clone(),
            PathToType::AliasedAnonymous { ty, .. } => ty.clone(),
            _ => {
                let segs = self.segments().unwrap();
                segs[segs.len() - 1].clone()
            },
        }
    }

    /// The fully qualified path expression (see [`fully_qualified_path_text`]).
    pub fn fully_qualified_path(&self) -> (r: String)
        requires
            self.wf(),
        ensures
            r@ == fully_qualified_path_text(self),
    {
        match self {
            PathToType::Primitive(id) => {
                let mut r = String::from_str("\"");
                r.append(id.as_str());
                r.append("\"");
                r.append(".to_owned()");
                r
            },
            PathToType::AliasedAnonymous { path, .. } => {
                let mut r = String::from_str("\"");
                r.append(path.as_str());
                r.append("\"");
                r.append(".to_owned()");
                r
            },
            _ => {
                let mut r = self.module().unwrap();
                r.append(".to_owned() + ::core::concat!(\"::\", ");
                r.append("\"");
                r.append(self.name().as_str());
                r.append("\"");
                r.append(")");
                r
            },
        }
    }
}

/// What the declaration's attributes say about the whole type.
#[derive(Debug)]
pub struct ReflectMeta {
    pub traits: ContainerAttributes,
    pub path_to_type: PathToType,
    pub generics: Vec<GenericParam>,
    pub bevy_reflect_path: String,
    pub docs: Vec<String>,
}

/// A struct, tuple struct or unit struct, reflected through its fields.
#[derive(Debug)]
pub struct ReflectStruct {
    pub meta: ReflectMeta,
    pub serialization_denylist: bit_set::BitSet<u32>,
    pub fields: Vec<StructField>,
}

/// How a variant lists its fields.
#[derive(Debug)]
pub enum EnumVariantFields {
    Named(Vec<StructField>),
    Unnamed(Vec<StructField>),
    Unit,
}

/// A variant of a reflected enum.
#[derive(Debug)]
pub struct EnumVariant {
    pub ident: String,
    pub fields: EnumVariantFields,
    pub attrs: FieldAttrs,
    pub index: usize,
}

/// An enum, reflected through its variants.
#[derive(Debug)]
pub struct ReflectEnum {
    pub meta: ReflectMeta,
    pub variants: Vec<EnumVariant>,
}

/// The reflected shape of a declaration.
#[derive(Debug)]
pub enum ReflectDerive {
    Struct(ReflectStruct),
    TupleStruct(ReflectStruct),
    UnitStruct(ReflectStruct),
    Enum(ReflectEnum),
    Value(ReflectMeta),
}

/// The fields among `fs` that reflection sees (`active`) or ignores.
pub open spec fn select_fields(fs: Seq<StructField>, active: bool) -> Seq<StructField> {
    fs.filter(|f: StructField| (f.attrs.ignore != IgnoreBehavior::IgnoreAlways) == active)
}

/// The fields among `fs` that reflection sees (`active`) or ignores, in
/// order, by reference.
pub fn select_field_refs(fs: &[StructField], active: bool) -> (r: Vec<&StructField>)
    ensures
        r@.map_values(|f: &StructField| *f) == select_fields(fs@, active),
{
    let mut r: Vec<&StructField> = Vec::new();
    let mut i: usize = 0;
    while i < fs.len()
        invariant
            i <= fs@.len(),
            r@.map_values(|f: &StructField| *f) == select_fields(fs@.subrange(0, i as int), active),
        decreases fs@.len() - i,
    {
        let ghost before = r@.map_values(|f: &StructField| *f);
        if (fs[i].attrs.ignore != IgnoreBehavior::IgnoreAlways) == active {
            r.push(&fs[i]);
        }
        proof {
            let p = fs@.subrange(0, i + 1);
            assert(p.drop_last() =~= fs@.subrange(0, i as int));
            reveal(Seq::filter);
            assert(r@.map_values(|f: &StructField| *f) =~= select_fields(p, active));
        }
        i += 1;
    }
    assert(fs@.subrange(0, i as int) =~= fs@);
    r
}

/// The types of the fields reflection sees.
pub open spec fn active_type_views(fs: Seq<StructField>) -> Seq<Seq<char>> {
    select_fields(fs, true).map_values(|f: StructField| f.ty@)
}

/// The types of the fields reflection sees in all variants.
pub open spec fn enum_type_views(vs: Seq<EnumVariant>) -> Seq<Seq<char>> {
    enum_fields(vs, vs.len() as int, true).map_values(|f: StructField| f.ty@)
}

/// `path` followed by `::` and `name`.
fn path_item(path: &String, name: &str) -> (r: String)
    ensures
        r@ == path@ + "::"@ + name@,
{
    let mut r = path.clone();
    r.append("::");
    r.append(name);
    r
}

/// The types of the given fields, in order.
pub fn types_of(fs: &Vec<&StructField>) -> (r: Vec<String>)
    ensures
        r@.len() == fs@.len(),
        forall|k: int| 0 <= k < fs@.len() ==> (#[trigger] r@[k])@ == fs@[k].ty@,
{
    let mut r: Vec<String> = Vec::new();
    let mut i: usize = 0;
    while i < fs.len()
        invariant
            i <= fs@.len(),
            r@.len() == i,
            forall|k: int| 0 <= k < i ==> (#[trigger] r@[k])@ == fs@[k].ty@,
        decreases fs@.len() - i,
    {
        r.push(fs[i].ty.clone());
        i += 1;
    }
    r
}

impl ReflectMeta {
    /// The metadata of a type named by `path_to_type`, with its generics and
    /// registered traits, for code that reaches the runtime crate at
    /// `::bevy_reflect`, without docs.
    pub fn new(path_to_type: PathToType, generics: Vec<GenericParam>, traits: ContainerAttributes) -> (r: ReflectMeta)
        ensures
            r.path_to_type == path_to_type,
            r.generics == generics,
            r.traits == traits,
            r.bevy_reflect_path@ == "::bevy_reflect"@,
            r.docs@.len() == 0,
    {
        ReflectMeta { traits, path_to_type, generics, bevy_reflect_path: String::from_str("::bevy_reflect"), docs: Vec::new() }
    }

    /// The same metadata with the given docs.
    pub fn with_docs(self, docs: Vec<String>) -> (r: ReflectMeta)
        ensures
            r.docs == docs,
            r.traits == self.traits,
            r.path_to_type == self.path_to_type,
            r.generics == self.generics,
            r.bevy_reflect_path == self.bevy_reflect_path,
    {
        ReflectMeta { docs, ..self }
    }

    /// The registered traits.
    pub fn traits(&self) -> (r: &ContainerAttributes)
        ensures
            r == &self.traits,
    {
        &self.traits
    }

    /// How the generated code names the type.
    pub fn path_to_type(&self) -> (r: &PathToType)
        ensures
            r == &self.path_to_type,
    {
        &self.path_to_type
    }

    /// The generic parameters.
    pub fn generics(&self) -> (r: &Vec<GenericParam>)
        ensures
            r == &self.generics,
    {
        &self.generics
    }

    /// The path of the runtime crate in generated code.
    pub fn bevy_reflect_path(&self) -> (r: &String)
        ensures
            r == &self.bevy_reflect_path,
    {
        &self.bevy_reflect_path
    }

    /// The where clause of a value type's impls, which have no fields.
    pub fn where_clause_options(&self) -> (r: String)
        ensures
            r@ == crate::registration::where_clause_text(self, Seq::empty(), Seq::empty()),
    {
        let none: Vec<String> = Vec::new();
        assert(strings_view(none@) =~= Seq::<Seq<char>>::empty());
        crate::registration::where_clause(self, &none, "")
    }

    /// The docs of the type.
    pub fn doc(&self) -> (r: &Vec<String>)
        ensures
            r == &self.docs,
    {
        &self.docs
    }
}

impl ReflectStruct {
    /// The where clause of the reflection impls: active field types are
    /// `Reflect`.
    pub fn where_clause_options(&self) -> (r: String)
        ensures
            r@ == crate::registration::where_clause_text(
                &self.meta,
                active_type_views(self.fields@),
                self.meta.bevy_reflect_path@ + "::"@ + "Reflect"@,
            ),
    {
        let types = self.active_types();
        assert(strings_view(types@) =~= active_type_views(self.fields@));
        let bound = path_item(&self.meta.bevy_reflect_path, "Reflect");
        crate::registration::where_clause(&self.meta, &types, bound.as_str())
    }

    /// The where clause of the `FromReflect` impl: active field types are
    /// `FromReflect`.
    pub fn from_reflect_where_clause(&self) -> (r: String)
        ensures
            r@ == crate::registration::where_clause_text(
                &self.meta,
                active_type_views(self.fields@),
                self.meta.bevy_reflect_path@ + "::"@ + "FromReflect"@,
            ),
    {
        let types = self.active_types();
        assert(strings_view(types@) =~= active_type_views(self.fields@));
        let bound = path_item(&self.meta.bevy_reflect_path, "FromReflect");
        crate::registration::where_clause(&self.meta, &types, bound.as_str())
    }

    pub fn meta(&self) -> (r: &ReflectMeta)
        ensures
            r == &self.meta,
    {
        &self.meta
    }

    /// The serialization positions that are skipped.
    pub fn serialization_denylist(&self) -> (r: &bit_set::BitSet<u32>)
        ensures
            r == &self.serialization_denylist,
    {
        &self.serialization_denylist
    }

    /// All fields, in order.
    pub fn fields(&self) -> (r: &[StructField])
        ensures
            r@ == self.fields@,
    {
        self.fields.as_slice()
    }

    /// The fields reflection sees, in order.
    pub fn active_fields(&self) -> (r: Vec<&StructField>)
        ensures
            r@.map_values(|f: &StructField| *f) == select_fields(self.fields@, true),
    {
        select_field_refs(self.fields.as_slice(), true)
    }

    /// The fields reflection ignores, in order.
    pub fn ignored_fields(&self) -> (r: Vec<&StructField>)
        ensures
            r@.map_values(|f: &StructField| *f) == select_fields(self.fields@, false),
    {
        select_field_refs(self.fields.as_slice(), false)
    }

    /// The types of the fields reflection sees.
    pub fn active_types(&self) -> (r: Vec<String>)
        ensures
            r@.len() == select_fields(self.fields@, true).len(),
            forall|k: int| 0 <= k < r@.len() ==> (#[trigger] r@[k])@ == select_fields(self.fields@, true)[k].ty@,
    {
        let f = self.active_fields();
        proof {
            assert forall|k: int| 0 <= k < f@.len() implies f@[k] == select_fields(self.fields@, true)[k] by {
                assert(f@.map_values(|f: &StructField| *f)[k] == *f@[k]);
            }
        }
        types_of(&f)
    }

    /// The types of the fields reflection ignores.
    pub fn ignored_types(&self) -> (r: Vec<String>)
        ensures
            r@.len() == select_fields(self.fields@, false).len(),
            forall|k: int| 0 <= k < r@.len() ==> (#[trigger] r@[k])@ == select_fields(self.fields@, false)[k].ty@,
    {
        let f = self.ignored_fields();
        proof {
            assert forall|k: int| 0 <= k < f@.len() implies f@[k] == select_fields(self.fields@, false)[k] by {
                assert(f@.map_values(|f: &StructField| *f)[k] == *f@[k]);
            }
        }
        types_of(&f)
    }

    /// The `GetTypeRegistration` impl, listing the skipped serialization
    /// positions in increasing order.
    pub fn get_type_registration(&self) -> (r: String)
        ensures
            exists|skipped: Seq<usize>| {
                &&& (forall|i: int, j: int| 0 <= i < j < skipped.len() ==> skipped[i] < skipped[j])
                &&& (forall|n: nat| bitset_contents(self.serialization_denylist).contains(n) <==> exists|i: int| 0 <= i < skipped.len() && skipped[i] as nat == n)
                &&& r@ == crate::registration::registration_text(
                    self.meta.bevy_reflect_path@,
                    crate::registration::impl_generics_text(self.meta.generics@),
                    crate::registration::type_tokens_text(&self.meta.path_to_type),
                    crate::registration::ty_generics_text(self.meta.generics@),
                    crate::registration::where_clause_text(
                        &self.meta,
                        active_type_views(self.fields@),
                        self.meta.bevy_reflect_path@ + "::"@ + "Reflect"@,
                    ),
                    skipped,
                    crate::registration::marker_names(crate::container_attributes::markers_view(self.meta.traits.idents@)),
                )
            },
    {
        let skipped = crate::serialization::denylist_indices(&self.serialization_denylist);
        let w = self.where_clause_options();
        crate::registration::impl_get_type_registration(&self.meta, w.as_str(), &skipped)
    }
}

/// The fields of a variant.
pub open spec fn variant_fields(v: &EnumVariant) -> Seq<StructField> {
    match &v.fields {
        EnumVariantFields::Named(f) => f@,
        EnumVariantFields::Unnamed(f) => f@,
        EnumVariantFields::Unit => Seq::empty(),
    }
}

/// The fields of the first `n` variants that reflection sees (`active`) or
/// ignores, variant by variant.
pub open spec fn enum_fields(vs: Seq<EnumVariant>, n: int, active: bool) -> Seq<StructField>
    decreases n,
{
    if n <= 0 {
        Seq::empty()
    } else {
        enum_fields(vs, n - 1, active) + select_fields(variant_fields(&vs[n - 1]), active)
    }
}

impl ReflectEnum {
    /// The fields of all variants that reflection sees (`active`) or
    /// ignores, variant by variant.
    pub fn select_fields(&self, active: bool) -> (r: Vec<&StructField>)
        ensures
            r@.map_values(|f: &StructField| *f) == enum_fields(self.variants@, self.variants@.len() as int, active),
    {
        let mut r: Vec<&StructField> = Vec::new();
        let mut i: usize = 0;
        while i < self.variants.len()
            invariant
                i <= self.variants@.len(),
                r@.map_values(|f: &StructField| *f) == enum_fields(self.variants@, i as int, active),
            decreases self.variants@.len() - i,
        {
            let fs = self.variants[i].fields();
            proof {
                if self.variants@[i as int].fields is Unit {
                    assert(fs@ =~= variant_fields(&self.variants@[i as int]));
                }
            }
            let mut part = select_field_refs(fs, active);
            let ghost before = r@;
            let ghost p = part@;
            r.append(&mut part);
            assert(r@.map_values(|f: &StructField| *f) =~= before.map_values(|f: &StructField| *f) + p.map_values(|f: &StructField| *f));
            i += 1;
        }
        r
    }

    /// The fields of all variants that reflection sees.
    pub fn active_fields(&self) -> (r: Vec<&StructField>)
        ensures
            r@.map_values(|f: &StructField| *f) == enum_fields(self.variants@, self.variants@.len() as int, true),
    {
        self.select_fields(true)
    }

    /// The fields of all variants that reflection ignores.
    pub fn ignored_fields(&self) -> (r: Vec<&StructField>)
        ensures
            r@.map_values(|f: &StructField| *f) == enum_fields(self.variants@, self.variants@.len() as int, false),
    {
        self.select_fields(false)
    }

    /// The types of the fields of all variants that reflection sees.
    pub fn active_types(&self) -> (r: Vec<String>)
        ensures
            r@.len() == enum_fields(self.variants@, self.variants@.len() as int, true).len(),
            forall|k: int| 0 <= k < r@.len() ==> (#[trigger] r@[k])@ == enum_fields(self.variants@, self.variants@.len() as int, true)[k].ty@,
    {
        let f = self.active_fields();
        proof {
            assert forall|k: int| 0 <= k < f@.len() implies f@[k] == enum_fields(self.variants@, self.variants@.len() as int, true)[k] by {
                assert(f@.map_values(|f: &StructField| *f)[k] == *f@[k]);
            }
        }
        types_of(&f)
    }

    /// The types of the fields of all variants that reflection ignores.
    pub fn ignored_types(&self) -> (r: Vec<String>)
        ensures
            r@.len() == enum_fields(self.variants@, self.variants@.len() as int, false).len(),
            forall|k: int| 0 <= k < r@.len() ==> (#[trigger] r@[k])@ == enum_fields(self.variants@, self.variants@.len() as int, false)[k].ty@,
    {
        let f = self.ignored_fields();
        proof {
            assert forall|k: int| 0 <= k < f@.len() implies f@[k] == enum_fields(self.variants@, self.variants@.len() as int, false)[k] by {
                assert(f@.map_values(|f: &StructField| *f)[k] == *f@[k]);
            }
        }
        types_of(&f)
    }

    pub fn meta(&self) -> (r: &ReflectMeta)
        ensures
            r == &self.meta,
    {
        &self.meta
    }

    /// The where clause of the enum's impls: active field types of all
    /// variants are `FromReflect`.
    pub fn where_clause_options(&self) -> (r: String)
        ensures
            r@ == crate::registration::where_clause_text(
                &self.meta,
                enum_type_views(self.variants@),
                self.meta.bevy_reflect_path@ + "::"@ + "FromReflect"@,
            ),
    {
        let types = self.active_types();
        assert(strings_view(types@) =~= enum_type_views(self.variants@));
        let bound = path_item(&self.meta.bevy_reflect_path, "FromReflect");
        crate::registration::where_clause(&self.meta, &types, bound.as_str())
    }

    /// The variants, in order.
    pub fn variants(&self) -> (r: &[EnumVariant])
        ensures
            r@ == self.variants@,
    {
        self.variants.as_slice()
    }

    /// The unit variant `variant` of the enum, as the generated code names it.
    pub fn get_unit(&self, variant: &str) -> (r: String)
        ensures
            r@ == crate::registration::type_tokens_text(&self.meta.path_to_type) + "::"@ + variant@,
    {
        let mut r = crate::registration::type_tokens(&self.meta.path_to_type);
        r.append("::");
        r.append(variant);
        r
    }
}

impl EnumVariant {
    /// The fields of the variant that reflection sees, in order.
    pub fn active_fields(&self) -> (r: Vec<&StructField>)
        ensures
            match &self.fields {
                EnumVariantFields::Named(f) => r@.map_values(|x: &StructField| *x) == select_fields(f@, true),
                EnumVariantFields::Unnamed(f) => r@.map_values(|x: &StructField| *x) == select_fields(f@, true),
                EnumVariantFields::Unit => r@.len() == 0,
            },
    {
        let r = select_field_refs(self.fields(), true);
        proof {
            if self.fields is Unit {
                reveal(Seq::filter);
                assert(r@.map_values(|x: &StructField| *x).len() == 0);
            }
        }
        r
    }

    /// The fields of the variant that reflection ignores, in order.
    pub fn ignored_fields(&self) -> (r: Vec<&StructField>)
        ensures
            match &self.fields {
                EnumVariantFields::Named(f) => r@.map_values(|x: &StructField| *x) == select_fields(f@, false),
                EnumVariantFields::Unnamed(f) => r@.map_values(|x: &StructField| *x) == select_fields(f@, false),
                EnumVariantFields::Unit => r@.len() == 0,
            },
    {
        let r = select_field_refs(self.fields(), false);
        proof {
            if self.fields is Unit {
                reveal(Seq::filter);
                assert(r@.map_values(|x: &StructField| *x).len() == 0);
            }
        }
        r
    }
}

impl EnumVariant {
    /// The fields of the variant (none for a unit variant).
    pub fn fields(&self) -> (r: &[StructField])
        ensures
            match &self.fields {
                EnumVariantFields::Named(f) => r@ == f@,
                EnumVariantFields::Unnamed(f) => r@ == f@,
                EnumVariantFields::Unit => r@.len() == 0,
            },
    {
        match &self.fields {
            EnumVariantFields::Named(f) => f.as_slice(),
            EnumVariantFields::Unnamed(f) => f.as_slice(),
            EnumVariantFields::Unit => &[],
        }
    }
}


pub open spec fn variant_result(v: &VariantDecl) -> Result<FieldAttrsView, Seq<ReflectError>> {
    if field_errors(v.fields@, v.fields@.len() as int).len() > 0 {
        Err(field_errors(v.fields@, v.fields@.len() as int))
    } else {
        match field_attrs_of(attrs_view(v.attrs@), v.attrs@.len() as int) {
            Err(e) => Err(seq![e]),
            Ok(a) => Ok(a),
        }
    }
}

/// The errors of the first `n` variants, in order.
pub open spec fn variant_errors(vs: Seq<VariantDecl>, n: int) -> Seq<ReflectError>
    decreases n,
{
    if n <= 0 {
        Seq::empty()
    } else {
        variant_errors(vs, n - 1) + match variant_result(&vs[n - 1]) {
            Err(e) => e,
            Ok(_) => Seq::empty(),
        }
    }
}

pub open spec fn variant_built(out: &EnumVariant, v: &VariantDecl, k: int) -> bool {
    &&& out.index == k
    &&& out.ident@ == v.ident@
    &&& variant_result(v) == Ok::<FieldAttrsView, Seq<ReflectError>>(out.attrs@)
    &&& match (v.shape, &out.fields) {
        (FieldsShape::Named, EnumVariantFields::Named(f)) => fields_built(f@, v.fields@),
        (FieldsShape::Unnamed, EnumVariantFields::Unnamed(f)) => fields_built(f@, v.fields@),
        (FieldsShape::Unit, EnumVariantFields::Unit) => true,
        _ => false,
    }
}

pub open spec fn variants_built(out: Seq<EnumVariant>, vs: Seq<VariantDecl>) -> bool {
    out.len() == vs.len() && forall|k: int| 0 <= k < vs.len() ==> variant_built(&(#[trigger] out[k]), &vs[k], k)
}

/// Builds one variant, or the errors of its fields, or of its attributes.
pub fn collect_variant(v: &VariantDecl, index: usize) -> (r: Result<EnumVariant, Vec<ReflectError>>)
    ensures
        match variant_result(v) {
            Ok(_) => r is Ok && variant_built(&r.unwrap(), v, index as int),
            Err(e) => r is Err && r.unwrap_err()@ == e,
        },
{
    let fields = collect_struct_fields(&v.fields)?;
    let attrs = match parse_field_attrs(&v.attrs) {
        Ok(a) => a,
        Err(e) => {
            return Err(single_error(e));
        },
    };
    let fields = match v.shape {
        FieldsShape::Named => EnumVariantFields::Named(fields),
        FieldsShape::Unnamed => EnumVariantFields::Unnamed(fields),
        FieldsShape::Unit => EnumVariantFields::Unit,
    };
    Ok(EnumVariant { ident: v.ident.clone(), fields, attrs, index })
}

/// Builds the variants, gathering the errors of every malformed variant.
pub fn collect_enum_variants(variants: &Vec<VariantDecl>) -> (r: Result<Vec<EnumVariant>, Vec<ReflectError>>)
    ensures
        variant_errors(variants@, variants@.len() as int).len() == 0 ==> r is Ok && variants_built(r.unwrap()@, variants@),
        variant_errors(variants@, variants@.len() as int).len() > 0 ==> r is Err && r.unwrap_err()@ == variant_errors(variants@, variants@.len() as int),
{
    let mut out: Vec<EnumVariant> = Vec::new();
    let mut errors: Vec<ReflectError> = Vec::new();
    let mut i: usize = 0;
    while i < variants.len()
        invariant
            i <= variants@.len(),
            errors@ == variant_errors(variants@, i as int),
            errors@.len() == 0 ==> out@.len() == i && forall|k: int| 0 <= k < i ==> variant_built(&(#[trigger] out@[k]), &variants@[k], k),
        decreases variants@.len() - i,
    {
        match collect_variant(&variants[i], i) {
            Ok(v) => {
                if errors.len() == 0 {
                    out.push(v);
                }
            },
            Err(mut e) => {
                errors.append(&mut e);
            },
        }
        i += 1;
    }
    if errors.len() > 0 {
        Err(errors)
    } else {
        Ok(out)
    }
}


pub open spec fn strings_opt_view(a: Option<Vec<String>>) -> Option<Seq<Seq<char>>> {
    match a {
        Some(s) => Some(strings_view(s@)),
        None => None,
    }
}

/// The metadata built from the declaration and what its attributes gave.
pub open spec fn meta_built(m: &ReflectMeta, input: &DeriveInput, st: ScanState) -> bool {
    &&& m.traits@ == st.traits
    &&& strings_view(m.docs@) == st.docs
    &&& m.generics@.len() == input.generics@.len()
    &&& forall|k: int| 0 <= k < input.generics@.len() ==> same_param(&(#[trigger] m.generics@[k]), &input.generics@[k])
    &&& m.bevy_reflect_path@ == "::bevy_reflect"@
    &&& match st.alias {
        Some(a) => m.path_to_type matches PathToType::AliasedNamed { ty, alias } && ty@ == input.ident@
            && strings_view(alias@) == a && alias@.len() >= 1,
        None => m.path_to_type matches PathToType::Internal { ident, module } && ident@ == input.ident@
            && strings_view(module@) == strings_view(input.module@),
    }
}

/// The result of reading the declaration once its attributes were read
/// without error.
pub open spec fn derive_built(r: Result<ReflectDerive, Vec<ReflectError>>, input: &DeriveInput, st: ScanState) -> bool {
    if st.mode == Some(ReflectMode::Value) {
        r matches Ok(ReflectDerive::Value(m)) && meta_built(&m, input, st)
    } else {
        match &input.data {
            DeclData::Union => r is Err && r.unwrap_err()@ == seq![ReflectError { kind: ErrorKind::UnionNotSupported, span: 0, attribute: None }],
            DeclData::Struct(shape, fs) => if field_errors(fs@, fs@.len() as int).len() > 0 {
                r is Err && r.unwrap_err()@ == field_errors(fs@, fs@.len() as int)
            } else {
                r is Ok && match r.unwrap() {
                    ReflectDerive::Struct(s) => *shape == FieldsShape::Named && struct_built(&s, fs@, input, st),
                    ReflectDerive::TupleStruct(s) => *shape == FieldsShape::Unnamed && struct_built(&s, fs@, input, st),
                    ReflectDerive::UnitStruct(s) => *shape == FieldsShape::Unit && struct_built(&s, fs@, input, st),
                    _ => false,
                }
            },
            DeclData::Enum(vs) => if variant_errors(vs@, vs@.len() as int).len() > 0 {
                r is Err && r.unwrap_err()@ == variant_errors(vs@, vs@.len() as int)
            } else {
                r matches Ok(ReflectDerive::Enum(e)) && meta_built(&e.meta, input, st) && variants_built(e.variants@, vs@)
            },
        }
    }
}

pub open spec fn struct_built(s: &ReflectStruct, fs: Seq<FieldDecl>, input: &DeriveInput, st: ScanState) -> bool {
    &&& meta_built(&s.meta, input, st)
    &&& fields_built(s.fields@, fs)
    &&& bitset_contents(s.serialization_denylist) == denylist_spec(
        s.fields@.map_values(|f: StructField| f.attrs.ignore),
    ).0
}

fn single_error(e: ReflectError) -> (r: Vec<ReflectError>)
    ensures
        r@ == seq![e],
{
    let mut r: Vec<ReflectError> = Vec::new();
    r.push(e);
    assert(r@ =~= seq![e]);
    r
}

fn copy_strings(v: &Vec<String>) -> (r: Vec<String>)
    ensures
        strings_view(r@) == strings_view(v@),
{
    let mut r: Vec<String> = Vec::new();
    let mut i: usize = 0;
    while i < v.len()
        invariant
            i <= v@.len(),
            r@.len() == i,
            forall|j: int| 0 <= j < i ==> (#[trigger] r@[j])@ == v@[j]@,
        decreases v@.len() - i,
    {
        r.push(v[i].clone());
        i += 1;
    }
    assert(strings_view(r@) =~= strings_view(v@));
    r
}

/// Two generic parameters of the same kind, with the same texts.
pub open spec fn same_param(a: &GenericParam, b: &GenericParam) -> bool {
    match (a, b) {
        (GenericParam::Lifetime(x), GenericParam::Lifetime(y)) => x@ == y@,
        (GenericParam::Type(x), GenericParam::Type(y)) => x@ == y@,
        (GenericParam::Const(x, t), GenericParam::Const(y, u)) => x@ == y@ && t@ == u@,
        _ => false,
    }
}

fn copy_generics(g: &Vec<GenericParam>) -> (r: Vec<GenericParam>)
    ensures
        r@.len() == g@.len(),
        forall|k: int| 0 <= k < g@.len() ==> same_param(&(#[trigger] r@[k]), &g@[k]),
{
    let mut r: Vec<GenericParam> = Vec::new();
    let mut i: usize = 0;
    while i < g.len()
        invariant
            i <= g@.len(),
            r@.len() == i,
            forall|k: int| 0 <= k < i ==> same_param(&(#[trigger] r@[k]), &g@[k]),
        decreases g@.len() - i,
    {
        let p = match &g[i] {
            GenericParam::Lifetime(a) => GenericParam::Lifetime(a.clone()),
            GenericParam::Type(a) => GenericParam::Type(a.clone()),
            GenericParam::Const(a, b) => GenericParam::Const(a.clone(), b.clone()),
        };
        r.push(p);
        i += 1;
    }
    r
}

fn ignore_behaviors(fields: &Vec<StructField>) -> (r: Vec<IgnoreBehavior>)
    ensures
        r@ == fields@.map_values(|f: StructField| f.attrs.ignore),
{
    let mut r: Vec<IgnoreBehavior> = Vec::new();
    let mut i: usize = 0;
    while i < fields.len()
        invariant
            i <= fields@.len(),
            r@ == fields@.subrange(0, i as int).map_values(|f: StructField| f.attrs.ignore),
        decreases fields@.len() - i,
    {
        r.push(fields[i].attrs.ignore);
        i += 1;
        assert(r@ =~= fields@.subrange(0, i as int).map_values(|f: StructField| f.attrs.ignore));
    }
    assert(fields@.subrange(0, i as int) =~= fields@);
    r
}

impl ReflectDerive {
    /// Reads a declaration: its `#[reflect(...)]`, `#[reflect_value(...)]`,
    /// `#[type_path = "..."]` and doc attributes in order, then its fields or
    /// variants, according to the mode selected. Errors of single fields or
    /// variants are all gathered; any other error is reported alone.
    pub fn from_input(input: &DeriveInput, source: ReflectImplSource, trait_: ReflectTraitToImpl) -> (r: Result<
        ReflectDerive,
        Vec<ReflectError>,
    >)
        ensures
            match scan(attrs_view(input.attrs@), input.attrs@.len() as int, native_kind(&input.data), source, trait_) {
                Err(e) => r is Err && r.unwrap_err()@ == seq![e],
                Ok(st) => derive_built(r, input, st),
            },
    {
        let ghost v = attrs_view(input.attrs@);
        let ghost native = native_kind(&input.data);
        let native_exec = match &input.data {
            DeclData::Struct(FieldsShape::Named, _) => ReflectTypeKind::Struct,
            DeclData::Struct(FieldsShape::Unnamed, _) => ReflectTypeKind::TupleStruct,
            DeclData::Struct(FieldsShape::Unit, _) => ReflectTypeKind::UnitStruct,
            DeclData::Enum(_) => ReflectTypeKind::Enum,
            DeclData::Union => ReflectTypeKind::Struct,
        };
        let mut mode: Option<ReflectMode> = None;
        let mut traits = ContainerAttributes::new();
        let mut alias: Option<Vec<String>> = None;
        let mut docs: Vec<String> = Vec::new();
        let mut i: usize = 0;
        assert(strings_view(docs@) =~= Seq::<Seq<char>>::empty());
        while i < input.attrs.len()
            invariant
                i <= input.attrs@.len(),
                v == attrs_view(input.attrs@),
                alias matches Some(a) ==> a@.len() >= 1,
                native == native_exec,
                native == native_kind(&input.data),
                traits@.wf(),
                scan(v, i as int, native, source, trait_) == Ok::<ScanState, ReflectError>(
                    ScanState { mode, traits: traits@, alias: strings_opt_view(alias), docs: strings_view(docs@) },
                ),
            decreases input.attrs@.len() - i,
        {
            let a = &input.attrs[i];
            let step: Result<(), ReflectError> = match &a.meta {
                AttrMeta::List(name, t) => {
                    let is_normal = *name == String::from_str("reflect");
                    let is_value = *name == String::from_str("reflect_value");
                    if is_normal || is_value {
                        let m = if is_normal { ReflectMode::Normal } else { ReflectMode::Value };
                        if mode.is_some() && mode != Some(m) {
                            Err(ReflectError::new(ErrorKind::BothReflectModes, a.span))
                        } else {
                            mode = Some(m);
                            let prov = ReflectProvenance {
                                source,
                                trait_,
                                type_kind: if is_normal { native_exec } else { ReflectTypeKind::Value },
                            };
                            match ContainerAttributes::parse_terminated(t, prov) {
                                Err(e) => Err(e.in_attribute(a.span)),
                                Ok(new) => match traits.merge(new) {
                                    Err(e) => Err(e.in_attribute(a.span)),
                                    Ok(()) => Ok(()),
                                },
                            }
                        }
                    } else {
                        Ok(())
                    }
                },
                AttrMeta::Path(name) => {
                    if *name == String::from_str("reflect_value") {
                        if mode.is_some() && mode != Some(ReflectMode::Value) {
                            Err(ReflectError::new(ErrorKind::BothReflectModes, a.span))
                        } else {
                            mode = Some(ReflectMode::Value);
                            Ok(())
                        }
                    } else {
                        Ok(())
                    }
                },
                AttrMeta::NameValue(name, value) => {
                    if *name == String::from_str("type_path") {
                        if alias.is_some() {
                            Err(ReflectError::new(ErrorKind::MultipleTypePaths, a.span))
                        } else {
                            match value {
                                Token::Str(p) => {
                                    match parse_alias(p.as_str()) {
                                        Some(segs) => {
                                            alias = Some(segs);
                                            Ok(())
                                        },
                                        None => Err(ReflectError::new(ErrorKind::InvalidTypePath, a.span)),
                                    }
                                },
                                _ => Err(ReflectError::new(ErrorKind::TypePathNotString, a.span)),
                            }
                        }
                    } else if *name == String::from_str("doc") {
                        if let Token::Str(d) = value {
                            let ghost before = strings_view(docs@);
                            docs.push(d.clone());
                            assert(strings_view(docs@) =~= before.push(d@));
                        }
                        Ok(())
                    } else {
                        Ok(())
                    }
                },
            };
            if let Err(e) = step {
                proof {
                    lemma_scan_err_stays(v, i + 1, input.attrs@.len() as int, native, source, trait_);
                }
                return Err(single_error(e));
            }
            i += 1;
        }
        let path_to_type = match alias {
            Some(a) => PathToType::AliasedNamed { ty: input.ident.clone(), alias: a },
            None => PathToType::Internal { ident: input.ident.clone(), module: copy_strings(&input.module) },
        };
        let meta = ReflectMeta {
            traits,
            path_to_type,
            generics: copy_generics(&input.generics),
            bevy_reflect_path: String::from_str("::bevy_reflect"),
            docs,
        };
        let ghost st = ScanState { mode, traits: meta.traits@, alias: strings_opt_view(alias), docs: strings_view(meta.docs@) };
        assert(scan(v, input.attrs@.len() as int, native, source, trait_) == Ok::<ScanState, ReflectError>(st));
        assert(meta_built(&meta, input, st));
        if mode == Some(ReflectMode::Value) {
            return Ok(ReflectDerive::Value(meta));
        }
        match &input.data {
            DeclData::Struct(shape, fs) => {
                let fields = collect_struct_fields(fs)?;
                let behaviors = ignore_behaviors(&fields);
                let denylist = members_to_serialization_denylist(&behaviors);
                let s = ReflectStruct { meta, serialization_denylist: denylist, fields };
                assert(struct_built(&s, fs@, input, st));
                match shape {
                    FieldsShape::Named => Ok(ReflectDerive::Struct(s)),
                    FieldsShape::Unnamed => Ok(ReflectDerive::TupleStruct(s)),
                    FieldsShape::Unit => Ok(ReflectDerive::UnitStruct(s)),
                }
            },
            DeclData::Enum(vs) => {
                let variants = collect_enum_variants(vs)?;
                Ok(ReflectDerive::Enum(ReflectEnum { meta, variants }))
            },
            DeclData::Union => Err(single_error(ReflectError::new(ErrorKind::UnionNotSupported, 0))),
        }
    }

    /// The metadata of the reflected type.
    pub fn meta(&self) -> (r: &ReflectMeta)
        ensures
            r == match self {
                ReflectDerive::Struct(s) => &s.meta,
                ReflectDerive::TupleStruct(s) => &s.meta,
                ReflectDerive::UnitStruct(s) => &s.meta,
                ReflectDerive::Enum(e) => &e.meta,
                ReflectDerive::Value(m) => m,
            },
    {
        match self {
            ReflectDerive::Struct(s) => &s.meta,
            ReflectDerive::TupleStruct(s) => &s.meta,
            ReflectDerive::UnitStruct(s) => &s.meta,
            ReflectDerive::Enum(e) => &e.meta,
            ReflectDerive::Value(m) => m,
        }
    }
}

} // verus!
