//! Reading a `#[reflect(...)]` argument list into a [`ContainerAttributes`].
use vstd::prelude::*;
use vstd::string::StringExecFns;

use crate::container_attributes::{
    has_marker, add_unique, add_unique_ident, markers_unique, trait_merge, BoolLit, ContainerAttributes,
    ContainerAttributesView, MarkerView, TraitImpl, TraitImplView,
};
use crate::error::{ErrorKind, ReflectError};
use crate::tokens::{copy_from, tokens_view, Token, TokenView};

verus! {

/// Whether the impl being generated is for a type of the deriving crate or
/// for a type defined elsewhere.
#[derive(Clone, Copy, Debug, PartialEq, Eq, Structural)]
pub enum ReflectImplSource {
    ImplRemoteType,
    DeriveLocalType,
}

/// Which trait the running derive implements.
#[derive(Clone, Copy, Debug, PartialEq, Eq, Structural)]
pub enum ReflectTraitToImpl {
    Reflect,
    FromReflect,
    TypePath,
}

/// The shape being derived.
#[derive(Clone, Copy, Debug, PartialEq, Eq, Structural)]
pub enum ReflectTypeKind {
    Struct,
    TupleStruct,
    UnitStruct,
    Enum,
    Value,
}

/// The context that decides which attributes are legal.
#[derive(Clone, Copy, Debug, PartialEq, Eq, Structural)]
pub struct ReflectProvenance {
    pub source: ReflectImplSource,
    pub trait_: ReflectTraitToImpl,
    pub type_kind: ReflectTypeKind,
}

/// The path that a bare `container_default` stands for.
pub open spec fn intrinsic_default_path() -> Seq<char> {
    "::core::default::Default::default"@
}

pub open spec fn is_path_token(t: TokenView) -> bool {
    t is Ident || t == TokenView::Punct(':')
}

/// The first position at or after `i` that does not continue a path.
pub open spec fn path_end(t: Seq<TokenView>, i: int) -> int
    decreases t.len() - i,
{
    if i < 0 || i >= t.len() || !is_path_token(t[i]) {
        i
    } else {
        path_end(t, i + 1)
    }
}

/// The text of the path tokens `t[i..j]`.
pub open spec fn path_text(t: Seq<TokenView>, i: int, j: int) -> Seq<char>
    decreases j - i,
{
    if j <= i {
        Seq::empty()
    } else {
        path_text(t, i, j - 1) + match t[j - 1] {
            TokenView::Ident(s) => s,
            _ => ":"@,
        }
    }
}

pub proof fn lemma_path_end_bounds(t: Seq<TokenView>, i: int)
    requires
        0 <= i <= t.len(),
    ensures
        i <= path_end(t, i) <= t.len(),
        forall|k: int| i <= k < path_end(t, i) ==> is_path_token(#[trigger] t[k]),
        path_end(t, i) < t.len() ==> !is_path_token(t[path_end(t, i)]),
    decreases t.len() - i,
{
    if i < t.len() && is_path_token(t[i]) {
        lemma_path_end_bounds(t, i + 1);
    }
}

/// A special trait: bare, it forwards to the type's impl; with a
/// parenthesized path, it registers a custom function. Either way it
/// conflicts with an earlier registration of the same trait.
pub open spec fn parse_special(slot: TraitImplView, t: Seq<TokenView>, i: int) -> Result<(TraitImplView, int), ReflectError> {
    if i + 1 < t.len() && t[i + 1] == TokenView::Open {
        let j = path_end(t, i + 2);
        if j == i + 2 {
            Err(ReflectError { kind: ErrorKind::ExpectedPath, span: (i + 2) as usize, attribute: None })
        } else if j >= t.len() || t[j] != TokenView::Close {
            Err(ReflectError { kind: ErrorKind::UnexpectedToken, span: j as usize, attribute: None })
        } else {
            match trait_merge(slot, TraitImplView::Custom(path_text(t, i + 2, j), i as usize)) {
                Err(e) => Err(e),
                Ok(s) => Ok((s, j + 1)),
            }
        }
    } else {
        match trait_merge(slot, TraitImplView::Implemented(i as usize)) {
            Err(e) => Err(e),
            Ok(s) => Ok((s, i + 1)),
        }
    }
}

/// A toggle `name = <bool>`: the value read, or `true` when the running
/// derive is the one that the toggle would switch off.
pub open spec fn parse_toggle(t: Seq<TokenView>, i: int, forced: bool) -> Result<(BoolLit, int), ReflectError> {
    if !(i + 1 < t.len() && t[i + 1] == TokenView::Punct('=')) {
        Err(ReflectError { kind: ErrorKind::UnexpectedToken, span: (i + 1) as usize, attribute: None })
    } else if !(i + 2 < t.len() && t[i + 2] is Bool) {
        Err(ReflectError { kind: ErrorKind::ExpectedBool, span: (i + 2) as usize, attribute: None })
    } else {
        let b = match t[i + 2] {
            TokenView::Bool(b) => b,
            _ => false,
        };
        Ok((BoolLit { value: if forced { true } else { b }, span: (i + 2) as usize }, i + 3))
    }
}

/// `container_default` or `container_default = <path>`: only for structs
/// defined outside the deriving crate; may be given once (a second one fails
/// at its own position).
pub open spec fn parse_container_default(
    st: ContainerAttributesView,
    t: Seq<TokenView>,
    i: int,
    prov: ReflectProvenance,
) -> Result<(ContainerAttributesView, int), ReflectError> {
    if prov.source == ReflectImplSource::DeriveLocalType {
        Err(ReflectError { kind: ErrorKind::ContainerDefaultOnLocalType, span: i as usize, attribute: None })
    } else if !(prov.type_kind == ReflectTypeKind::Struct || prov.type_kind == ReflectTypeKind::TupleStruct) {
        Err(ReflectError { kind: ErrorKind::ContainerDefaultOnNonStruct, span: i as usize, attribute: None })
    } else {
        let (path, next) = if i + 1 < t.len() && t[i + 1] == TokenView::Punct('=') {
            (path_text(t, i + 2, path_end(t, i + 2)), path_end(t, i + 2))
        } else {
            (intrinsic_default_path(), i + 1)
        };
        if i + 1 < t.len() && t[i + 1] == TokenView::Punct('=') && path_end(t, i + 2) == i + 2 {
            Err(ReflectError { kind: ErrorKind::ExpectedPath, span: (i + 2) as usize, attribute: None })
        } else {
            match st.from_reflect.container_default {
                Some(_) => Err(ReflectError { kind: ErrorKind::ContainerDefaultAlreadySet, span: i as usize, attribute: None }),
                None => Ok(
                    (
                        ContainerAttributesView {
                            from_reflect: crate::container_attributes::FromReflectAttrsView {
                                container_default: Some((path, i as usize)),
                                ..st.from_reflect
                            },
                            ..st
                        },
                        next,
                    ),
                ),
            }
        }
    }
}

/// One attribute of the list, starting at `t[i]`: the updated set and the
/// position after the attribute.
pub open spec fn parse_attr(
    st: ContainerAttributesView,
    t: Seq<TokenView>,
    i: int,
    prov: ReflectProvenance,
) -> Result<(ContainerAttributesView, int), ReflectError> {
    match t[i] {
        TokenView::Ident(n) => if n == "where"@ {
            Ok((ContainerAttributesView { custom_where: Some(t.subrange(i + 1, t.len() as int)), ..st }, t.len() as int))
        } else if n == "from_reflect"@ {
            match parse_toggle(t, i, prov.trait_ == ReflectTraitToImpl::FromReflect) {
                Err(e) => Err(e),
                Ok((b, j)) => Ok(
                    (
                        ContainerAttributesView {
                            from_reflect: crate::container_attributes::FromReflectAttrsView {
                                auto_derive: Some(b),
                                ..st.from_reflect
                            },
                            ..st
                        },
                        j,
                    ),
                ),
            }
        } else if n == "type_path"@ {
            match parse_toggle(t, i, prov.trait_ == ReflectTraitToImpl::TypePath) {
                Err(e) => Err(e),
                Ok((b, j)) => Ok(
                    (
                        ContainerAttributesView {
                            type_path: crate::container_attributes::TypePathAttrs { auto_derive: Some(b) },
                            ..st
                        },
                        j,
                    ),
                ),
            }
        } else if n == "no_field_bounds"@ {
            Ok((ContainerAttributesView { no_field_bounds: true, ..st }, i + 1))
        } else if n == "Debug"@ {
            match parse_special(st.debug, t, i) {
                Err(e) => Err(e),
                Ok((s, j)) => Ok((ContainerAttributesView { debug: s, ..st }, j)),
            }
        } else if n == "PartialEq"@ {
            match parse_special(st.partial_eq, t, i) {
                Err(e) => Err(e),
                Ok((s, j)) => Ok((ContainerAttributesView { partial_eq: s, ..st }, j)),
            }
        } else if n == "Hash"@ {
            match parse_special(st.hash, t, i) {
                Err(e) => Err(e),
                Ok((s, j)) => Ok((ContainerAttributesView { hash: s, ..st }, j)),
            }
        } else if n == "container_default"@ {
            parse_container_default(st, t, i, prov)
        } else if i + 1 < t.len() && t[i + 1] == TokenView::Open {
            Err(ReflectError { kind: ErrorKind::CustomFunctionNotAllowed, span: i as usize, attribute: None })
        } else {
            match add_unique(st.idents, ("Reflect"@ + n, i as usize)) {
                Err(e) => Err(e),
                Ok(l) => Ok((ContainerAttributesView { idents: l, ..st }, i + 1)),
            }
        },
        _ => Err(ReflectError { kind: ErrorKind::UnexpectedToken, span: i as usize, attribute: None }),
    }
}

/// The comma-separated attributes from `t[i]` on, applied to `st` in order;
/// a trailing comma is allowed.
pub open spec fn parse_list(
    st: ContainerAttributesView,
    t: Seq<TokenView>,
    i: int,
    prov: ReflectProvenance,
) -> Result<ContainerAttributesView, ReflectError>
    decreases t.len() - i,
{
    if i < 0 || i >= t.len() {
        Ok(st)
    } else {
        match parse_attr(st, t, i, prov) {
            Err(e) => Err(e),
            Ok((st2, j)) => if j <= i {
                Err(ReflectError { kind: ErrorKind::UnexpectedToken, span: i as usize, attribute: None })
            } else if j >= t.len() {
                Ok(st2)
            } else if t[j] == TokenView::Punct(',') {
                parse_list(st2, t, j + 1, prov)
            } else {
                Err(ReflectError { kind: ErrorKind::UnexpectedToken, span: j as usize, attribute: None })
            },
        }
    }
}

/// Reads a whole argument list.
pub open spec fn parse_attribute_list(t: Seq<TokenView>, prov: ReflectProvenance) -> Result<ContainerAttributesView, ReflectError> {
    parse_list(ContainerAttributesView::empty(), t, 0, prov)
}


/// `container_default` on a type of the deriving crate, or on a shape other
/// than a struct or tuple struct, is refused, naming which of the two.
pub proof fn law_container_default_ineligible(
    st: ContainerAttributesView,
    t: Seq<TokenView>,
    i: int,
    prov: ReflectProvenance,
)
    requires
        0 <= i < t.len(),
        t[i] == TokenView::Ident("container_default"@),
    ensures
        prov.source == ReflectImplSource::DeriveLocalType ==> parse_attr(st, t, i, prov) == Err::<(ContainerAttributesView, int), ReflectError>(
            ReflectError { kind: ErrorKind::ContainerDefaultOnLocalType, span: i as usize, attribute: None },
        ),
        prov.source != ReflectImplSource::DeriveLocalType && prov.type_kind != ReflectTypeKind::Struct
            && prov.type_kind != ReflectTypeKind::TupleStruct ==> parse_attr(st, t, i, prov) == Err::<(ContainerAttributesView, int), ReflectError>(
            ReflectError { kind: ErrorKind::ContainerDefaultOnNonStruct, span: i as usize, attribute: None },
        ),
{
    reveal_strlit("container_default");
    reveal_strlit("where");
    reveal_strlit("from_reflect");
    reveal_strlit("type_path");
    reveal_strlit("no_field_bounds");
    reveal_strlit("Debug");
    reveal_strlit("PartialEq");
    reveal_strlit("Hash");
    assert("container_default"@.len() == 17);
    assert("container_default"@ != "where"@);
    assert("container_default"@ != "from_reflect"@);
    assert("container_default"@ != "type_path"@);
    assert("container_default"@ != "no_field_bounds"@);
    assert("container_default"@ != "Debug"@);
    assert("container_default"@ != "PartialEq"@);
    assert("container_default"@ != "Hash"@);
}

/// A special trait given when it is already registered, bare or with a
/// custom function, fails.
pub proof fn law_special_trait_twice(st: ContainerAttributesView, t: Seq<TokenView>, i: int, prov: ReflectProvenance)
    requires
        0 <= i < t.len(),
    ensures
        t[i] == TokenView::Ident("Debug"@) && st.debug.is_set() ==> parse_attr(st, t, i, prov) is Err,
        t[i] == TokenView::Ident("PartialEq"@) && st.partial_eq.is_set() ==> parse_attr(st, t, i, prov) is Err,
        t[i] == TokenView::Ident("Hash"@) && st.hash.is_set() ==> parse_attr(st, t, i, prov) is Err,
{
    reveal_strlit("where");
    reveal_strlit("from_reflect");
    reveal_strlit("type_path");
    reveal_strlit("no_field_bounds");
    reveal_strlit("Debug");
    reveal_strlit("PartialEq");
    reveal_strlit("Hash");
    assert("Debug"@[0] == 'D' && "where"@[0] == 'w');
    assert("Debug"@ != "where"@ && "Debug"@ != "from_reflect"@ && "Debug"@ != "type_path"@ && "Debug"@ != "no_field_bounds"@);
    assert("PartialEq"@.len() == 9 && "where"@.len() == 5 && "from_reflect"@.len() == 12 && "no_field_bounds"@.len() == 15);
    assert("PartialEq"@[0] == 'P' && "type_path"@[0] == 't');
    assert("PartialEq"@ != "where"@ && "PartialEq"@ != "from_reflect"@ && "PartialEq"@ != "type_path"@);
    assert("PartialEq"@ != "no_field_bounds"@ && "PartialEq"@ != "Debug"@);
    assert("Hash"@ != "where"@ && "Hash"@ != "from_reflect"@ && "Hash"@ != "type_path"@ && "Hash"@ != "no_field_bounds"@);
    assert("Hash"@ != "Debug"@ && "Hash"@ != "PartialEq"@);
}

/// Registering a marker whose name is already registered fails, at the
/// second occurrence; so a marker given twice, in one list or across the
/// lists of one declaration, is refused.
pub proof fn law_marker_registered_twice(
    st: ContainerAttributesView,
    t: Seq<TokenView>,
    i: int,
    prov: ReflectProvenance,
    name: Seq<char>,
)
    requires
        0 <= i < t.len(),
        t[i] == TokenView::Ident(name),
        name != "where"@ && name != "from_reflect"@ && name != "type_path"@ && name != "no_field_bounds"@,
        name != "Debug"@ && name != "PartialEq"@ && name != "Hash"@ && name != "container_default"@,
        has_marker(st.idents, "Reflect"@ + name),
    ensures
        parse_attr(st, t, i, prov) is Err,
{
}

/// Reading an attribute keeps every marker already registered, in place.
pub proof fn law_parse_attr_keeps_markers(st: ContainerAttributesView, t: Seq<TokenView>, i: int, prov: ReflectProvenance)
    requires
        0 <= i < t.len(),
    ensures
        parse_attr(st, t, i, prov) is Ok ==> {
            let s = parse_attr(st, t, i, prov).unwrap().0;
            &&& st.idents.len() <= s.idents.len()
            &&& forall|k: int| 0 <= k < st.idents.len() ==> s.idents[k] == #[trigger] st.idents[k]
        },
{
}

/// Reading an attribute list never leaves a marker registered twice.
pub proof fn law_parse_list_unique(st: ContainerAttributesView, t: Seq<TokenView>, i: int, prov: ReflectProvenance)
    requires
        st.wf(),
        parse_list(st, t, i, prov) is Ok,
    ensures
        parse_list(st, t, i, prov).unwrap().wf(),
    decreases t.len() - i,
{
    if 0 <= i < t.len() {
        let (st2, j) = parse_attr(st, t, i, prov).unwrap();
        if let TokenView::Ident(n) = t[i] {
            lemma_add_unique_keeps_unique(st.idents, ("Reflect"@ + n, i as usize));
        }
        assert(st2.wf());
        if j > i && j < t.len() && t[j] == TokenView::Punct(',') {
            law_parse_list_unique(st2, t, j + 1, prov);
        }
    }
}

/// Registering a new marker keeps the names unique.
pub proof fn lemma_add_unique_keeps_unique(list: Seq<MarkerView>, m: MarkerView)
    requires
        markers_unique(list),
    ensures
        add_unique(list, m) is Ok ==> markers_unique(add_unique(list, m).unwrap()),
{
    if add_unique(list, m) is Ok {
        let l = list.push(m);
        assert forall|p: int, q: int| 0 <= p < q < l.len() implies (#[trigger] l[p]).0 != (#[trigger] l[q]).0 by {
            assert(l[p] == list[p]);
            if q < list.len() {
                assert(l[q] == list[q]);
            } else {
                assert(!(list[p].0 == m.0));
            }
        }
    }
}

/// Each attribute read consumes at least one token and stays in the list.
pub proof fn lemma_parse_attr_advances(st: ContainerAttributesView, t: Seq<TokenView>, i: int, prov: ReflectProvenance)
    requires
        0 <= i < t.len(),
    ensures
        parse_attr(st, t, i, prov) is Ok ==> i < parse_attr(st, t, i, prov).unwrap().1 <= t.len(),
{
    if i + 2 <= t.len() {
        lemma_path_end_bounds(t, i + 2);
    }
}

/// The end of the path that starts at `t[i]` (see [`path_end`]).
pub fn find_path_end(t: &Vec<Token>, i: usize) -> (r: usize)
    requires
        i <= t@.len(),
    ensures
        r == path_end(tokens_view(t@), i as int),
{
    let ghost v = tokens_view(t@);
    proof {
        lemma_path_end_bounds(v, i as int);
    }
    let mut j: usize = i;
    while j < t.len()
        invariant
            i <= j <= t@.len(),
            v == tokens_view(t@),
            path_end(v, j as int) == path_end(v, i as int),
        decreases t@.len() - j,
    {
        let is_path = match &t[j] {
            Token::Ident(_) => true,
            Token::Punct(c) => *c == ':',
            _ => false,
        };
        if !is_path {
            return j;
        }
        j += 1;
    }
    j
}

/// The text of the path tokens `t[i..j]` (see [`path_text`]).
pub fn render_path(t: &Vec<Token>, i: usize, j: usize) -> (r: String)
    requires
        i <= j <= t@.len(),
    ensures
        r@ == path_text(tokens_view(t@), i as int, j as int),
{
    let ghost v = tokens_view(t@);
    let mut r = String::new();
    let mut k: usize = i;
    while k < j
        invariant
            i <= k <= j <= t@.len(),
            v == tokens_view(t@),
            r@ == path_text(v, i as int, k as int),
        decreases j - k,
    {
        match &t[k] {
            Token::Ident(s) => r.append(s.as_str()),
            _ => r.append(":"),
        }
        k += 1;
    }
    r
}

/// Reads a special trait at `t[i]` into `slot` (see [`parse_special`]).
pub fn parse_special_trait(slot: &mut TraitImpl, t: &Vec<Token>, i: usize) -> (r: Result<usize, ReflectError>)
    requires
        i < t@.len(),
    ensures
        match parse_special(old(slot)@, tokens_view(t@), i as int) {
            Ok((s, j)) => r == Ok::<usize, ReflectError>(j as usize) && final(slot)@ == s,
            Err(e) => r == Err::<usize, ReflectError>(e),
        },
{
    let ghost v = tokens_view(t@);
    let n = t.len();
    if i + 1 < n && matches!(t[i + 1], Token::Open) {
        let j = find_path_end(t, i + 2);
        proof {
            lemma_path_end_bounds(v, i + 2);
        }
        if j == i + 2 {
            return Err(ReflectError::new(ErrorKind::ExpectedPath, i + 2));
        }
        if j >= t.len() || !matches!(t[j], Token::Close) {
            return Err(ReflectError::new(ErrorKind::UnexpectedToken, j));
        }
        let path = render_path(t, i + 2, j);
        slot.merge(TraitImpl::Custom(path, i))?;
        Ok(j + 1)
    } else {
        slot.merge(TraitImpl::Implemented(i))?;
        Ok(i + 1)
    }
}

/// Reads a toggle `name = <bool>` at `t[i]` (see [`parse_toggle`]).
pub fn parse_bool_toggle(t: &Vec<Token>, i: usize, forced: bool) -> (r: Result<(BoolLit, usize), ReflectError>)
    requires
        i < t@.len(),
    ensures
        match parse_toggle(tokens_view(t@), i as int, forced) {
            Ok((b, j)) => r == Ok::<(BoolLit, usize), ReflectError>((b, j as usize)),
            Err(e) => r == Err::<(BoolLit, usize), ReflectError>(e),
        },
{
    let n = t.len();
    if !(i + 1 < n && t[i + 1].is_punct('=')) {
        return Err(ReflectError::new(ErrorKind::UnexpectedToken, i + 1));
    }
    if i + 2 < t.len() {
        if let Token::Bool(b) = &t[i + 2] {
            let value = if forced { true } else { *b };
            return Ok((BoolLit { value, span: i + 2 }, i + 3));
        }
    }
    Err(ReflectError::new(ErrorKind::ExpectedBool, i + 2))
}

impl ContainerAttributes {
    /// Reads `container_default` at `t[i]` (see [`parse_container_default`]).
    pub fn parse_container_default(&mut self, t: &Vec<Token>, i: usize, provenance: ReflectProvenance) -> (r: Result<
        usize,
        ReflectError,
    >)
        requires
            i < t@.len(),
        ensures
            match parse_container_default(old(self)@, tokens_view(t@), i as int, provenance) {
                Ok((s, j)) => r == Ok::<usize, ReflectError>(j as usize) && final(self)@ == s,
                Err(e) => r == Err::<usize, ReflectError>(e),
            },
    {
        let ghost v = tokens_view(t@);
        if provenance.source == ReflectImplSource::DeriveLocalType {
            return Err(ReflectError::new(ErrorKind::ContainerDefaultOnLocalType, i));
        }
        if !(provenance.type_kind == ReflectTypeKind::Struct || provenance.type_kind == ReflectTypeKind::TupleStruct) {
            return Err(ReflectError::new(ErrorKind::ContainerDefaultOnNonStruct, i));
        }
        let n = t.len();
        let (path, next) = if i + 1 < n && t[i + 1].is_punct('=') {
            let j = find_path_end(t, i + 2);
            proof {
                lemma_path_end_bounds(v, i + 2);
            }
            if j == i + 2 {
                return Err(ReflectError::new(ErrorKind::ExpectedPath, i + 2));
            }
            (render_path(t, i + 2, j), j)
        } else {
            (String::from_str("::core::default::Default::default"), i + 1)
        };
        self.from_reflect_attrs.insert_container_default((path, i))?;
        Ok(next)
    }

    /// Reads the attribute at `t[i]` (see [`parse_attr`]); returns the
    /// position after it.
    pub fn parse_container_attribute(&mut self, t: &Vec<Token>, i: usize, provenance: ReflectProvenance) -> (r: Result<
        usize,
        ReflectError,
    >)
        requires
            i < t@.len(),
            old(self)@.wf(),
        ensures
            match parse_attr(old(self)@, tokens_view(t@), i as int, provenance) {
                Ok((s, j)) => r == Ok::<usize, ReflectError>(j as usize) && final(self)@ == s && s.wf(),
                Err(e) => r == Err::<usize, ReflectError>(e),
            },
    {
        let ghost v = tokens_view(t@);
        let n = t.len();
        assert(i < n);
        proof {
            lemma_parse_attr_advances(self@, v, i as int, provenance);
        }
        let name = match &t[i] {
            Token::Ident(s) => s,
            _ => {
                return Err(ReflectError::new(ErrorKind::UnexpectedToken, i));
            },
        };
        if t[i].is_ident("where") {
            self.custom_where = Some(copy_from(t, i + 1));
            Ok(t.len())
        } else if t[i].is_ident("from_reflect") {
            let (b, j) = parse_bool_toggle(t, i, provenance.trait_ == ReflectTraitToImpl::FromReflect)?;
            self.from_reflect_attrs.auto_derive = Some(b);
            Ok(j)
        } else if t[i].is_ident("type_path") {
            let (b, j) = parse_bool_toggle(t, i, provenance.trait_ == ReflectTraitToImpl::TypePath)?;
            self.type_path_attrs.auto_derive = Some(b);
            Ok(j)
        } else if t[i].is_ident("no_field_bounds") {
            self.no_field_bounds = true;
            Ok(i + 1)
        } else if t[i].is_ident("Debug") {
            parse_special_trait(&mut self.debug, t, i)
        } else if t[i].is_ident("PartialEq") {
            parse_special_trait(&mut self.partial_eq, t, i)
        } else if t[i].is_ident("Hash") {
            parse_special_trait(&mut self.hash, t, i)
        } else if t[i].is_ident("container_default") {
            self.parse_container_default(t, i, provenance)
        } else if i + 1 < t.len() && matches!(t[i + 1], Token::Open) {
            Err(ReflectError::new(ErrorKind::CustomFunctionNotAllowed, i))
        } else {
            let reflect_ident = String::from_str("Reflect").concat(name.as_str());
            proof {
                lemma_add_unique_keeps_unique(self@.idents, (reflect_ident@, i));
            }
            add_unique_ident(&mut self.idents, (reflect_ident, i))?;
            Ok(i + 1)
        }
    }

    /// Reads a comma-separated attribute list (see [`parse_attribute_list`]).
    pub fn parse_terminated(t: &Vec<Token>, provenance: ReflectProvenance) -> (r: Result<ContainerAttributes, ReflectError>)
        ensures
            match parse_attribute_list(tokens_view(t@), provenance) {
                Ok(s) => r is Ok && r.unwrap()@ == s && s.wf(),
                Err(e) => r == Err::<ContainerAttributes, ReflectError>(e),
            },
    {
        let ghost v = tokens_view(t@);
        let mut this = ContainerAttributes::new();
        let mut i: usize = 0;
        while i < t.len()
            invariant
                i <= t@.len(),
                v == tokens_view(t@),
                this@.wf(),
                parse_list(this@, v, i as int, provenance) == parse_attribute_list(v, provenance),
            decreases t@.len() - i,
        {
            proof {
                lemma_parse_attr_advances(this@, v, i as int, provenance);
            }
            let j = this.parse_container_attribute(t, i, provenance)?;
            if j <= i {
                return Err(ReflectError::new(ErrorKind::UnexpectedToken, i));
            }
            if j >= t.len() {
                return Ok(this);
            }
            if !t[j].is_punct(',') {
                return Err(ReflectError::new(ErrorKind::UnexpectedToken, j));
            }
            i = j + 1;
        }
        Ok(this)
    }
}

} // verus!
