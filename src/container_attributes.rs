//! Container attributes: the options that `#[reflect(...)]` sets on a whole
//! struct or enum, with the rules for merging several such lists.
use vstd::prelude::*;
use vstd::string::StringExecFns;

use crate::error::{ErrorKind, ReflectError};
use crate::tokens::{tokens_view, Token, TokenView};

verus! {

/// How a special trait (`Debug`, `PartialEq`, `Hash`) is registered.
#[derive(Debug)]
pub enum TraitImpl {
    /// The trait is not registered.
    NotImplemented,
    /// The trait is registered and forwards to the type's own impl.
    Implemented(usize),
    /// The trait is registered through a custom function at the given path.
    Custom(String, usize),
}

pub enum TraitImplView {
    NotImplemented,
    Implemented(usize),
    Custom(Seq<char>, usize),
}

impl View for TraitImpl {
    type V = TraitImplView;

    open spec fn view(&self) -> TraitImplView {
        match self {
            TraitImpl::NotImplemented => TraitImplView::NotImplemented,
            TraitImpl::Implemented(s) => TraitImplView::Implemented(*s),
            TraitImpl::Custom(p, s) => TraitImplView::Custom(p@, *s),
        }
    }
}

impl TraitImplView {
    pub open spec fn is_set(self) -> bool {
        !(self is NotImplemented)
    }

    pub open spec fn span(self) -> usize {
        match self {
            TraitImplView::NotImplemented => 0,
            TraitImplView::Implemented(s) => s,
            TraitImplView::Custom(_, s) => s,
        }
    }
}

/// Merging two registrations of one special trait: an unset side yields the
/// other; two set sides conflict at the second one's position.
pub open spec fn trait_merge(a: TraitImplView, b: TraitImplView) -> Result<TraitImplView, ReflectError> {
    if !a.is_set() {
        Ok(b)
    } else if !b.is_set() {
        Ok(a)
    } else {
        Err(ReflectError { kind: ErrorKind::ConflictingRegistration, span: b.span(), attribute: None })
    }
}

impl TraitImpl {
    /// Merges `other` into `self` (see [`trait_merge`]).
    pub fn merge(&mut self, other: TraitImpl) -> (r: Result<(), ReflectError>)
        ensures
            match trait_merge(old(self)@, other@) {
                Ok(t) => r is Ok && final(self)@ == t,
                Err(e) => r == Err::<(), ReflectError>(e) && final(self)@ == old(self)@,
            },
    {
        match (&*self, other) {
            (TraitImpl::NotImplemented, value) => {
                *self = value;
                Ok(())
            },
            (_, TraitImpl::NotImplemented) => Ok(()),
            (_, TraitImpl::Implemented(span)) => Err(
                ReflectError::new(ErrorKind::ConflictingRegistration, span),
            ),
            (_, TraitImpl::Custom(_, span)) => Err(
                ReflectError::new(ErrorKind::ConflictingRegistration, span),
            ),
        }
    }

    /// A copy of this registration.
    pub fn duplicate(&self) -> (r: TraitImpl)
        ensures
            r@ == self@,
    {
        match self {
            TraitImpl::NotImplemented => TraitImpl::NotImplemented,
            TraitImpl::Implemented(s) => TraitImpl::Implemented(*s),
            TraitImpl::Custom(p, s) => TraitImpl::Custom(p.clone(), *s),
        }
    }
}

/// A boolean toggle with the position it was written at.
#[derive(Clone, Copy, Debug, PartialEq, Eq, Structural)]
pub struct BoolLit {
    pub value: bool,
    pub span: usize,
}

/// Merging two optional toggles: conflicting values fail at the second one,
/// with an error of the given kind.
pub open spec fn toggle_merge(a: Option<BoolLit>, b: Option<BoolLit>, kind: ErrorKind) -> Result<
    Option<BoolLit>,
    ReflectError,
> {
    match b {
        None => Ok(a),
        Some(new) => match a {
            Some(existing) => if existing.value != new.value {
                Err(ReflectError { kind, span: new.span, attribute: None })
            } else {
                Ok(a)
            },
            None => Ok(b),
        },
    }
}

pub open spec fn toggle_value(t: Option<BoolLit>) -> bool {
    match t {
        Some(l) => l.value,
        None => true,
    }
}

/// The attributes that configure the `FromReflect` impl.
#[derive(Debug)]
pub struct FromReflectAttrs {
    pub auto_derive: Option<BoolLit>,
    /// The function producing the default value that fields are overlaid on.
    pub container_default: Option<(String, usize)>,
}

pub struct FromReflectAttrsView {
    pub auto_derive: Option<BoolLit>,
    pub container_default: Option<(Seq<char>, usize)>,
}

impl View for FromReflectAttrs {
    type V = FromReflectAttrsView;

    open spec fn view(&self) -> FromReflectAttrsView {
        FromReflectAttrsView {
            auto_derive: self.auto_derive,
            container_default: match self.container_default {
                Some(p) => Some((p.0@, p.1)),
                None => None,
            },
        }
    }
}

/// The error of setting `from_reflect` to two values: the first, then the second.
pub open spec fn auto_kind_from_reflect(a: Option<BoolLit>, b: Option<BoolLit>) -> ErrorKind {
    ErrorKind::FromReflectAlreadySet(a.unwrap().value, b.unwrap().value)
}

/// The error of setting `type_path` to two values: the first, then the second.
pub open spec fn auto_kind_type_path(a: Option<BoolLit>, b: Option<BoolLit>) -> ErrorKind {
    ErrorKind::TypePathAlreadySet(a.unwrap().value, b.unwrap().value)
}

pub open spec fn from_reflect_merge(a: FromReflectAttrsView, b: FromReflectAttrsView) -> Result<
    FromReflectAttrsView,
    ReflectError,
> {
    match toggle_merge(a.auto_derive, b.auto_derive, auto_kind_from_reflect(a.auto_derive, b.auto_derive)) {
        Err(e) => Err(e),
        Ok(auto) => match b.container_default {
            None => Ok(FromReflectAttrsView { auto_derive: auto, container_default: a.container_default }),
            Some(cd) => match a.container_default {
                Some(_) => Err(
                    ReflectError { kind: ErrorKind::ContainerDefaultAlreadySet, span: cd.1, attribute: None },
                ),
                None => Ok(FromReflectAttrsView { auto_derive: auto, container_default: Some(cd) }),
            },
        },
    }
}

impl FromReflectAttrs {
    pub fn new() -> (r: FromReflectAttrs)
        ensures
            r@.auto_derive is None,
            r@.container_default is None,
    {
        FromReflectAttrs { auto_derive: None, container_default: None }
    }

    /// Whether `FromReflect` is derived along with `Reflect`: true unless
    /// `from_reflect = false` was given.
    pub fn should_auto_derive(&self) -> (r: bool)
        ensures
            r == toggle_value(self.auto_derive),
    {
        match self.auto_derive {
            Some(lit) => lit.value,
            None => true,
        }
    }

    /// Merges `other` into `self` (see [`from_reflect_merge`]).
    pub fn merge(&mut self, other: FromReflectAttrs) -> (r: Result<(), ReflectError>)
        ensures
            match from_reflect_merge(old(self)@, other@) {
                Ok(m) => r is Ok && final(self)@ == m,
                Err(e) => r == Err::<(), ReflectError>(e),
            },
    {
        if let Some(new) = other.auto_derive {
            if let Some(existing) = self.auto_derive {
                if existing.value != new.value {
                    return Err(
                        ReflectError::new(ErrorKind::FromReflectAlreadySet(existing.value, new.value), new.span),
                    );
                }
            } else {
                self.auto_derive = Some(new);
            }
        }
        if let Some(container_default) = other.container_default {
            self.insert_container_default(container_default)?;
        }
        Ok(())
    }

    /// Sets the container default function, which may be set only once; a
    /// second one fails at its own position.
    pub fn insert_container_default(&mut self, container_default: (String, usize)) -> (r: Result<
        (),
        ReflectError,
    >)
        ensures
            match old(self)@.container_default {
                Some(_) => r == Err::<(), ReflectError>(
                    ReflectError { kind: ErrorKind::ContainerDefaultAlreadySet, span: container_default.1, attribute: None },
                ) && final(self)@ == old(self)@,
                None => r is Ok && final(self)@.container_default == Some(
                    (container_default.0@, container_default.1),
                ) && final(self)@.auto_derive == old(self)@.auto_derive,
            },
    {
        match &self.container_default {
            Some(_) => {
                return Err(ReflectError::new(ErrorKind::ContainerDefaultAlreadySet, container_default.1));
            },
            None => {
                self.container_default = Some(container_default);
            },
        }
        Ok(())
    }

    pub fn duplicate(&self) -> (r: FromReflectAttrs)
        ensures
            r@ == self@,
    {
        FromReflectAttrs {
            auto_derive: self.auto_derive,
            container_default: match &self.container_default {
                Some(p) => Some((p.0.clone(), p.1)),
                None => None,
            },
        }
    }
}

/// The attributes that configure the `TypePath` impl made along with `Reflect`.
#[derive(Clone, Copy, Debug, PartialEq, Eq, Structural)]
pub struct TypePathAttrs {
    pub auto_derive: Option<BoolLit>,
}

pub open spec fn type_path_merge(a: TypePathAttrs, b: TypePathAttrs) -> Result<TypePathAttrs, ReflectError> {
    match toggle_merge(a.auto_derive, b.auto_derive, auto_kind_type_path(a.auto_derive, b.auto_derive)) {
        Err(e) => Err(e),
        Ok(auto) => Ok(TypePathAttrs { auto_derive: auto }),
    }
}

impl TypePathAttrs {
    /// Whether `TypePath` is derived along with `Reflect`: true unless
    /// `type_path = false` was given.
    pub fn should_auto_derive(&self) -> (r: bool)
        ensures
            r == toggle_value(self.auto_derive),
    {
        match self.auto_derive {
            Some(lit) => lit.value,
            None => true,
        }
    }

    /// Merges `other` into `self` (see [`type_path_merge`]).
    pub fn merge(&mut self, other: TypePathAttrs) -> (r: Result<(), ReflectError>)
        ensures
            match type_path_merge(*old(self), other) {
                Ok(m) => r is Ok && *final(self) == m,
                Err(e) => r == Err::<(), ReflectError>(e),
            },
    {
        if let Some(new) = other.auto_derive {
            if let Some(existing) = self.auto_derive {
                if existing.value != new.value {
                    return Err(
                        ReflectError::new(ErrorKind::TypePathAlreadySet(existing.value, new.value), new.span),
                    );
                }
            } else {
                self.auto_derive = Some(new);
            }
        }
        Ok(())
    }
}


/// A registered marker trait: the name of its `Reflect...` type data and the
/// position of the identifier that named it.
pub type MarkerView = (Seq<char>, usize);

pub open spec fn markers_view(m: Seq<(String, usize)>) -> Seq<MarkerView> {
    m.map_values(|x: (String, usize)| (x.0@, x.1))
}

pub open spec fn has_marker(list: Seq<MarkerView>, name: Seq<char>) -> bool {
    exists|k: int| 0 <= k < list.len() && (#[trigger] list[k]).0 == name
}

/// No marker name occurs twice.
pub open spec fn markers_unique(list: Seq<MarkerView>) -> bool {
    forall|i: int, j: int| 0 <= i < j < list.len() ==> (#[trigger] list[i]).0 != (#[trigger] list[j]).0
}

/// Registering one marker: a name already present conflicts at the new one.
pub open spec fn add_unique(list: Seq<MarkerView>, m: MarkerView) -> Result<Seq<MarkerView>, ReflectError> {
    if has_marker(list, m.0) {
        Err(ReflectError { kind: ErrorKind::ConflictingRegistration, span: m.1, attribute: None })
    } else {
        Ok(list.push(m))
    }
}

/// Registering the markers of `b`, in order, after those of `a`.
pub open spec fn markers_merge(a: Seq<MarkerView>, b: Seq<MarkerView>) -> Result<Seq<MarkerView>, ReflectError>
    decreases b.len(),
{
    if b.len() == 0 {
        Ok(a)
    } else {
        match markers_merge(a, b.drop_last()) {
            Err(e) => Err(e),
            Ok(l) => add_unique(l, b.last()),
        }
    }
}

/// An error while registering a prefix of `b` is the error of the whole merge.
pub proof fn lemma_markers_merge_prefix_err(a: Seq<MarkerView>, b: Seq<MarkerView>, k: int)
    requires
        0 <= k <= b.len(),
        markers_merge(a, b.subrange(0, k)) is Err,
    ensures
        markers_merge(a, b) == markers_merge(a, b.subrange(0, k)),
    decreases b.len() - k,
{
    if k < b.len() {
        let c = b.subrange(0, k + 1);
        assert(c.drop_last() =~= b.subrange(0, k));
        lemma_markers_merge_prefix_err(a, b, k + 1);
    } else {
        assert(b.subrange(0, k) =~= b);
    }
}

/// Merging two `where` clauses: their predicates, first then second.
pub open spec fn where_merge(a: Option<Seq<TokenView>>, b: Option<Seq<TokenView>>) -> Option<Seq<TokenView>> {
    match (a, b) {
        (Some(x), Some(y)) => Some(join_predicates(x, y)),
        (None, Some(y)) => Some(y),
        _ => a,
    }
}

/// The predicates of `x` followed by those of `y`, separated by one comma.
pub open spec fn join_predicates(x: Seq<TokenView>, y: Seq<TokenView>) -> Seq<TokenView> {
    if x.len() == 0 || x.last() == TokenView::Punct(',') {
        x + y
    } else {
        x + seq![TokenView::Punct(',')] + y
    }
}

/// The set of options that the `#[reflect(...)]` lists of one declaration give.
#[derive(Debug)]
pub struct ContainerAttributes {
    pub debug: TraitImpl,
    pub hash: TraitImpl,
    pub partial_eq: TraitImpl,
    pub from_reflect_attrs: FromReflectAttrs,
    pub type_path_attrs: TypePathAttrs,
    pub custom_where: Option<Vec<Token>>,
    pub no_field_bounds: bool,
    /// Marker traits, by the name of their `Reflect...` type data, in the
    /// order they were registered.
    pub idents: Vec<(String, usize)>,
}

pub struct ContainerAttributesView {
    pub debug: TraitImplView,
    pub hash: TraitImplView,
    pub partial_eq: TraitImplView,
    pub from_reflect: FromReflectAttrsView,
    pub type_path: TypePathAttrs,
    pub custom_where: Option<Seq<TokenView>>,
    pub no_field_bounds: bool,
    pub idents: Seq<MarkerView>,
}

impl View for ContainerAttributes {
    type V = ContainerAttributesView;

    open spec fn view(&self) -> ContainerAttributesView {
        ContainerAttributesView {
            debug: self.debug@,
            hash: self.hash@,
            partial_eq: self.partial_eq@,
            from_reflect: self.from_reflect_attrs@,
            type_path: self.type_path_attrs,
            custom_where: match self.custom_where {
                Some(w) => Some(tokens_view(w@)),
                None => None,
            },
            no_field_bounds: self.no_field_bounds,
            idents: markers_view(self.idents@),
        }
    }
}

impl ContainerAttributesView {
    /// The empty set: nothing registered, nothing set.
    pub open spec fn empty() -> ContainerAttributesView {
        ContainerAttributesView {
            debug: TraitImplView::NotImplemented,
            hash: TraitImplView::NotImplemented,
            partial_eq: TraitImplView::NotImplemented,
            from_reflect: FromReflectAttrsView { auto_derive: None, container_default: None },
            type_path: TypePathAttrs { auto_derive: None },
            custom_where: None,
            no_field_bounds: false,
            idents: Seq::empty(),
        }
    }

    /// Well-formed: each marker registered once.
    pub open spec fn wf(self) -> bool {
        markers_unique(self.idents)
    }
}

/// Merging two attribute sets, slot by slot, in the order debug, hash,
/// partial_eq, from_reflect, type_path, where, no_field_bounds, markers; the
/// first conflict met is the error.
pub open spec fn attrs_merge(a: ContainerAttributesView, b: ContainerAttributesView) -> Result<
    ContainerAttributesView,
    ReflectError,
> {
    match trait_merge(a.debug, b.debug) {
        Err(e) => Err(e),
        Ok(debug) => match trait_merge(a.hash, b.hash) {
            Err(e) => Err(e),
            Ok(hash) => match trait_merge(a.partial_eq, b.partial_eq) {
                Err(e) => Err(e),
                Ok(partial_eq) => match from_reflect_merge(a.from_reflect, b.from_reflect) {
                    Err(e) => Err(e),
                    Ok(from_reflect) => match type_path_merge(a.type_path, b.type_path) {
                        Err(e) => Err(e),
                        Ok(type_path) => match markers_merge(a.idents, b.idents) {
                            Err(e) => Err(e),
                            Ok(idents) => Ok(
                                ContainerAttributesView {
                                    debug,
                                    hash,
                                    partial_eq,
                                    from_reflect,
                                    type_path,
                                    custom_where: where_merge(a.custom_where, b.custom_where),
                                    no_field_bounds: a.no_field_bounds || b.no_field_bounds,
                                    idents,
                                },
                            ),
                        },
                    },
                },
            },
        },
    }
}

/// Registers the marker `m` unless its name is already registered.
pub fn add_unique_ident(idents: &mut Vec<(String, usize)>, m: (String, usize)) -> (r: Result<
    (),
    ReflectError,
>)
    ensures
        match add_unique(markers_view(old(idents)@), (m.0@, m.1)) {
            Ok(l) => r is Ok && markers_view(final(idents)@) == l,
            Err(e) => r == Err::<(), ReflectError>(e) && final(idents)@ == old(idents)@,
        },
{
    let mut k: usize = 0;
    while k < idents.len()
        invariant
            k <= idents@.len(),
            forall|j: int| 0 <= j < k ==> (#[trigger] idents@[j]).0@ != m.0@,
        decreases idents@.len() - k,
    {
        if idents[k].0 == m.0 {
            assert(markers_view(idents@)[k as int].0 == m.0@);
            return Err(ReflectError::new(ErrorKind::ConflictingRegistration, m.1));
        }
        k += 1;
    }
    assert(!has_marker(markers_view(idents@), m.0@)) by {
        if has_marker(markers_view(idents@), m.0@) {
            let w = choose|w: int| 0 <= w < markers_view(idents@).len() && (#[trigger] markers_view(idents@)[w]).0 == m.0@;
            assert(idents@[w].0@ == m.0@);
        }
    }
    let ghost before = idents@;
    idents.push(m);
    assert(markers_view(idents@) =~= markers_view(before).push((m.0@, m.1)));
    Ok(())
}

impl ContainerAttributes {
    /// The empty set of attributes.
    pub fn new() -> (r: ContainerAttributes)
        ensures
            r@ == ContainerAttributesView::empty(),
    {
        let r = ContainerAttributes {
            debug: TraitImpl::NotImplemented,
            hash: TraitImpl::NotImplemented,
            partial_eq: TraitImpl::NotImplemented,
            from_reflect_attrs: FromReflectAttrs::new(),
            type_path_attrs: TypePathAttrs { auto_derive: None },
            custom_where: None,
            no_field_bounds: false,
            idents: Vec::new(),
        };
        assert(r@.idents =~= Seq::<MarkerView>::empty());
        r
    }

    /// Merges the `where` clause `other` into `this` (see [`where_merge`]).
    pub fn merge_custom_where(this: &mut Option<Vec<Token>>, other: Option<Vec<Token>>)
        ensures
            match *final(this) {
                Some(w) => where_merge(
                    match *old(this) { Some(x) => Some(tokens_view(x@)), None => None },
                    match other { Some(y) => Some(tokens_view(y@)), None => None },
                ) == Some(tokens_view(w@)),
                None => where_merge(
                    match *old(this) { Some(x) => Some(tokens_view(x@)), None => None },
                    match other { Some(y) => Some(tokens_view(y@)), None => None },
                ) is None,
            },
    {
        match other {
            None => {},
            Some(mut y) => {
                match this {
                    None => {
                        *this = Some(y);
                    },
                    Some(x) => {
                        let ghost x0 = x@;
                        let ghost y0 = y@;
                        let n = x.len();
                        if n > 0 && !x[n - 1].is_punct(',') {
                            x.push(Token::Punct(','));
                        }
                        x.append(&mut y);
                        proof {
                            let sep = seq![TokenView::Punct(',')];
                            if x0.len() == 0 || tokens_view(x0).last() == TokenView::Punct(',') {
                                assert(tokens_view(x@) =~= tokens_view(x0) + tokens_view(y0));
                            } else {
                                assert(tokens_view(x@) =~= tokens_view(x0) + sep + tokens_view(y0));
                            }
                        }
                    },
                }
            },
        }
    }

    /// Merges the attributes of another `#[reflect(...)]` list of the same
    /// declaration into this one (see [`attrs_merge`]).
    pub fn merge(&mut self, other: ContainerAttributes) -> (r: Result<(), ReflectError>)
        requires
            old(self)@.wf(),
        ensures
            match attrs_merge(old(self)@, other@) {
                Ok(m) => r is Ok && final(self)@ == m && m.wf(),
                Err(e) => r == Err::<(), ReflectError>(e),
            },
    {
        let ghost a = self@;
        let ghost b = other@;
        let ContainerAttributes {
            debug,
            hash,
            partial_eq,
            from_reflect_attrs,
            type_path_attrs,
            custom_where,
            no_field_bounds,
            idents,
        } = other;
        self.debug.merge(debug)?;
        self.hash.merge(hash)?;
        self.partial_eq.merge(partial_eq)?;
        self.from_reflect_attrs.merge(from_reflect_attrs)?;
        self.type_path_attrs.merge(type_path_attrs)?;
        Self::merge_custom_where(&mut self.custom_where, custom_where);
        self.no_field_bounds = self.no_field_bounds || no_field_bounds;
        let ghost mid = self@;
        assert(trait_merge(a.debug, b.debug) == Ok::<TraitImplView, ReflectError>(mid.debug));
        assert(trait_merge(a.hash, b.hash) == Ok::<TraitImplView, ReflectError>(mid.hash));
        assert(trait_merge(a.partial_eq, b.partial_eq) == Ok::<TraitImplView, ReflectError>(mid.partial_eq));
        assert(from_reflect_merge(a.from_reflect, b.from_reflect) == Ok::<FromReflectAttrsView, ReflectError>(mid.from_reflect));
        assert(type_path_merge(a.type_path, b.type_path) == Ok::<TypePathAttrs, ReflectError>(mid.type_path));
        assert(where_merge(a.custom_where, b.custom_where) == mid.custom_where);
        assert(b.idents.subrange(0, 0) =~= Seq::<MarkerView>::empty());
        let mut i: usize = 0;
        while i < idents.len()
            invariant
                i <= idents@.len(),
                markers_view(idents@) == b.idents,
                markers_merge(a.idents, b.idents.subrange(0, i as int)) == Ok::<Seq<MarkerView>, ReflectError>(
                    markers_view(self.idents@),
                ),
                markers_unique(markers_view(self.idents@)),
                self@.debug == mid.debug && self@.hash == mid.hash && self@.partial_eq == mid.partial_eq,
                self@.from_reflect == mid.from_reflect && self@.type_path == mid.type_path,
                self@.custom_where == mid.custom_where && self@.no_field_bounds == mid.no_field_bounds,
                trait_merge(a.debug, b.debug) == Ok::<TraitImplView, ReflectError>(mid.debug),
                trait_merge(a.hash, b.hash) == Ok::<TraitImplView, ReflectError>(mid.hash),
                trait_merge(a.partial_eq, b.partial_eq) == Ok::<TraitImplView, ReflectError>(mid.partial_eq),
                from_reflect_merge(a.from_reflect, b.from_reflect) == Ok::<FromReflectAttrsView, ReflectError>(mid.from_reflect),
                type_path_merge(a.type_path, b.type_path) == Ok::<TypePathAttrs, ReflectError>(mid.type_path),
                where_merge(a.custom_where, b.custom_where) == mid.custom_where,
                mid.no_field_bounds == (a.no_field_bounds || b.no_field_bounds),
                a == old(self)@,
                b == other@,
            decreases idents@.len() - i,
        {
            let ghost before = markers_view(self.idents@);
            let m = (idents[i].0.clone(), idents[i].1);
            assert((m.0@, m.1) == b.idents[i as int]);
            let res = add_unique_ident(&mut self.idents, m);
            assert(b.idents.subrange(0, i + 1).drop_last() =~= b.idents.subrange(0, i as int));
            assert(b.idents.subrange(0, i + 1).last() == b.idents[i as int]);
            if let Err(e) = res {
                proof {
                    assert(markers_merge(a.idents, b.idents.subrange(0, i + 1)) == Err::<Seq<MarkerView>, ReflectError>(e));
                    lemma_markers_merge_prefix_err(a.idents, b.idents, i + 1);
                    assert(markers_merge(a.idents, b.idents) == Err::<Seq<MarkerView>, ReflectError>(e));
                    assert(attrs_merge(a, b) == Err::<ContainerAttributesView, ReflectError>(e));
                }
                return Err(e);
            }
            proof {
                let after = markers_view(self.idents@);
                assert(after == before.push(b.idents[i as int]));
                assert forall|p: int, q: int| 0 <= p < q < after.len() implies (#[trigger] after[p]).0 != (#[trigger] after[q]).0 by {
                    if q == after.len() - 1 {
                        assert(before[p] == after[p]);
                        assert(!has_marker(before, b.idents[i as int].0));
                    } else {
                        assert(before[p] == after[p] && before[q] == after[q]);
                    }
                }
            }
            i += 1;
        }
        assert(b.idents.subrange(0, i as int) =~= b.idents);
        assert(self@.debug == mid.debug && self@.hash == mid.hash && self@.partial_eq == mid.partial_eq);
        assert(self@.from_reflect == mid.from_reflect && self@.type_path == mid.type_path);
        assert(self@.custom_where == mid.custom_where && self@.no_field_bounds == mid.no_field_bounds);
        Ok(())
    }
}


/// The `reflect_hash` method for a registration, if `Hash` is registered:
/// hashing the type id and the value with the type's own `Hash`, or the
/// value of the custom function, wrapped in `Some`.
pub open spec fn hash_impl_text(t: TraitImplView, path: Seq<char>) -> Option<Seq<char>> {
    match t {
        TraitImplView::NotImplemented => None,
        TraitImplView::Implemented(_) => Some(
            "fn reflect_hash(&self) -> ::core::option::Option<u64> { use ::core::hash::{Hash, Hasher}; let mut hasher = "@
                + path
                + "::utility::reflect_hasher(); Hash::hash(&::core::any::Any::type_id(self), &mut hasher); Hash::hash(self, &mut hasher); ::core::option::Option::Some(Hasher::finish(&hasher)) }"@,
        ),
        TraitImplView::Custom(f, _) => Some(
            "fn reflect_hash(&self) -> ::core::option::Option<u64> { ::core::option::Option::Some("@ + f + "(self)) }"@,
        ),
    }
}

/// The `reflect_partial_eq` method for a registration, if `PartialEq` is
/// registered: the type's own `==` after a downcast (false for another
/// type), or the value of the custom function, wrapped in `Some`.
pub open spec fn partial_eq_impl_text(t: TraitImplView, path: Seq<char>) -> Option<Seq<char>> {
    match t {
        TraitImplView::NotImplemented => None,
        TraitImplView::Implemented(_) => Some(
            "fn reflect_partial_eq(&self, value: &dyn "@ + path
                + "::PartialReflect) -> ::core::option::Option<bool> { let value = <dyn "@ + path
                + "::PartialReflect>::as_any(value); if let ::core::option::Option::Some(value) = <dyn ::core::any::Any>::downcast_ref::<Self>(value) { ::core::option::Option::Some(::core::cmp::PartialEq::eq(self, value)) } else { ::core::option::Option::Some(false) } }"@,
        ),
        TraitImplView::Custom(f, _) => Some(
            "fn reflect_partial_eq(&self, value: &dyn "@ + path
                + "::PartialReflect) -> ::core::option::Option<bool> { ::core::option::Option::Some("@ + f
                + "(self, value)) }"@,
        ),
    }
}

/// The `debug` method for a registration, if `Debug` is registered: the
/// type's own `Debug`, or the custom function.
pub open spec fn debug_impl_text(t: TraitImplView) -> Option<Seq<char>> {
    match t {
        TraitImplView::NotImplemented => None,
        TraitImplView::Implemented(_) => Some(
            "fn debug(&self, f: &mut ::core::fmt::Formatter<'_>) -> ::core::fmt::Result { ::core::fmt::Debug::fmt(self, f) }"@,
        ),
        TraitImplView::Custom(p, _) => Some(
            "fn debug(&self, f: &mut ::core::fmt::Formatter<'_>) -> ::core::fmt::Result { "@ + p + "(self, f) }"@,
        ),
    }
}

impl ContainerAttributes {
    /// Whether the marker with the given `Reflect...` name is registered.
    pub fn contains(&self, name: &str) -> (r: bool)
        ensures
            r == has_marker(self@.idents, name@),
    {
        let target = String::from_str(name);
        let mut k: usize = 0;
        while k < self.idents.len()
            invariant
                k <= self.idents@.len(),
                target@ == name@,
                forall|j: int| 0 <= j < k ==> (#[trigger] self.idents@[j]).0@ != name@,
            decreases self.idents@.len() - k,
        {
            if self.idents[k].0 == target {
                assert(self@.idents[k as int].0 == name@);
                return true;
            }
            k += 1;
        }
        assert(!has_marker(self@.idents, name@)) by {
            if has_marker(self@.idents, name@) {
                let w = choose|w: int| 0 <= w < self@.idents.len() && (#[trigger] self@.idents[w]).0 == name@;
                assert(self.idents@[w].0@ == name@);
            }
        }
        false
    }

    /// The `reflect_hash` method to generate (see [`hash_impl_text`]).
    pub fn get_hash_impl(&self, bevy_reflect_path: &str) -> (r: Option<String>)
        ensures
            match hash_impl_text(self@.hash, bevy_reflect_path@) {
                Some(t) => r is Some && r.unwrap()@ == t,
                None => r is None,
            },
    {
        match &self.hash {
            TraitImpl::NotImplemented => None,
            TraitImpl::Implemented(_) => {
                let mut s = String::from_str(
                    "fn reflect_hash(&self) -> ::core::option::Option<u64> { use ::core::hash::{Hash, Hasher}; let mut hasher = ",
                );
                s.append(bevy_reflect_path);
                s.append(
                    "::utility::reflect_hasher(); Hash::hash(&::core::any::Any::type_id(self), &mut hasher); Hash::hash(self, &mut hasher); ::core::option::Option::Some(Hasher::finish(&hasher)) }",
                );
                Some(s)
            },
            TraitImpl::Custom(f, _) => {
                let mut s = String::from_str("fn reflect_hash(&self) -> ::core::option::Option<u64> { ::core::option::Option::Some(");
                s.append(f.as_str());
                s.append("(self)) }");
                Some(s)
            },
        }
    }

    /// The `reflect_partial_eq` method to generate (see [`partial_eq_impl_text`]).
    pub fn get_partial_eq_impl(&self, bevy_reflect_path: &str) -> (r: Option<String>)
        ensures
            match partial_eq_impl_text(self@.partial_eq, bevy_reflect_path@) {
                Some(t) => r is Some && r.unwrap()@ == t,
                None => r is None,
            },
    {
        match &self.partial_eq {
            TraitImpl::NotImplemented => None,
            TraitImpl::Implemented(_) => {
                let mut s = String::from_str("fn reflect_partial_eq(&self, value: &dyn ");
                s.append(bevy_reflect_path);
                s.append("::PartialReflect) -> ::core::option::Option<bool> { let value = <dyn ");
                s.append(bevy_reflect_path);
                s.append(
                    "::PartialReflect>::as_any(value); if let ::core::option::Option::Some(value) = <dyn ::core::any::Any>::downcast_ref::<Self>(value) { ::core::option::Option::Some(::core::cmp::PartialEq::eq(self, value)) } else { ::core::option::Option::Some(false) } }",
                );
                Some(s)
            },
            TraitImpl::Custom(f, _) => {
                let mut s = String::from_str("fn reflect_partial_eq(&self, value: &dyn ");
                s.append(bevy_reflect_path);
                s.append("::PartialReflect) -> ::core::option::Option<bool> { ::core::option::Option::Some(");
                s.append(f.as_str());
                s.append("(self, value)) }");
                Some(s)
            },
        }
    }

    /// The `debug` method to generate (see [`debug_impl_text`]).
    pub fn get_debug_impl(&self) -> (r: Option<String>)
        ensures
            match debug_impl_text(self@.debug) {
                Some(t) => r is Some && r.unwrap()@ == t,
                None => r is None,
            },
    {
        match &self.debug {
            TraitImpl::NotImplemented => None,
            TraitImpl::Implemented(_) => Some(
                String::from_str(
                    "fn debug(&self, f: &mut ::core::fmt::Formatter<'_>) -> ::core::fmt::Result { ::core::fmt::Debug::fmt(self, f) }",
                ),
            ),
            TraitImpl::Custom(p, _) => {
                let mut s = String::from_str("fn debug(&self, f: &mut ::core::fmt::Formatter<'_>) -> ::core::fmt::Result { ");
                s.append(p.as_str());
                s.append("(self, f) }");
                Some(s)
            },
        }
    }

    /// Whether `FromReflect` is derived along with `Reflect`.
    pub fn should_auto_derive_from_reflect(&self) -> (r: bool)
        ensures
            r == toggle_value(self@.from_reflect.auto_derive),
    {
        self.from_reflect_attrs.should_auto_derive()
    }

    /// Whether `TypePath` is derived along with `Reflect`.
    pub fn should_auto_derive_type_path(&self) -> (r: bool)
        ensures
            r == toggle_value(self@.type_path.auto_derive),
    {
        self.type_path_attrs.should_auto_derive()
    }

    /// The `FromReflect` configuration.
    pub fn from_reflect_attrs(&self) -> (r: &FromReflectAttrs)
        ensures
            r == &self.from_reflect_attrs,
    {
        &self.from_reflect_attrs
    }

    /// The `TypePath` configuration.
    pub fn type_path_attrs(&self) -> (r: &TypePathAttrs)
        ensures
            r == &self.type_path_attrs,
    {
        &self.type_path_attrs
    }

    /// The tokens of the custom `where` clause, if one was given.
    pub fn custom_where(&self) -> (r: Option<&Vec<Token>>)
        ensures
            match r {
                Some(w) => self@.custom_where == Some(tokens_view(w@)),
                None => self@.custom_where is None,
            },
    {
        match &self.custom_where {
            Some(w) => Some(w),
            None => None,
        }
    }

    /// Whether `no_field_bounds` was given.
    pub fn no_field_bounds(&self) -> (r: bool)
        ensures
            r == self@.no_field_bounds,
    {
        self.no_field_bounds
    }

    /// The registered markers, by the name of their `Reflect...` type data.
    pub fn idents(&self) -> (r: &Vec<(String, usize)>)
        ensures
            markers_view(r@) == self@.idents,
    {
        &self.idents
    }
}

} // verus!
