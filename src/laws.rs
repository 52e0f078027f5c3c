//! Laws of merging attribute sets.
use vstd::prelude::*;

use crate::container_attributes::{
    attrs_merge, has_marker, markers_merge, markers_unique, where_merge, BoolLit, ContainerAttributesView,
    FromReflectAttrsView, MarkerView, TraitImplView, TypePathAttrs,
};
use crate::error::{ErrorKind, ReflectError};

verus! {

/// Both sides register the special trait.
pub open spec fn both_set(a: TraitImplView, b: TraitImplView) -> bool {
    a.is_set() && b.is_set()
}

/// Both toggles are set, to different values.
pub open spec fn toggles_differ(a: Option<BoolLit>, b: Option<BoolLit>) -> bool {
    a is Some && b is Some && a.unwrap().value != b.unwrap().value
}

/// Some marker name is registered on both sides.
pub open spec fn shares_marker(a: Seq<MarkerView>, b: Seq<MarkerView>) -> bool {
    exists|i: int, j: int| 0 <= i < a.len() && 0 <= j < b.len() && (#[trigger] a[i]).0 == (#[trigger] b[j]).0
}

pub open spec fn special_conflict(a: ContainerAttributesView, b: ContainerAttributesView) -> bool {
    both_set(a.debug, b.debug) || both_set(a.hash, b.hash) || both_set(a.partial_eq, b.partial_eq)
}

pub open spec fn default_conflict(a: ContainerAttributesView, b: ContainerAttributesView) -> bool {
    a.from_reflect.container_default is Some && b.from_reflect.container_default is Some
}

/// The ways in which two attribute sets can conflict.
pub open spec fn conflicts(a: ContainerAttributesView, b: ContainerAttributesView) -> bool {
    special_conflict(a, b) || shares_marker(a.idents, b.idents) || default_conflict(a, b)
        || toggles_differ(a.from_reflect.auto_derive, b.from_reflect.auto_derive)
        || toggles_differ(a.type_path.auto_derive, b.type_path.auto_derive)
}

/// No slot, toggle or marker is given on both sides.
pub open spec fn disjoint(a: ContainerAttributesView, b: ContainerAttributesView) -> bool {
    !special_conflict(a, b) && !shares_marker(a.idents, b.idents) && !default_conflict(a, b)
        && !(a.from_reflect.auto_derive is Some && b.from_reflect.auto_derive is Some)
        && !(a.type_path.auto_derive is Some && b.type_path.auto_derive is Some)
}

pub open spec fn pick<T>(a_set: bool, x: T, y: T) -> T {
    if a_set { x } else { y }
}

/// What merging two disjoint sets gives: each slot from the side that set it.
pub open spec fn union(a: ContainerAttributesView, b: ContainerAttributesView) -> ContainerAttributesView {
    ContainerAttributesView {
        debug: pick(a.debug.is_set(), a.debug, b.debug),
        hash: pick(a.hash.is_set(), a.hash, b.hash),
        partial_eq: pick(a.partial_eq.is_set(), a.partial_eq, b.partial_eq),
        from_reflect: FromReflectAttrsView {
            auto_derive: pick(a.from_reflect.auto_derive is Some, a.from_reflect.auto_derive, b.from_reflect.auto_derive),
            container_default: pick(
                a.from_reflect.container_default is Some,
                a.from_reflect.container_default,
                b.from_reflect.container_default,
            ),
        },
        type_path: TypePathAttrs {
            auto_derive: pick(a.type_path.auto_derive is Some, a.type_path.auto_derive, b.type_path.auto_derive),
        },
        custom_where: where_merge(a.custom_where, b.custom_where),
        no_field_bounds: a.no_field_bounds || b.no_field_bounds,
        idents: a.idents + b.idents,
    }
}

/// Registering the markers of `b` after those of `a` fails exactly when a
/// name is on both sides, and otherwise keeps both lists in order.
pub proof fn lemma_markers_merge(a: Seq<MarkerView>, b: Seq<MarkerView>)
    requires
        markers_unique(a),
        markers_unique(b),
    ensures
        markers_merge(a, b) is Err <==> shares_marker(a, b),
        markers_merge(a, b) is Ok ==> markers_merge(a, b) == Ok::<Seq<MarkerView>, ReflectError>(a + b),
    decreases b.len(),
{
    if b.len() == 0 {
        assert(a + b =~= a);
    } else {
        let p = b.drop_last();
        let m = b.last();
        assert(markers_unique(p));
        lemma_markers_merge(a, p);
        if shares_marker(a, p) {
            let (i, j) = choose|i: int, j: int| 0 <= i < a.len() && 0 <= j < p.len() && (#[trigger] a[i]).0 == (#[trigger] p[j]).0;
            assert(b[j] == p[j]);
        } else {
            let l = a + p;
            if has_marker(l, m.0) {
                let k = choose|k: int| 0 <= k < l.len() && (#[trigger] l[k]).0 == m.0;
                if k < a.len() {
                    assert(a[k].0 == b[b.len() - 1].0);
                } else {
                    assert(b[k - a.len()] == p[k - a.len()]);
                    assert(false);
                }
            } else {
                assert(l.push(m) =~= a + b);
                if shares_marker(a, b) {
                    let (i, j) = choose|i: int, j: int| 0 <= i < a.len() && 0 <= j < b.len() && (#[trigger] a[i]).0 == (#[trigger] b[j]).0;
                    if j < p.len() {
                        assert(p[j] == b[j]);
                    } else {
                        assert(l[i] == a[i]);
                    }
                }
            }
        }
    }
}

/// An error of registering markers is a conflict at a marker of `b`.
pub proof fn lemma_markers_merge_err(a: Seq<MarkerView>, b: Seq<MarkerView>)
    ensures
        match markers_merge(a, b) {
            Err(e) => e.kind == ErrorKind::ConflictingRegistration && exists|j: int| 0 <= j < b.len() && e.span == (#[trigger] b[j]).1,
            Ok(_) => true,
        },
    decreases b.len(),
{
    if b.len() > 0 {
        lemma_markers_merge_err(a, b.drop_last());
        if let Err(e) = markers_merge(a, b.drop_last()) {
            let j = choose|j: int| 0 <= j < b.drop_last().len() && e.span == (#[trigger] b.drop_last()[j]).1;
            assert(b[j] == b.drop_last()[j]);
        } else {
            assert(b[b.len() - 1] == b.last());
        }
    }
}

/// When a special trait, or a marker, is registered in both sets, merging
/// fails with a conflicting-registration error at a registration of the
/// second set; for a marker, this holds when no special trait, toggle or
/// container default conflicts first.
pub proof fn law_merge_conflict_error(a: ContainerAttributesView, b: ContainerAttributesView)
    requires
        a.wf(),
        b.wf(),
    ensures
        special_conflict(a, b) ==> (attrs_merge(a, b) matches Err(e) && e.kind == ErrorKind::ConflictingRegistration
            && (e.span == b.debug.span() || e.span == b.hash.span() || e.span == b.partial_eq.span())),
        shares_marker(a.idents, b.idents) && !special_conflict(a, b) && !default_conflict(a, b)
            && !toggles_differ(a.from_reflect.auto_derive, b.from_reflect.auto_derive)
            && !toggles_differ(a.type_path.auto_derive, b.type_path.auto_derive)
            ==> (attrs_merge(a, b) matches Err(e) && e.kind == ErrorKind::ConflictingRegistration
            && exists|j: int| 0 <= j < b.idents.len() && e.span == (#[trigger] b.idents[j]).1),
{
    lemma_markers_merge(a.idents, b.idents);
    lemma_markers_merge_err(a.idents, b.idents);
    if shares_marker(a.idents, b.idents) && !special_conflict(a, b) && !default_conflict(a, b)
        && !toggles_differ(a.from_reflect.auto_derive, b.from_reflect.auto_derive)
        && !toggles_differ(a.type_path.auto_derive, b.type_path.auto_derive) {
        assert(attrs_merge(a, b) is Err);
        if let Err(e) = markers_merge(a.idents, b.idents) {
            assert(attrs_merge(a, b) == Err::<ContainerAttributesView, ReflectError>(e));
        }
    }
}

/// Merging fails exactly when the two sets conflict.
pub proof fn lemma_merge_fails_iff_conflict(a: ContainerAttributesView, b: ContainerAttributesView)
    requires
        a.wf(),
        b.wf(),
    ensures
        attrs_merge(a, b) is Err <==> conflicts(a, b),
{
    lemma_markers_merge(a.idents, b.idents);
}

/// Merging two sets that set disjoint slots, toggles and markers succeeds,
/// and the result holds each setting of either side; markers keep their
/// order, first side first.
pub proof fn law_merge_disjoint(a: ContainerAttributesView, b: ContainerAttributesView)
    requires
        a.wf(),
        b.wf(),
        disjoint(a, b),
    ensures
        attrs_merge(a, b) == Ok::<ContainerAttributesView, ReflectError>(union(a, b)),
{
    lemma_markers_merge(a.idents, b.idents);
}

/// Merging fails in one order exactly when it fails in the other, and it
/// fails whenever a special trait or a marker is registered on both sides.
pub proof fn law_merge_conflict_symmetric(a: ContainerAttributesView, b: ContainerAttributesView)
    requires
        a.wf(),
        b.wf(),
    ensures
        attrs_merge(a, b) is Err <==> attrs_merge(b, a) is Err,
        special_conflict(a, b) || shares_marker(a.idents, b.idents) ==> attrs_merge(a, b) is Err && attrs_merge(b, a) is Err,
{
    lemma_merge_fails_iff_conflict(a, b);
    lemma_merge_fails_iff_conflict(b, a);
    if shares_marker(a.idents, b.idents) {
        let (i, j) = choose|i: int, j: int| 0 <= i < a.idents.len() && 0 <= j < b.idents.len() && (#[trigger] a.idents[i]).0 == (#[trigger] b.idents[j]).0;
        assert(b.idents[j].0 == a.idents[i].0);
    }
    if shares_marker(b.idents, a.idents) {
        let (i, j) = choose|i: int, j: int| 0 <= i < b.idents.len() && 0 <= j < a.idents.len() && (#[trigger] b.idents[i]).0 == (#[trigger] a.idents[j]).0;
        assert(a.idents[j].0 == b.idents[i].0);
    }
}

/// With `from_reflect` set on both sides and no other conflict, merging
/// succeeds exactly when the two values agree, and keeps that value.
pub proof fn law_from_reflect_set_twice(a: ContainerAttributesView, b: ContainerAttributesView)
    requires
        a.wf(),
        b.wf(),
        a.from_reflect.auto_derive is Some,
        b.from_reflect.auto_derive is Some,
        !special_conflict(a, b),
        !shares_marker(a.idents, b.idents),
        !default_conflict(a, b),
        !toggles_differ(a.type_path.auto_derive, b.type_path.auto_derive),
    ensures
        attrs_merge(a, b) is Ok <==> a.from_reflect.auto_derive.unwrap().value == b.from_reflect.auto_derive.unwrap().value,
        attrs_merge(a, b) is Ok ==> attrs_merge(a, b).unwrap().from_reflect.auto_derive == a.from_reflect.auto_derive,
{
    lemma_merge_fails_iff_conflict(a, b);
}

/// With `type_path` set on both sides and no other conflict, merging
/// succeeds exactly when the two values agree, and keeps that value.
pub proof fn law_type_path_set_twice(a: ContainerAttributesView, b: ContainerAttributesView)
    requires
        a.wf(),
        b.wf(),
        a.type_path.auto_derive is Some,
        b.type_path.auto_derive is Some,
        !special_conflict(a, b),
        !shares_marker(a.idents, b.idents),
        !default_conflict(a, b),
        !toggles_differ(a.from_reflect.auto_derive, b.from_reflect.auto_derive),
    ensures
        attrs_merge(a, b) is Ok <==> a.type_path.auto_derive.unwrap().value == b.type_path.auto_derive.unwrap().value,
        attrs_merge(a, b) is Ok ==> attrs_merge(a, b).unwrap().type_path.auto_derive == a.type_path.auto_derive,
{
    lemma_merge_fails_iff_conflict(a, b);
}

/// A marker registered in two attribute lists of one declaration makes the
/// merge fail, whichever list comes first.
pub proof fn law_marker_twice_across_lists(a: ContainerAttributesView, b: ContainerAttributesView, name: Seq<char>)
    requires
        a.wf(),
        b.wf(),
        has_marker(a.idents, name),
        has_marker(b.idents, name),
    ensures
        attrs_merge(a, b) is Err,
        attrs_merge(b, a) is Err,
{
    let i = choose|i: int| 0 <= i < a.idents.len() && (#[trigger] a.idents[i]).0 == name;
    let j = choose|j: int| 0 <= j < b.idents.len() && (#[trigger] b.idents[j]).0 == name;
    assert(a.idents[i].0 == b.idents[j].0);
    law_merge_conflict_symmetric(a, b);
}

} // verus!
