//! Everything generated for one declaration.
use vstd::prelude::*;

use crate::container_attributes::toggle_value;
use crate::derive_data::{active_type_views, enum_type_views, strings_view, ReflectDerive, ReflectMeta, ReflectStruct};
use crate::from_reflect::{
    enum_from_reflect_text, impl_enum, impl_struct, impl_tuple_struct as from_reflect_tuple_struct,
    impl_value as from_reflect_value, struct_from_reflect_text, value_from_reflect_text,
};
use crate::impls::{impl_tuple_struct_with, impl_value, registration_of, tuple_struct_impls_text, value_impls_text};
use crate::registration::where_clause_text;
use crate::serialization::bitset_contents;
use crate::typed::{full_reflect_text, impl_full_reflect, impl_type_path, type_path_impl_text};

verus! {

/// The where clause of the reflection impls of a declaration.
pub open spec fn where_of(d: &ReflectDerive) -> Seq<char> {
    match d {
        ReflectDerive::Struct(s) | ReflectDerive::TupleStruct(s) | ReflectDerive::UnitStruct(s) => where_clause_text(
            &s.meta,
            active_type_views(s.fields@),
            s.meta.bevy_reflect_path@ + "::"@ + "Reflect"@,
        ),
        ReflectDerive::Enum(e) => where_clause_text(
            &e.meta,
            enum_type_views(e.variants@),
            e.meta.bevy_reflect_path@ + "::"@ + "FromReflect"@,
        ),
        ReflectDerive::Value(m) => where_clause_text(m, Seq::empty(), Seq::empty()),
    }
}

pub open spec fn meta_of(d: &ReflectDerive) -> &ReflectMeta {
    match d {
        ReflectDerive::Struct(s) | ReflectDerive::TupleStruct(s) | ReflectDerive::UnitStruct(s) => &s.meta,
        ReflectDerive::Enum(e) => &e.meta,
        ReflectDerive::Value(m) => m,
    }
}

/// The where clause of a struct's reflection impls.
pub open spec fn struct_where(s: &ReflectStruct) -> Seq<char> {
    where_clause_text(&s.meta, active_type_views(s.fields@), s.meta.bevy_reflect_path@ + "::"@ + "Reflect"@)
}

/// The impls of a struct (`tuple`: of a tuple struct) after its `TypePath`
/// impl, with the registration listing the positions `skipped`.
pub open spec fn struct_texts(s: &ReflectStruct, tuple: bool, skipped: Seq<usize>) -> Seq<Seq<char>> {
    let wc = struct_where(s);
    let from = toggle_value(s.meta.traits@.from_reflect.auto_derive);
    if tuple {
        seq![tuple_struct_impls_text(s, registration_of(&s.meta, wc, skipped))] + if from {
            seq![struct_from_reflect_text(s, true)]
        } else {
            Seq::empty()
        }
    } else {
        seq![full_reflect_text(&s.meta, wc), registration_of(&s.meta, wc, skipped)] + if from {
            seq![struct_from_reflect_text(s, false)]
        } else {
            Seq::empty()
        }
    }
}

/// The skipped serialization positions of a struct, in increasing order.
pub open spec fn lists_positions(s: &ReflectStruct, skipped: Seq<usize>) -> bool {
    &&& forall|i: int, j: int| 0 <= i < j < skipped.len() ==> skipped[i] < skipped[j]
    &&& forall|n: nat| bitset_contents(s.serialization_denylist).contains(n) <==> exists|i: int| 0 <= i < skipped.len() && skipped[i] as nat == n
}

/// The impls generated for a declaration, in order: the `TypePath` impl
/// unless `type_path = false`; then by shape the `Reflect` impls (a struct's
/// with its registration listing the skipped serialization positions
/// `skipped`); then the `FromReflect` impl unless `from_reflect = false`.
pub open spec fn generated_texts(d: &ReflectDerive, skipped: Seq<usize>) -> Seq<Seq<char>> {
    let meta = meta_of(d);
    let wc = where_of(d);
    let first = if toggle_value(meta.traits@.type_path.auto_derive) {
        seq![type_path_impl_text(meta, wc)]
    } else {
        Seq::empty()
    };
    let from = toggle_value(meta.traits@.from_reflect.auto_derive);
    first + match d {
        ReflectDerive::Struct(s) | ReflectDerive::UnitStruct(s) => struct_texts(s, false, skipped),
        ReflectDerive::TupleStruct(s) => struct_texts(s, true, skipped),
        ReflectDerive::Enum(e) => seq![full_reflect_text(meta, wc)] + if from {
            seq![enum_from_reflect_text(e)]
        } else {
            Seq::empty()
        },
        ReflectDerive::Value(m) => seq![value_impls_text(m)] + if from { seq![value_from_reflect_text(m)] } else { Seq::empty() },
    }
}

/// The skipped serialization positions of a struct, in increasing order.
pub open spec fn lists_denylist(d: &ReflectDerive, skipped: Seq<usize>) -> bool {
    match d {
        ReflectDerive::Struct(s) | ReflectDerive::TupleStruct(s) | ReflectDerive::UnitStruct(s) => lists_positions(s, skipped),
        _ => true,
    }
}

/// The impls of a struct after its `TypePath` impl (see [`struct_texts`]).
fn generate_struct(s: &ReflectStruct, tuple: bool) -> (r: Vec<String>)
    requires
        s.meta.path_to_type.wf(),
    ensures
        exists|skipped: Seq<usize>| lists_positions(s, skipped) && strings_view(r@) == struct_texts(s, tuple, skipped),
{
    let skipped = crate::serialization::denylist_indices(&s.serialization_denylist);
    let wc = s.where_clause_options();
    let mut out: Vec<String> = Vec::new();
    if tuple {
        out.push(impl_tuple_struct_with(s, wc.as_str(), &skipped));
        if s.meta.traits.should_auto_derive_from_reflect() {
            out.push(from_reflect_tuple_struct(s));
        }
    } else {
        out.push(impl_full_reflect(&s.meta, wc.as_str()));
        out.push(crate::registration::impl_get_type_registration(&s.meta, wc.as_str(), &skipped));
        if s.meta.traits.should_auto_derive_from_reflect() {
            out.push(impl_struct(s));
        }
    }
    assert(lists_positions(s, skipped@));
    assert(strings_view(out@) =~= struct_texts(s, tuple, skipped@));
    out
}

impl ReflectDerive {
    /// The impls generated for the declaration (see [`generated_texts`]).
    #[verifier::rlimit(60)]
    pub fn generate(&self) -> (r: Vec<String>)
        requires
            meta_of(self).path_to_type.wf(),
        ensures
            exists|skipped: Seq<usize>| lists_denylist(self, skipped) && strings_view(r@) == generated_texts(self, skipped),
    {
        let meta = self.meta();
        let wc = match self {
            ReflectDerive::Struct(s) | ReflectDerive::TupleStruct(s) | ReflectDerive::UnitStruct(s) => s.where_clause_options(),
            ReflectDerive::Enum(e) => e.where_clause_options(),
            ReflectDerive::Value(m) => m.where_clause_options(),
        };
        let mut out: Vec<String> = Vec::new();
        if meta.traits.should_auto_derive_type_path() {
            out.push(impl_type_path(meta, wc.as_str()));
        }
        let ghost first = strings_view(out@);
        let from = meta.traits.should_auto_derive_from_reflect();
        let mut rest: Vec<String> = Vec::new();
        match self {
            ReflectDerive::Struct(s) | ReflectDerive::UnitStruct(s) => {
                rest = generate_struct(s, false);
            },
            ReflectDerive::TupleStruct(s) => {
                rest = generate_struct(s, true);
            },
            ReflectDerive::Enum(e) => {
                rest.push(impl_full_reflect(meta, wc.as_str()));
                if from {
                    rest.push(impl_enum(e));
                }
            },
            ReflectDerive::Value(m) => {
                rest.push(impl_value(m));
                if from {
                    rest.push(from_reflect_value(m));
                }
            },
        }
        let ghost tail = strings_view(rest@);
        out.append(&mut rest);
        proof {
            assert(strings_view(out@) =~= first + tail);
            if self is Enum || self is Value {
                assert(strings_view(out@) =~= generated_texts(self, Seq::<usize>::empty()));
            } else {
                let s = match self {
                    ReflectDerive::Struct(s) | ReflectDerive::TupleStruct(s) | ReflectDerive::UnitStruct(s) => s,
                    _ => arbitrary(),
                };
                let skipped = choose|skipped: Seq<usize>| lists_positions(s, skipped) && tail == struct_texts(s, self is TupleStruct, skipped);
                assert(strings_view(out@) =~= generated_texts(self, skipped));
            }
        }
        out
    }
}

} // verus!
