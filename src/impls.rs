//! Generation of the `PartialReflect` and `TupleStruct` impls of tuple
//! structs and value types.
use vstd::prelude::*;
use vstd::string::StringExecFns;

use crate::container_attributes::{debug_impl_text, hash_impl_text, partial_eq_impl_text};
use crate::debug_text::{decimal, write_decimal};
use crate::derive_data::{active_type_views, name_text, quoted, ReflectMeta, ReflectStruct, StructField};
use crate::field_attributes::IgnoreBehavior;
use crate::from_reflect::{active_before, is_active};
use crate::registration::{
    generics_text, impl_generics_text, impl_get_type_registration, registration_text, ty_generics_text, type_tokens,
    type_tokens_text, marker_names, where_clause_text,
};
use crate::serialization::bitset_contents;
use crate::typed::{full_reflect_text, impl_full_reflect, impl_typed, typed_impl_text};

verus! {

/// The per-field pieces of a tuple struct's impls.
#[derive(Clone, Copy, Debug, PartialEq, Eq, Structural)]
pub enum FieldPiece {
    /// An arm of `field`.
    Ref,
    /// An arm of `field_mut`.
    Mut,
    /// The insertion into the dynamic copy.
    Insert,
    /// The field's entry in the type info.
    Info,
}

/// The piece for an active field at `position` among the active fields.
pub open spec fn field_piece_text(piece: FieldPiece, path: Seq<char>, f: &StructField, position: nat) -> Seq<char> {
    let member = decimal(f.index as nat);
    match piece {
        FieldPiece::Ref => decimal(position) + " => ::core::option::Option::Some(&self."@ + member + "), "@,
        FieldPiece::Mut => decimal(position) + " => ::core::option::Option::Some(&mut self."@ + member + "), "@,
        FieldPiece::Insert => "dynamic.insert_boxed("@ + path + "::PartialReflect::clone_value(&self."@ + member + ")); "@,
        FieldPiece::Info => path + "::UnnamedField::new::<"@ + f.ty@ + ">("@ + member + "), "@,
    }
}

/// The piece of each active field among the first `n`, in order.
pub open spec fn field_pieces_text(piece: FieldPiece, path: Seq<char>, fs: Seq<StructField>, n: int) -> Seq<char>
    decreases n,
{
    if n <= 0 {
        Seq::empty()
    } else {
        field_pieces_text(piece, path, fs, n - 1) + if is_active(&fs[n - 1]) {
            field_piece_text(piece, path, &fs[n - 1], active_before(fs, n - 1))
        } else {
            Seq::empty()
        }
    }
}

fn field_piece(piece: FieldPiece, path: &str, f: &StructField, position: usize) -> (r: String)
    ensures
        r@ == field_piece_text(piece, path@, f, position as nat),
{
    let mut r = String::new();
    match piece {
        FieldPiece::Ref => {
            write_decimal(&mut r, position as u64);
            r.append(" => ::core::option::Option::Some(&self.");
            write_decimal(&mut r, f.index as u64);
            r.append("), ");
        },
        FieldPiece::Mut => {
            write_decimal(&mut r, position as u64);
            r.append(" => ::core::option::Option::Some(&mut self.");
            write_decimal(&mut r, f.index as u64);
            r.append("), ");
        },
        FieldPiece::Insert => {
            r.append("dynamic.insert_boxed(");
            r.append(path);
            r.append("::PartialReflect::clone_value(&self.");
            write_decimal(&mut r, f.index as u64);
            r.append(")); ");
        },
        FieldPiece::Info => {
            r.append(path);
            r.append("::UnnamedField::new::<");
            r.append(f.ty.as_str());
            r.append(">(");
            write_decimal(&mut r, f.index as u64);
            r.append("), ");
        },
    }
    r
}

/// Appends the piece of each active field, and returns how many there are.
fn write_field_pieces(out: &mut String, piece: FieldPiece, path: &str, fs: &Vec<StructField>) -> (r: usize)
    ensures
        final(out)@ == old(out)@ + field_pieces_text(piece, path@, fs@, fs@.len() as int),
        r == active_before(fs@, fs@.len() as int),
{
    let ghost start = out@;
    let mut position: usize = 0;
    let mut i: usize = 0;
    while i < fs.len()
        invariant
            i <= fs@.len(),
            position == active_before(fs@, i as int),
            position <= i,
            out@ == start + field_pieces_text(piece, path@, fs@, i as int),
        decreases fs@.len() - i,
    {
        if fs[i].attrs.ignore != IgnoreBehavior::IgnoreAlways {
            let p = field_piece(piece, path, &fs[i], position);
            out.append(p.as_str());
            position = position + 1;
        }
        assert(out@ =~= start + field_pieces_text(piece, path@, fs@, i + 1));
        i += 1;
    }
    position
}

pub open spec fn opt_text(o: Option<Seq<char>>) -> Seq<char> {
    match o {
        Some(t) => t,
        None => Seq::empty(),
    }
}

/// The `reflect_partial_eq` method of a tuple struct without a registered
/// `PartialEq`: field-by-field comparison.
pub open spec fn tuple_struct_partial_eq_text(path: Seq<char>) -> Seq<char> {
    "fn reflect_partial_eq(&self, value: &dyn "@ + path + "::PartialReflect) -> ::core::option::Option<bool> { "@ + path
        + "::tuple_struct_partial_eq(self, value) }"@
}

/// The `TupleStruct` impl: field access by position among the reflected
/// fields, their number, and a dynamic copy.
pub open spec fn tuple_struct_trait_text(s: &ReflectStruct, where_clause: Seq<char>) -> Seq<char> {
    let path = s.meta.bevy_reflect_path@;
    let fs = s.fields@;
    let n = fs.len() as int;
    "impl"@ + impl_generics_text(s.meta.generics@) + " "@ + path + "::TupleStruct for "@ + type_tokens_text(&s.meta.path_to_type)
        + ty_generics_text(s.meta.generics@) + where_clause + " { fn field(&self, index: usize) -> ::core::option::Option<&dyn "@ + path
        + "::PartialReflect> { match index { "@ + field_pieces_text(FieldPiece::Ref, path, fs, n)
        + "_ => ::core::option::Option::None, } } fn field_mut(&mut self, index: usize) -> ::core::option::Option<&mut dyn "@
        + path + "::PartialReflect> { match index { "@ + field_pieces_text(FieldPiece::Mut, path, fs, n)
        + "_ => ::core::option::Option::None, } } fn field_len(&self) -> usize { "@ + decimal(active_before(fs, n))
        + " } fn iter_fields(&self) -> "@ + path + "::TupleStructFieldIter { "@ + path
        + "::TupleStructFieldIter::new(self) } fn clone_dynamic(&self) -> "@ + path + "::DynamicTupleStruct { let mut dynamic: "@
        + path + "::DynamicTupleStruct = ::core::default::Default::default(); dynamic.set_name(::std::string::ToString::to_string("@
        + path + "::PartialReflect::reflect_type_path(self))); "@ + field_pieces_text(FieldPiece::Insert, path, fs, n)
        + "dynamic } }"@
}

fn tuple_struct_trait(s: &ReflectStruct, where_clause: &str) -> (r: String)
    ensures
        r@ == tuple_struct_trait_text(s, where_clause@),
{
    let path = s.meta.bevy_reflect_path.as_str();
    let mut r = String::from_str("impl");
    r.append(generics_text(&s.meta.generics, true).as_str());
    r.append(" ");
    r.append(path);
    r.append("::TupleStruct for ");
    r.append(type_tokens(&s.meta.path_to_type).as_str());
    r.append(generics_text(&s.meta.generics, false).as_str());
    r.append(where_clause);
    r.append(" { fn field(&self, index: usize) -> ::core::option::Option<&dyn ");
    r.append(path);
    r.append("::PartialReflect> { match index { ");
    write_field_pieces(&mut r, FieldPiece::Ref, path, &s.fields);
    r.append("_ => ::core::option::Option::None, } } fn field_mut(&mut self, index: usize) -> ::core::option::Option<&mut dyn ");
    r.append(path);
    r.append("::PartialReflect> { match index { ");
    let count = write_field_pieces(&mut r, FieldPiece::Mut, path, &s.fields);
    r.append("_ => ::core::option::Option::None, } } fn field_len(&self) -> usize { ");
    write_decimal(&mut r, count as u64);
    r.append(" } fn iter_fields(&self) -> ");
    r.append(path);
    r.append("::TupleStructFieldIter { ");
    r.append(path);
    r.append("::TupleStructFieldIter::new(self) } fn clone_dynamic(&self) -> ");
    r.append(path);
    r.append("::DynamicTupleStruct { let mut dynamic: ");
    r.append(path);
    r.append("::DynamicTupleStruct = ::core::default::Default::default(); dynamic.set_name(::std::string::ToString::to_string(");
    r.append(path);
    r.append("::PartialReflect::reflect_type_path(self))); ");
    write_field_pieces(&mut r, FieldPiece::Insert, path, &s.fields);
    r.append("dynamic } }");
    r
}

/// The `PartialReflect` impl of a tuple struct or a value type: type info,
/// dynamic copy, application of another value, kind views, and the hash,
/// equality and debug methods given.
pub open spec fn partial_reflect_text(meta: &ReflectMeta, where_clause: Seq<char>, tuple: bool, hash: Seq<char>, partial_eq: Seq<char>, debug: Seq<char>) -> Seq<char> {
    let path = meta.bevy_reflect_path@;
    let kind = if tuple { "TupleStruct"@ } else { "Value"@ };
    let clone = if tuple {
        "::std::boxed::Box::new("@ + path + "::TupleStruct::clone_dynamic(self))"@
    } else {
        "::std::boxed::Box::new(::core::clone::Clone::clone(self))"@
    };
    let apply = if tuple {
        "if let "@ + path + "::ReflectRef::TupleStruct(struct_value) = "@ + path
            + "::PartialReflect::reflect_ref(value) { for (i, value) in ::core::iter::Iterator::enumerate("@ + path
            + "::TupleStruct::iter_fields(struct_value)) { "@ + path
            + "::TupleStruct::field_mut(self, i).map(|v| v.apply(value)); } } else { panic!(\"Attempted to apply non-TupleStruct type to TupleStruct type.\"); }"@
    } else {
        "if let ::core::option::Option::Some(value) = <dyn "@ + path
            + "::PartialReflect>::try_downcast_ref::<Self>(value) { *self = ::core::clone::Clone::clone(value); } else { panic!(\"Value is not {}.\", <Self as "@
            + path + "::TypePath>::type_path()); }"@
    };
    "impl"@ + impl_generics_text(meta.generics@) + " "@ + path + "::PartialReflect for "@ + type_tokens_text(&meta.path_to_type)
        + ty_generics_text(meta.generics@) + where_clause + " { #[inline] fn get_represented_type_info(&self) -> ::core::option::Option<&'static "@
        + path + "::TypeInfo> { ::core::option::Option::Some(<Self as "@ + path
        + "::Typed>::type_info()) } #[inline] fn clone_value(&self) -> ::std::boxed::Box<dyn "@ + path + "::PartialReflect> { "@
        + clone + " } #[inline] fn apply(&mut self, value: &dyn "@ + path + "::PartialReflect) { "@ + apply
        + " } fn reflect_ref(&self) -> "@ + path + "::ReflectRef { "@ + path + "::ReflectRef::"@ + kind
        + "(self) } fn reflect_mut(&mut self) -> "@ + path + "::ReflectMut { "@ + path + "::ReflectMut::"@ + kind
        + "(self) } fn reflect_owned(self: ::std::boxed::Box<Self>) -> "@ + path + "::ReflectOwned { "@ + path
        + "::ReflectOwned::"@ + kind + "(self) } "@ + hash + " "@ + partial_eq + " "@ + debug + " }"@
}

fn partial_reflect(meta: &ReflectMeta, where_clause: &str, tuple: bool, hash: &str, partial_eq: &str, debug: &str) -> (r: String)
    ensures
        r@ == partial_reflect_text(meta, where_clause@, tuple, hash@, partial_eq@, debug@),
{
    let path = meta.bevy_reflect_path.as_str();
    let kind = if tuple { "TupleStruct" } else { "Value" };
    let mut clone = String::new();
    let mut apply = String::new();
    if tuple {
        clone.append("::std::boxed::Box::new(");
        clone.append(path);
        clone.append("::TupleStruct::clone_dynamic(self))");
        apply.append("if let ");
        apply.append(path);
        apply.append("::ReflectRef::TupleStruct(struct_value) = ");
        apply.append(path);
        apply.append("::PartialReflect::reflect_ref(value) { for (i, value) in ::core::iter::Iterator::enumerate(");
        apply.append(path);
        apply.append("::TupleStruct::iter_fields(struct_value)) { ");
        apply.append(path);
        apply.append(
            "::TupleStruct::field_mut(self, i).map(|v| v.apply(value)); } } else { panic!(\"Attempted to apply non-TupleStruct type to TupleStruct type.\"); }",
        );
    } else {
        clone.append("::std::boxed::Box::new(::core::clone::Clone::clone(self))");
        apply.append("if let ::core::option::Option::Some(value) = <dyn ");
        apply.append(path);
        apply.append(
            "::PartialReflect>::try_downcast_ref::<Self>(value) { *self = ::core::clone::Clone::clone(value); } else { panic!(\"Value is not {}.\", <Self as ",
        );
        apply.append(path);
        apply.append("::TypePath>::type_path()); }");
    }
    let mut r = String::from_str("impl");
    r.append(generics_text(&meta.generics, true).as_str());
    r.append(" ");
    r.append(path);
    r.append("::PartialReflect for ");
    r.append(type_tokens(&meta.path_to_type).as_str());
    r.append(generics_text(&meta.generics, false).as_str());
    r.append(where_clause);
    r.append(" { #[inline] fn get_represented_type_info(&self) -> ::core::option::Option<&'static ");
    r.append(path);
    r.append("::TypeInfo> { ::core::option::Option::Some(<Self as ");
    r.append(path);
    r.append("::Typed>::type_info()) } #[inline] fn clone_value(&self) -> ::std::boxed::Box<dyn ");
    r.append(path);
    r.append("::PartialReflect> { ");
    r.append(clone.as_str());
    r.append(" } #[inline] fn apply(&mut self, value: &dyn ");
    r.append(path);
    r.append("::PartialReflect) { ");
    r.append(apply.as_str());
    r.append(" } fn reflect_ref(&self) -> ");
    r.append(path);
    r.append("::ReflectRef { ");
    r.append(path);
    r.append("::ReflectRef::");
    r.append(kind);
    r.append("(self) } fn reflect_mut(&mut self) -> ");
    r.append(path);
    r.append("::ReflectMut { ");
    r.append(path);
    r.append("::ReflectMut::");
    r.append(kind);
    r.append("(self) } fn reflect_owned(self: ::std::boxed::Box<Self>) -> ");
    r.append(path);
    r.append("::ReflectOwned { ");
    r.append(path);
    r.append("::ReflectOwned::");
    r.append(kind);
    r.append("(self) } ");
    r.append(hash);
    r.append(" ");
    r.append(partial_eq);
    r.append(" ");
    r.append(debug);
    r.append(" }");
    r
}

/// The type-info generator of a tuple struct: its active fields' entries
/// and its name.
pub open spec fn tuple_struct_info_text(s: &ReflectStruct) -> Seq<char> {
    let path = s.meta.bevy_reflect_path@;
    "let fields = ["@ + field_pieces_text(FieldPiece::Info, path, s.fields@, s.fields@.len() as int) + "]; let info = "@ + path
        + "::TupleStructInfo::new::<Self>("@ + quoted(name_text(&s.meta.path_to_type)) + ", &fields); "@ + path
        + "::TypeInfo::TupleStruct(info)"@
}

fn tuple_struct_partial_eq_impl(meta: &ReflectMeta) -> (r: String)
    ensures
        r@ == match partial_eq_impl_text(meta.traits@.partial_eq, meta.bevy_reflect_path@) {
            Some(x) => x,
            None => tuple_struct_partial_eq_text(meta.bevy_reflect_path@),
        },
{
    let path = meta.bevy_reflect_path.as_str();
    match meta.traits.get_partial_eq_impl(path) {
        Some(x) => x,
        None => {
            let mut d = String::from_str("fn reflect_partial_eq(&self, value: &dyn ");
            d.append(path);
            d.append("::PartialReflect) -> ::core::option::Option<bool> { ");
            d.append(path);
            d.append("::tuple_struct_partial_eq(self, value) }");
            d
        },
    }
}

fn tuple_struct_info(s: &ReflectStruct) -> (r: String)
    requires
        s.meta.path_to_type.wf(),
    ensures
        r@ == tuple_struct_info_text(s),
{
    let path = s.meta.bevy_reflect_path.as_str();
    let mut info = String::from_str("let fields = [");
    write_field_pieces(&mut info, FieldPiece::Info, path, &s.fields);
    info.append("]; let info = ");
    info.append(path);
    info.append("::TupleStructInfo::new::<Self>(");
    info.append("\"");
    info.append(s.meta.path_to_type.name().as_str());
    info.append("\"");
    info.append(", &fields); ");
    info.append(path);
    info.append("::TypeInfo::TupleStruct(info)");
    info
}

/// Everything generated for a tuple struct: the `Reflect`,
/// `GetTypeRegistration`, `Typed`, `TupleStruct` and `PartialReflect` impls;
/// equality falls back to field-by-field comparison.
pub open spec fn tuple_struct_impls_text(s: &ReflectStruct, registration: Seq<char>) -> Seq<char> {
    let path = s.meta.bevy_reflect_path@;
    let t = s.meta.traits@;
    let wc = tuple_struct_where_text(s);
    let partial_eq = match partial_eq_impl_text(t.partial_eq, path) {
        Some(x) => x,
        None => tuple_struct_partial_eq_text(path),
    };
    full_reflect_text(&s.meta, wc) + " "@ + registration + " "@ + typed_impl_text(&s.meta, wc, tuple_struct_info_text(s)) + " "@
        + tuple_struct_trait_text(s, wc) + " "@
        + partial_reflect_text(&s.meta, wc, true, opt_text(hash_impl_text(t.hash, path)), partial_eq, opt_text(debug_impl_text(t.debug)))
}

/// The where clause of a tuple struct's impls.
pub open spec fn tuple_struct_where_text(s: &ReflectStruct) -> Seq<char> {
    where_clause_text(&s.meta, active_type_views(s.fields@), s.meta.bevy_reflect_path@ + "::"@ + "Reflect"@)
}

/// What the registration impl of a type holds, for its where clause and
/// skipped positions.
pub open spec fn registration_of(meta: &ReflectMeta, where_clause: Seq<char>, skipped: Seq<usize>) -> Seq<char> {
    registration_text(
        meta.bevy_reflect_path@,
        impl_generics_text(meta.generics@),
        type_tokens_text(&meta.path_to_type),
        ty_generics_text(meta.generics@),
        where_clause,
        skipped,
        marker_names(crate::container_attributes::markers_view(meta.traits.idents@)),
    )
}

fn text_or_empty(o: Option<String>) -> (r: String)
    ensures
        r@ == opt_text(match o { Some(s) => Some(s@), None => None }),
{
    match o {
        Some(s) => s,
        None => String::new(),
    }
}

/// Builds everything generated for a tuple struct (see
/// [`tuple_struct_impls_text`]); the registration lists the skipped
/// serialization positions in increasing order.
pub fn impl_tuple_struct(s: &ReflectStruct) -> (r: String)
    requires
        s.meta.path_to_type.wf(),
    ensures
        exists|skipped: Seq<usize>| {
            &&& (forall|i: int, j: int| 0 <= i < j < skipped.len() ==> skipped[i] < skipped[j])
            &&& (forall|n: nat| bitset_contents(s.serialization_denylist).contains(n) <==> exists|i: int| 0 <= i < skipped.len() && skipped[i] as nat == n)
            &&& r@ == tuple_struct_impls_text(s, registration_of(&s.meta, tuple_struct_where_text(s), skipped))
        },
{
    let skipped = crate::serialization::denylist_indices(&s.serialization_denylist);
    let wc = s.where_clause_options();
    impl_tuple_struct_with(s, wc.as_str(), &skipped)
}

/// Everything generated for a tuple struct, given its where clause and the
/// skipped serialization positions.
pub fn impl_tuple_struct_with(s: &ReflectStruct, wc: &str, skipped: &Vec<usize>) -> (r: String)
    requires
        s.meta.path_to_type.wf(),
        wc@ == tuple_struct_where_text(s),
    ensures
        r@ == tuple_struct_impls_text(s, registration_of(&s.meta, tuple_struct_where_text(s), skipped@)),
{
    let path = s.meta.bevy_reflect_path.as_str();
    let registration = impl_get_type_registration(&s.meta, wc, skipped);
    let hash = text_or_empty(s.meta.traits.get_hash_impl(path));
    let debug = text_or_empty(s.meta.traits.get_debug_impl());
    let partial_eq = tuple_struct_partial_eq_impl(&s.meta);
    let info = tuple_struct_info(s);
    let mut r = impl_full_reflect(&s.meta, wc);
    r.append(" ");
    r.append(registration.as_str());
    r.append(" ");
    r.append(impl_typed(&s.meta, wc, info.as_str()).as_str());
    r.append(" ");
    r.append(tuple_struct_trait(s, wc).as_str());
    r.append(" ");
    r.append(partial_reflect(&s.meta, wc, true, hash.as_str(), partial_eq.as_str(), debug.as_str()).as_str());
    r
}

/// Everything generated for a value type: the `Reflect`,
/// `GetTypeRegistration`, `Typed` and `PartialReflect` impls.
pub open spec fn value_impls_text(meta: &ReflectMeta) -> Seq<char> {
    let path = meta.bevy_reflect_path@;
    let t = meta.traits@;
    let wc = where_clause_text(meta, Seq::empty(), Seq::empty());
    full_reflect_text(meta, wc) + " "@ + registration_of(meta, wc, Seq::empty()) + " "@ + typed_impl_text(
        meta,
        wc,
        "let info = "@ + path + "::ValueInfo::new::<Self>(); "@ + path + "::TypeInfo::Value(info)"@,
    ) + " "@ + partial_reflect_text(
        meta,
        wc,
        false,
        opt_text(hash_impl_text(t.hash, path)),
        opt_text(partial_eq_impl_text(t.partial_eq, path)),
        opt_text(debug_impl_text(t.debug)),
    )
}

/// Builds everything generated for a value type (see [`value_impls_text`]).
pub fn impl_value(meta: &ReflectMeta) -> (r: String)
    ensures
        r@ == value_impls_text(meta),
{
    let path = meta.bevy_reflect_path.as_str();
    let none: Vec<usize> = Vec::new();
    let wc = meta.where_clause_options();
    let registration = impl_get_type_registration(meta, wc.as_str(), &none);
    let hash = text_or_empty(meta.traits.get_hash_impl(path));
    let partial_eq = text_or_empty(meta.traits.get_partial_eq_impl(path));
    let debug = text_or_empty(meta.traits.get_debug_impl());
    let mut info = String::from_str("let info = ");
    info.append(path);
    info.append("::ValueInfo::new::<Self>(); ");
    info.append(path);
    info.append("::TypeInfo::Value(info)");
    let mut r = impl_full_reflect(meta, wc.as_str());
    r.append(" ");
    r.append(registration.as_str());
    assert(none@ =~= Seq::<usize>::empty());
    r.append(" ");
    r.append(impl_typed(meta, wc.as_str(), info.as_str()).as_str());
    r.append(" ");
    r.append(partial_reflect(meta, wc.as_str(), false, hash.as_str(), partial_eq.as_str(), debug.as_str()).as_str());
    r
}

} // verus!
