//! Generation of `FromReflect` impls: rebuilding a value from a loosely
//! typed reflected one.
use vstd::prelude::*;
use vstd::string::StringExecFns;

use crate::container_attributes::{has_marker, markers_view};
use crate::debug_text::{decimal, write_decimal};
use crate::derive_data::{active_type_views, enum_type_views, EnumVariant, EnumVariantFields, ReflectEnum, ReflectMeta, ReflectStruct, StructField};
use crate::field_attributes::{DefaultBehavior, DefaultBehaviorView, IgnoreBehavior};
use crate::registration::{where_clause_text, impl_generics_text, ty_generics_text, type_tokens, type_tokens_text, generics_text};

verus! {

/// How the generated code reads or assigns a field: its name, or its
/// position for tuple structs and unnamed fields.
pub open spec fn member_text(f: &StructField, is_tuple: bool) -> Seq<char> {
    if is_tuple {
        decimal(f.index as nat)
    } else {
        match f.ident {
            Some(id) => id@,
            None => decimal(f.index as nat),
        }
    }
}

/// How the generated code asks a reflected struct for a field: its
/// position among the active fields for tuple structs, a quoted name
/// otherwise.
pub open spec fn accessor_text(f: &StructField, is_tuple: bool, position: nat) -> Seq<char> {
    if is_tuple {
        decimal(position)
    } else {
        "\""@ + match f.ident {
            Some(id) => id@,
            None => decimal(f.index as nat),
        } + "\""@
    }
}

pub fn get_ident(f: &StructField, is_tuple: bool) -> (r: String)
    ensures
        r@ == member_text(f, is_tuple),
{
    let mut r = String::new();
    if is_tuple {
        write_decimal(&mut r, f.index as u64);
    } else {
        match &f.ident {
            Some(id) => r.append(id.as_str()),
            None => write_decimal(&mut r, f.index as u64),
        }
    }
    r
}

pub fn get_field_accessor(f: &StructField, is_tuple: bool, position: usize) -> (r: String)
    ensures
        r@ == accessor_text(f, is_tuple, position as nat),
{
    let mut r = String::new();
    if is_tuple {
        write_decimal(&mut r, position as u64);
    } else {
        r.append("\"");
        match &f.ident {
            Some(id) => r.append(id.as_str()),
            None => write_decimal(&mut r, f.index as u64),
        }
        r.append("\"");
    }
    r
}

/// The expression fetching a field from the reflected struct `__ref_struct`.
pub open spec fn get_field_text(path: Seq<char>, kind: Seq<char>, f: &StructField, is_tuple: bool, position: nat) -> Seq<char> {
    path + "::"@ + kind + "::field(__ref_struct, "@ + accessor_text(f, is_tuple, position) + ")"@
}

/// The closure producing an active field's value: the converted field when
/// present; when absent, the default function's value, the type's default,
/// or no value, by the field's default behavior.
pub open spec fn active_value_text(path: Seq<char>, kind: Seq<char>, f: &StructField, is_tuple: bool, position: nat) -> Seq<char> {
    let get = get_field_text(path, kind, f, is_tuple, position);
    let convert = "<"@ + f.ty@ + " as "@ + path + "::FromReflect>::from_reflect("@;
    match f.attrs@.default {
        DefaultBehaviorView::Func(p) => "(|| if let ::core::option::Option::Some(field) = "@ + get + " { "@ + convert
            + "field) } else { ::core::option::Option::Some("@ + p + "()) })"@,
        DefaultBehaviorView::Default => "(|| if let ::core::option::Option::Some(field) = "@ + get + " { "@ + convert
            + "field) } else { ::core::option::Option::Some(::core::default::Default::default()) })"@,
        DefaultBehaviorView::Required => "(|| "@ + convert + get + "?))"@,
    }
}

/// The value given to an ignored field: its default function's value or
/// the type's default.
pub open spec fn ignored_value_text(f: &StructField) -> Seq<char> {
    match f.attrs@.default {
        DefaultBehaviorView::Func(p) => p + "()"@,
        _ => "::core::default::Default::default()"@,
    }
}

/// The pieces of the generated constructor.
#[derive(Clone, Copy, Debug, PartialEq, Eq, Structural)]
pub enum Piece {
    /// Overlay an active field on the default value when it converts.
    Overlay,
    /// Initialize an active field, failing when it cannot be had.
    ActiveInit,
    /// Initialize an ignored field with its default.
    IgnoredInit,
}

pub open spec fn piece_text(piece: Piece, path: Seq<char>, kind: Seq<char>, f: &StructField, is_tuple: bool, position: nat) -> Seq<char> {
    match piece {
        Piece::Overlay => "if let ::core::option::Option::Some(__field) = "@ + active_value_text(path, kind, f, is_tuple, position)
            + "() { __this."@ + member_text(f, is_tuple) + " = __field; } "@,
        Piece::ActiveInit => member_text(f, is_tuple) + ": "@ + active_value_text(path, kind, f, is_tuple, position) + "()?, "@,
        Piece::IgnoredInit => member_text(f, is_tuple) + ": "@ + ignored_value_text(f) + ", "@,
    }
}

pub open spec fn is_active(f: &StructField) -> bool {
    f.attrs.ignore != IgnoreBehavior::IgnoreAlways
}

/// Whether the piece is written for this field.
pub open spec fn piece_applies(piece: Piece, f: &StructField) -> bool {
    if piece == Piece::IgnoredInit {
        !is_active(f)
    } else {
        is_active(f)
    }
}

/// The piece for each of the first `n` fields it applies to, in order.
pub open spec fn pieces_text(piece: Piece, path: Seq<char>, kind: Seq<char>, fs: Seq<StructField>, n: int, is_tuple: bool) -> Seq<char>
    decreases n,
{
    if n <= 0 {
        Seq::empty()
    } else {
        pieces_text(piece, path, kind, fs, n - 1, is_tuple) + if piece_applies(piece, &fs[n - 1]) {
            piece_text(piece, path, kind, &fs[n - 1], is_tuple, active_before(fs, n - 1))
        } else {
            Seq::empty()
        }
    }
}

fn write_active_value(out: &mut String, path: &str, kind: &str, f: &StructField, is_tuple: bool, position: usize)
    ensures
        final(out)@ == old(out)@ + active_value_text(path@, kind@, f, is_tuple, position as nat),
{
    let accessor = get_field_accessor(f, is_tuple, position);
    let mut get = String::from_str(path);
    get.append("::");
    get.append(kind);
    get.append("::field(__ref_struct, ");
    get.append(accessor.as_str());
    get.append(")");
    let mut convert = String::from_str("<");
    convert.append(f.ty.as_str());
    convert.append(" as ");
    convert.append(path);
    convert.append("::FromReflect>::from_reflect(");
    match &f.attrs.default {
        DefaultBehavior::Func(p) => {
            out.append("(|| if let ::core::option::Option::Some(field) = ");
            out.append(get.as_str());
            out.append(" { ");
            out.append(convert.as_str());
            out.append("field) } else { ::core::option::Option::Some(");
            out.append(p.as_str());
            out.append("()) })");
        },
        DefaultBehavior::Default => {
            out.append("(|| if let ::core::option::Option::Some(field) = ");
            out.append(get.as_str());
            out.append(" { ");
            out.append(convert.as_str());
            out.append("field) } else { ::core::option::Option::Some(::core::default::Default::default()) })");
        },
        DefaultBehavior::Required => {
            out.append("(|| ");
            out.append(convert.as_str());
            out.append(get.as_str());
            out.append("?))");
        },
    }
}

fn write_piece(out: &mut String, piece: Piece, path: &str, kind: &str, f: &StructField, is_tuple: bool, position: usize)
    ensures
        final(out)@ == old(out)@ + piece_text(piece, path@, kind@, f, is_tuple, position as nat),
{
    let member = get_ident(f, is_tuple);
    match piece {
        Piece::Overlay => {
            out.append("if let ::core::option::Option::Some(__field) = ");
            write_active_value(out, path, kind, f, is_tuple, position);
            out.append("() { __this.");
            out.append(member.as_str());
            out.append(" = __field; } ");
        },
        Piece::ActiveInit => {
            out.append(member.as_str());
            out.append(": ");
            write_active_value(out, path, kind, f, is_tuple, position);
            out.append("()?, ");
        },
        Piece::IgnoredInit => {
            out.append(member.as_str());
            out.append(": ");
            match &f.attrs.default {
                DefaultBehavior::Func(p) => {
                    out.append(p.as_str());
                    out.append("()");
                },
                _ => out.append("::core::default::Default::default()"),
            }
            out.append(", ");
        },
    }
}

/// Appends the piece for each field it applies to (see [`pieces_text`]).
fn write_pieces(out: &mut String, piece: Piece, path: &str, kind: &str, fs: &Vec<StructField>, is_tuple: bool)
    ensures
        final(out)@ == old(out)@ + pieces_text(piece, path@, kind@, fs@, fs@.len() as int, is_tuple),
{
    let ghost start = out@;
    let mut position: usize = 0;
    let mut i: usize = 0;
    while i < fs.len()
        invariant
            i <= fs@.len(),
            position == active_before(fs@, i as int),
            position <= i,
            out@ == start + pieces_text(piece, path@, kind@, fs@, i as int, is_tuple),
        decreases fs@.len() - i,
    {
        let applies = if piece == Piece::IgnoredInit {
            fs[i].attrs.ignore == IgnoreBehavior::IgnoreAlways
        } else {
            fs[i].attrs.ignore != IgnoreBehavior::IgnoreAlways
        };
        if applies {
            write_piece(out, piece, path, kind, &fs[i], is_tuple, position);
        }
        if fs[i].attrs.ignore != IgnoreBehavior::IgnoreAlways {
            position = position + 1;
        }
        assert(out@ =~= start + pieces_text(piece, path@, kind@, fs@, i + 1, is_tuple));
        i += 1;
    }
}

/// Whether the struct is rebuilt by overlaying the fields on a default
/// value: when `Default` is registered or a container default is given.
pub open spec fn uses_overlay(meta: &ReflectMeta) -> bool {
    has_marker(markers_view(meta.traits.idents@), "ReflectDefault"@) || meta.traits@.from_reflect.container_default is Some
}

/// The expression for the value the fields are overlaid on.
pub open spec fn base_value_text(meta: &ReflectMeta) -> Seq<char> {
    match meta.traits@.from_reflect.container_default {
        Some(cd) => cd.0 + "()"@,
        None => "::core::default::Default::default()"@,
    }
}

/// The generated `FromReflect` impl of a struct or tuple struct.
pub open spec fn struct_from_reflect_text(s: &ReflectStruct, is_tuple: bool) -> Seq<char> {
    let path = s.meta.bevy_reflect_path@;
    let kind = if is_tuple { "TupleStruct"@ } else { "Struct"@ };
    let fs = s.fields@;
    let n = fs.len() as int;
    let constructor = if uses_overlay(&s.meta) {
        "let mut __this: Self = "@ + base_value_text(&s.meta) + "; "@ + pieces_text(Piece::Overlay, path, kind, fs, n, is_tuple)
            + "::core::option::Option::Some(__this)"@
    } else {
        "::core::option::Option::Some(Self { "@ + pieces_text(Piece::ActiveInit, path, kind, fs, n, is_tuple)
            + pieces_text(Piece::IgnoredInit, path, kind, fs, n, is_tuple) + "})"@
    };
    let bounds = where_clause_text(&s.meta, active_type_views(fs), path + "::"@ + "FromReflect"@);
    "impl"@ + impl_generics_text(s.meta.generics@) + " "@ + path + "::FromReflect for "@ + type_tokens_text(&s.meta.path_to_type)
        + ty_generics_text(s.meta.generics@) + bounds + " { fn from_reflect(reflect: &dyn "@ + path
        + "::PartialReflect) -> ::core::option::Option<Self> { if let "@ + path + "::ReflectRef::"@ + kind
        + "(__ref_struct) = "@ + path + "::PartialReflect::reflect_ref(reflect) { "@ + constructor
        + " } else { ::core::option::Option::None } } }"@
}

/// Builds the `FromReflect` impl of a struct (see [`struct_from_reflect_text`]).
pub fn impl_struct_internal(s: &ReflectStruct, is_tuple: bool) -> (r: String)
    ensures
        r@ == struct_from_reflect_text(s, is_tuple),
{
    let path = s.meta.bevy_reflect_path.as_str();
    let kind = if is_tuple { "TupleStruct" } else { "Struct" };
    let overlay = s.meta.traits.contains("ReflectDefault") || s.meta.traits.from_reflect_attrs.container_default.is_some();
    let mut constructor = String::new();
    if overlay {
        constructor.append("let mut __this: Self = ");
        match &s.meta.traits.from_reflect_attrs.container_default {
            Some(cd) => {
                constructor.append(cd.0.as_str());
                constructor.append("()");
            },
            None => constructor.append("::core::default::Default::default()"),
        }
        constructor.append("; ");
        write_pieces(&mut constructor, Piece::Overlay, path, kind, &s.fields, is_tuple);
        constructor.append("::core::option::Option::Some(__this)");
    } else {
        constructor.append("::core::option::Option::Some(Self { ");
        write_pieces(&mut constructor, Piece::ActiveInit, path, kind, &s.fields, is_tuple);
        write_pieces(&mut constructor, Piece::IgnoredInit, path, kind, &s.fields, is_tuple);
        constructor.append("})");
    }
    let bounds = s.from_reflect_where_clause();
    let mut r = String::from_str("impl");
    r.append(generics_text(&s.meta.generics, true).as_str());
    r.append(" ");
    r.append(path);
    r.append("::FromReflect for ");
    r.append(type_tokens(&s.meta.path_to_type).as_str());
    r.append(generics_text(&s.meta.generics, false).as_str());
    r.append(bounds.as_str());
    r.append(" { fn from_reflect(reflect: &dyn ");
    r.append(path);
    r.append("::PartialReflect) -> ::core::option::Option<Self> { if let ");
    r.append(path);
    r.append("::ReflectRef::");
    r.append(kind);
    r.append("(__ref_struct) = ");
    r.append(path);
    r.append("::PartialReflect::reflect_ref(reflect) { ");
    r.append(constructor.as_str());
    r.append(" } else { ::core::option::Option::None } } }");
    r
}

/// The `FromReflect` impl of a struct with named fields.
pub fn impl_struct(s: &ReflectStruct) -> (r: String)
    ensures
        r@ == struct_from_reflect_text(s, false),
{
    impl_struct_internal(s, false)
}

/// The `FromReflect` impl of a tuple struct.
pub fn impl_tuple_struct(s: &ReflectStruct) -> (r: String)
    ensures
        r@ == struct_from_reflect_text(s, true),
{
    impl_struct_internal(s, true)
}


/// The generated `FromReflect` impl of a type reflected as a value: a
/// clone of the value when it has the type.
pub open spec fn value_from_reflect_text(meta: &ReflectMeta) -> Seq<char> {
    let path = meta.bevy_reflect_path@;
    let ty = type_tokens_text(&meta.path_to_type) + ty_generics_text(meta.generics@);
    "impl"@ + impl_generics_text(meta.generics@) + " "@ + path + "::FromReflect for "@ + ty
        + where_clause_text(meta, Seq::empty(), Seq::empty()) + " { fn from_reflect(reflect: &dyn "@ + path
        + "::PartialReflect) -> ::core::option::Option<Self> { ::core::option::Option::Some(::core::clone::Clone::clone(<dyn ::core::any::Any>::downcast_ref::<"@
        + ty + ">(<dyn "@ + path + "::PartialReflect>::as_any(reflect))?)) } }"@
}

/// Builds the `FromReflect` impl of a value type (see [`value_from_reflect_text`]).
pub fn impl_value(meta: &ReflectMeta) -> (r: String)
    ensures
        r@ == value_from_reflect_text(meta),
{
    let path = meta.bevy_reflect_path.as_str();
    let mut ty = type_tokens(&meta.path_to_type);
    ty.append(generics_text(&meta.generics, false).as_str());
    let mut r = String::from_str("impl");
    r.append(generics_text(&meta.generics, true).as_str());
    r.append(" ");
    r.append(path);
    r.append("::FromReflect for ");
    r.append(ty.as_str());
    r.append(meta.where_clause_options().as_str());
    r.append(" { fn from_reflect(reflect: &dyn ");
    r.append(path);
    r.append(
        "::PartialReflect) -> ::core::option::Option<Self> { ::core::option::Option::Some(::core::clone::Clone::clone(<dyn ::core::any::Any>::downcast_ref::<",
    );
    r.append(ty.as_str());
    r.append(">(<dyn ");
    r.append(path);
    r.append("::PartialReflect>::as_any(reflect))?)) } }");
    r
}

/// The number of active fields among the first `n`.
pub open spec fn active_before(fs: Seq<StructField>, n: int) -> nat
    decreases n,
{
    if n <= 0 {
        0
    } else {
        active_before(fs, n - 1) + if is_active(&fs[n - 1]) { 1nat } else { 0nat }
    }
}

/// One field of a variant's constructor: an active field converted from
/// the reflected variant's field (by name, or by its position among the
/// active fields), an ignored one from its default.
pub open spec fn variant_field_text(path: Seq<char>, f: &StructField, named: bool, position: nat) -> Seq<char> {
    let prefix = if named { member_text(f, false) + ": "@ } else { Seq::empty() };
    if is_active(f) {
        prefix + "<"@ + f.ty@ + " as "@ + path + "::FromReflect>::from_reflect("@ + path + if named {
            "::Enum::field(__param0, "@ + accessor_text(f, false, position) + ")?)?, "@
        } else {
            "::Enum::field_at(__param0, "@ + decimal(position) + ")?)?, "@
        }
    } else {
        prefix + ignored_value_text(f) + ", "@
    }
}

pub open spec fn variant_fields_text(path: Seq<char>, fs: Seq<StructField>, n: int, named: bool) -> Seq<char>
    decreases n,
{
    if n <= 0 {
        Seq::empty()
    } else {
        variant_fields_text(path, fs, n - 1, named) + variant_field_text(path, &fs[n - 1], named, active_before(fs, n - 1))
    }
}

/// The match arm building one variant from the reflected enum.
pub open spec fn variant_arm_text(path: Seq<char>, ty: Seq<char>, v: &EnumVariant) -> Seq<char> {
    let ctor = ty + "::"@ + v.ident@;
    "\""@ + v.ident@ + "\" => ::core::option::Option::Some("@ + match &v.fields {
        EnumVariantFields::Named(fs) => ctor + " { "@ + variant_fields_text(path, fs@, fs@.len() as int, true) + "}"@,
        EnumVariantFields::Unnamed(fs) => ctor + "("@ + variant_fields_text(path, fs@, fs@.len() as int, false) + ")"@,
        EnumVariantFields::Unit => ctor,
    } + "), "@
}

pub open spec fn variant_arms_text(path: Seq<char>, ty: Seq<char>, vs: Seq<EnumVariant>, n: int) -> Seq<char>
    decreases n,
{
    if n <= 0 {
        Seq::empty()
    } else {
        variant_arms_text(path, ty, vs, n - 1) + variant_arm_text(path, ty, &vs[n - 1])
    }
}

/// The generated `FromReflect` impl of an enum: a match on the reflected
/// variant's name, one arm per variant, and a panic naming the unknown
/// variant and the enum's type.
pub open spec fn enum_from_reflect_text(e: &ReflectEnum) -> Seq<char> {
    let path = e.meta.bevy_reflect_path@;
    let ty = type_tokens_text(&e.meta.path_to_type);
    "impl"@ + impl_generics_text(e.meta.generics@) + " "@ + path + "::FromReflect for "@ + ty
        + ty_generics_text(e.meta.generics@) + where_clause_text(&e.meta, enum_type_views(e.variants@), path + "::"@ + "FromReflect"@)
        + " { fn from_reflect(__param0: &dyn "@ + path
        + "::PartialReflect) -> ::core::option::Option<Self> { if let "@ + path + "::ReflectRef::Enum(__param0) = "@
        + path + "::PartialReflect::reflect_ref(__param0) { match "@ + path + "::Enum::variant_name(__param0) { "@
        + variant_arms_text(path, ty, e.variants@, e.variants@.len() as int)
        + "name => panic!(\"variant with name `{}` does not exist on enum `{}`\", name, ::core::any::type_name::<Self>()), } } else { ::core::option::Option::None } } }"@
}

fn variant_field(path: &str, f: &StructField, named: bool, position: usize) -> (r: String)
    ensures
        r@ == variant_field_text(path@, f, named, position as nat),
{
    let mut out = String::new();
    if named {
        out.append(get_ident(f, false).as_str());
        out.append(": ");
    }
    if f.attrs.ignore != IgnoreBehavior::IgnoreAlways {
        out.append("<");
        out.append(f.ty.as_str());
        out.append(" as ");
        out.append(path);
        out.append("::FromReflect>::from_reflect(");
        out.append(path);
        if named {
            out.append("::Enum::field(__param0, ");
            out.append(get_field_accessor(f, false, position).as_str());
            out.append(")?)?, ");
        } else {
            out.append("::Enum::field_at(__param0, ");
            write_decimal(&mut out, position as u64);
            out.append(")?)?, ");
        }
    } else {
        match &f.attrs.default {
            DefaultBehavior::Func(p) => {
                out.append(p.as_str());
                out.append("()");
            },
            _ => out.append("::core::default::Default::default()"),
        }
        out.append(", ");
    }
    out
}

fn write_variant_fields(out: &mut String, path: &str, fs: &[StructField], named: bool)
    ensures
        final(out)@ == old(out)@ + variant_fields_text(path@, fs@, fs@.len() as int, named),
{
    let ghost start = out@;
    let mut position: usize = 0;
    let mut i: usize = 0;
    while i < fs.len()
        invariant
            i <= fs@.len(),
            position == active_before(fs@, i as int),
            position <= i,
            out@ == start + variant_fields_text(path@, fs@, i as int, named),
        decreases fs@.len() - i,
    {
        let piece = variant_field(path, &fs[i], named, position);
        out.append(piece.as_str());
        if fs[i].attrs.ignore != IgnoreBehavior::IgnoreAlways {
            position = position + 1;
        }
        assert(out@ =~= start + variant_fields_text(path@, fs@, i + 1, named));
        i += 1;
    }
}

fn variant_arm(path: &str, ty: &String, v: &EnumVariant) -> (r: String)
    ensures
        r@ == variant_arm_text(path@, ty@, v),
{
    let mut r = String::from_str("\"");
    r.append(v.ident.as_str());
    r.append("\" => ::core::option::Option::Some(");
    r.append(ty.as_str());
    r.append("::");
    r.append(v.ident.as_str());
    match &v.fields {
        EnumVariantFields::Named(fs) => {
            r.append(" { ");
            write_variant_fields(&mut r, path, fs.as_slice(), true);
            r.append("}");
        },
        EnumVariantFields::Unnamed(fs) => {
            r.append("(");
            write_variant_fields(&mut r, path, fs.as_slice(), false);
            r.append(")");
        },
        EnumVariantFields::Unit => {},
    }
    r.append("), ");
    r
}

/// Builds the `FromReflect` impl of an enum (see [`enum_from_reflect_text`]).
pub fn impl_enum(e: &ReflectEnum) -> (r: String)
    ensures
        r@ == enum_from_reflect_text(e),
{
    let path = e.meta.bevy_reflect_path.as_str();
    let ty = type_tokens(&e.meta.path_to_type);
    let mut r = String::from_str("impl");
    r.append(generics_text(&e.meta.generics, true).as_str());
    r.append(" ");
    r.append(path);
    r.append("::FromReflect for ");
    r.append(ty.as_str());
    r.append(generics_text(&e.meta.generics, false).as_str());
    r.append(e.where_clause_options().as_str());
    r.append(" { fn from_reflect(__param0: &dyn ");
    r.append(path);
    r.append("::PartialReflect) -> ::core::option::Option<Self> { if let ");
    r.append(path);
    r.append("::ReflectRef::Enum(__param0) = ");
    r.append(path);
    r.append("::PartialReflect::reflect_ref(__param0) { match ");
    r.append(path);
    r.append("::Enum::variant_name(__param0) { ");
    let ghost start = r@;
    let mut i: usize = 0;
    while i < e.variants.len()
        invariant
            i <= e.variants@.len(),
            path@ == e.meta.bevy_reflect_path@,
            ty@ == type_tokens_text(&e.meta.path_to_type),
            r@ == start + variant_arms_text(path@, ty@, e.variants@, i as int),
        decreases e.variants@.len() - i,
    {
        let arm = variant_arm(path, &ty, &e.variants[i]);
        r.append(arm.as_str());
        assert(r@ =~= start + variant_arms_text(path@, ty@, e.variants@, i + 1));
        i += 1;
    }
    r.append(
        "name => panic!(\"variant with name `{}` does not exist on enum `{}`\", name, ::core::any::type_name::<Self>()), } } else { ::core::option::Option::None } } }",
    );
    r
}

} // verus!
