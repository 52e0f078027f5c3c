//! Generation of the `TypePath`, `Typed` and `Reflect` impls.
use vstd::prelude::*;
use vstd::string::StringExecFns;

use crate::derive_data::{
    crate_name_text, fully_qualified_path_text, module_text, join_path, name_text, path_segments, quoted, strings_view,
    GenericParam, PathToType, ReflectMeta,
};
use crate::registration::{generics_text, impl_generics_text, join_segments, ty_generics_text, type_tokens, type_tokens_text};

verus! {

/// Whether an impl for the type is generic: it has a type or const
/// parameter (lifetimes do not count).
pub open spec fn impl_is_generic(g: Seq<GenericParam>) -> bool {
    exists|k: int| 0 <= k < g.len() && !(#[trigger] g[k] is Lifetime)
}

impl ReflectMeta {
    /// Whether impls for this type are generic (see [`impl_is_generic`]).
    pub fn impl_is_generic(&self) -> (r: bool)
        ensures
            r == impl_is_generic(self.generics@),
    {
        let mut k: usize = 0;
        while k < self.generics.len()
            invariant
                k <= self.generics@.len(),
                forall|j: int| 0 <= j < k ==> self.generics@[j] is Lifetime,
            decreases self.generics@.len() - k,
        {
            if !matches!(self.generics[k], GenericParam::Lifetime(_)) {
                return true;
            }
            k += 1;
        }
        false
    }
}

/// The expression giving the path string of one generic argument:
/// type parameters in the first pass, const parameters in the second.
pub open spec fn generic_item(path: Seq<char>, p: &GenericParam, long: bool, consts: bool) -> Option<Seq<char>> {
    match p {
        GenericParam::Lifetime(_) => None,
        GenericParam::Type(t) => if consts {
            None
        } else {
            Some(
                "::std::string::ToString::to_string(<"@ + t@ + " as "@ + path + "::TypePath>::"@ + if long {
                    "type_path"@
                } else {
                    "short_type_path"@
                } + "())"@,
            )
        },
        GenericParam::Const(n, ty) => if consts {
            Some("<"@ + ty@ + " as ::std::string::ToString>::to_string(&"@ + n@ + ")"@)
        } else {
            None
        },
    }
}

/// The items of one pass over the first `n` parameters, appended to `init`
/// and separated by `, `; the flag says whether any item was written.
pub open spec fn generic_items(
    path: Seq<char>,
    g: Seq<GenericParam>,
    n: int,
    long: bool,
    consts: bool,
    init: (Seq<char>, bool),
) -> (Seq<char>, bool)
    decreases n,
{
    if n <= 0 {
        init
    } else {
        let (prev, any) = generic_items(path, g, n - 1, long, consts, init);
        match generic_item(path, &g[n - 1], long, consts) {
            None => (prev, any),
            Some(item) => (if any { prev + ", "@ + item } else { item }, true),
        }
    }
}

/// The generic arguments' expressions, separated by `, `: every type
/// parameter's path first, in declaration order, then every const
/// parameter's value.
pub open spec fn all_generic_items(path: Seq<char>, g: Seq<GenericParam>, long: bool) -> Seq<char> {
    let types = generic_items(path, g, g.len() as int, long, false, (Seq::empty(), false));
    generic_items(path, g, g.len() as int, long, true, types).0
}

/// The expression building the type's long (`long`) or short path string:
/// for a generic type, the name followed by its arguments' paths in angle
/// brackets.
pub open spec fn type_path_generator_text(meta: &ReflectMeta, long: bool) -> Seq<char> {
    let p = &meta.path_to_type;
    let base = if long { fully_qualified_path_text(p) } else { quoted(name_text(p)) + ".to_owned()"@ };
    if impl_is_generic(meta.generics@) {
        base + " + \"<\" + &["@ + all_generic_items(meta.bevy_reflect_path@, meta.generics@, long)
            + "].join(\", \") + \">\""@
    } else {
        base
    }
}

fn generic_item_text(path: &str, p: &GenericParam, long: bool, consts: bool) -> (r: Option<String>)
    ensures
        match generic_item(path@, p, long, consts) {
            Some(t) => r is Some && r.unwrap()@ == t,
            None => r is None,
        },
{
    match p {
        GenericParam::Lifetime(_) => None,
        GenericParam::Type(_) if consts => None,
        GenericParam::Const(_, _) if !consts => None,
        GenericParam::Type(t) => {
            let mut r = String::from_str("::std::string::ToString::to_string(<");
            r.append(t.as_str());
            r.append(" as ");
            r.append(path);
            r.append("::TypePath>::");
            if long {
                r.append("type_path");
            } else {
                r.append("short_type_path");
            }
            r.append("())");
            Some(r)
        },
        GenericParam::Const(n, ty) => {
            let mut r = String::from_str("<");
            r.append(ty.as_str());
            r.append(" as ::std::string::ToString>::to_string(&");
            r.append(n.as_str());
            r.append(")");
            Some(r)
        },
    }
}

/// Appends one pass of generic items (see [`generic_items`]).
fn write_generic_items(path: &str, g: &Vec<GenericParam>, long: bool, consts: bool, items: String, any: bool) -> (r: (
    String,
    bool,
))
    ensures
        (r.0@, r.1) == generic_items(path@, g@, g@.len() as int, long, consts, (items@, any)),
{
    let ghost init = (items@, any);
    let mut items = items;
    let mut any = any;
    let mut i: usize = 0;
    while i < g.len()
        invariant
            i <= g@.len(),
            (items@, any) == generic_items(path@, g@, i as int, long, consts, init),
        decreases g@.len() - i,
    {
        match generic_item_text(path, &g[i], long, consts) {
            Some(item) => {
                if any {
                    items.append(", ");
                    items.append(item.as_str());
                } else {
                    items = item;
                }
                any = true;
            },
            None => {},
        }
        i += 1;
    }
    (items, any)
}

/// Builds the path string expression (see [`type_path_generator_text`]).
pub fn type_path_generator(long_path: bool, meta: &ReflectMeta) -> (r: String)
    requires
        meta.path_to_type.wf(),
    ensures
        r@ == type_path_generator_text(meta, long_path),
{
    let mut r = if long_path {
        meta.path_to_type.fully_qualified_path()
    } else {
        let mut b = String::from_str("\"");
        b.append(meta.path_to_type.name().as_str());
        b.append("\"");
        b.append(".to_owned()");
        b
    };
    if !meta.impl_is_generic() {
        return r;
    }
    r.append(" + \"<\" + &[");
    let path = meta.bevy_reflect_path.as_str();
    let (items, any) = write_generic_items(path, &meta.generics, long_path, false, String::new(), false);
    let (items, _) = write_generic_items(path, &meta.generics, long_path, true, items, any);
    r.append(items.as_str());
    r.append("].join(\", \") + \">\"");
    r
}

/// Which property a static cell caches.
#[derive(Clone, Copy, Debug, PartialEq, Eq, Structural)]
pub enum TypedProperty {
    TypeInfo,
    TypePath,
}

/// A static cell computing `generator` once: once per instantiation for a
/// generic type, once in all for another.
pub open spec fn static_typed_cell_text(meta: &ReflectMeta, property: TypedProperty, generator: Seq<char>) -> Seq<char> {
    let path = meta.bevy_reflect_path@;
    if impl_is_generic(meta.generics@) {
        let cell = if property == TypedProperty::TypePath { "GenericTypePathCell"@ } else { "GenericTypeInfoCell"@ };
        "static CELL: "@ + path + "::utility::"@ + cell + " = "@ + path + "::utility::"@ + cell
            + "::new(); CELL.get_or_insert::<Self, _>(|| { "@ + generator + " })"@
    } else {
        "static CELL: "@ + path + "::utility::NonGenericTypeInfoCell = "@ + path
            + "::utility::NonGenericTypeInfoCell::new(); CELL.get_or_set(|| { "@ + generator + " })"@
    }
}

/// Builds the static cell (see [`static_typed_cell_text`]); a type path is
/// cached only for generic types.
pub fn static_typed_cell(meta: &ReflectMeta, property: TypedProperty, generator: &str) -> (r: String)
    requires
        property == TypedProperty::TypePath ==> impl_is_generic(meta.generics@),
    ensures
        r@ == static_typed_cell_text(meta, property, generator@),
{
    let path = meta.bevy_reflect_path.as_str();
    let mut r = String::from_str("static CELL: ");
    r.append(path);
    if meta.impl_is_generic() {
        let cell = if property == TypedProperty::TypePath { "GenericTypePathCell" } else { "GenericTypeInfoCell" };
        r.append("::utility::");
        r.append(cell);
        r.append(" = ");
        r.append(path);
        r.append("::utility::");
        r.append(cell);
        r.append("::new(); CELL.get_or_insert::<Self, _>(|| { ");
    } else {
        r.append("::utility::NonGenericTypeInfoCell = ");
        r.append(path);
        r.append("::utility::NonGenericTypeInfoCell::new(); CELL.get_or_set(|| { ");
    }
    r.append(generator);
    r.append(" })");
    r
}

/// The type's path as a static string, for a type that is not generic.
pub open spec fn static_path_text(p: &PathToType) -> Seq<char> {
    match p {
        PathToType::Primitive(id) => quoted(id@),
        PathToType::AliasedAnonymous { path, .. } => quoted(path@),
        _ => quoted(join_path(path_segments(p).unwrap())),
    }
}

pub open spec fn wrap_option(o: Option<Seq<char>>) -> Seq<char> {
    match o {
        Some(t) => "::core::option::Option::Some("@ + t + ")"@,
        None => "::core::option::Option::None"@,
    }
}

/// The `TypePath` impl: long and short paths (cached per instantiation for
/// generic types), the type's name and its crate.
pub open spec fn type_path_impl_text(meta: &ReflectMeta, where_clause: Seq<char>) -> Seq<char> {
    let path = meta.bevy_reflect_path@;
    let p = &meta.path_to_type;
    let (long, short) = if impl_is_generic(meta.generics@) {
        (
            static_typed_cell_text(meta, TypedProperty::TypePath, type_path_generator_text(meta, true)),
            static_typed_cell_text(meta, TypedProperty::TypePath, type_path_generator_text(meta, false)),
        )
    } else {
        (static_path_text(p), quoted(name_text(p)))
    };
    "impl"@ + impl_generics_text(meta.generics@) + " "@ + path + "::TypePath for "@ + type_tokens_text(p)
        + ty_generics_text(meta.generics@) + where_clause + " { fn type_path() -> &'static str { "@ + long
        + " } fn short_type_path() -> &'static str { "@ + short
        + " } fn type_ident() -> ::core::option::Option<&'static str> { "@ + wrap_option(Some(quoted(name_text(p))))
        + " } fn crate_name() -> ::core::option::Option<&'static str> { "@ + wrap_option(crate_name_text(p))
        + " } fn module_path() -> ::core::option::Option<&'static str> { "@ + wrap_option(module_text(p)) + " } }"@
}

fn wrap_text(o: Option<String>) -> (r: String)
    ensures
        r@ == wrap_option(match o { Some(s) => Some(s@), None => None }),
{
    match o {
        Some(t) => {
            let mut r = String::from_str("::core::option::Option::Some(");
            r.append(t.as_str());
            r.append(")");
            r
        },
        None => String::from_str("::core::option::Option::None"),
    }
}

fn quote_text(s: &String) -> (r: String)
    ensures
        r@ == quoted(s@),
{
    let mut r = String::from_str("\"");
    r.append(s.as_str());
    r.append("\"");
    r
}

/// Builds the `TypePath` impl (see [`type_path_impl_text`]).
pub fn impl_type_path(meta: &ReflectMeta, where_clause: &str) -> (r: String)
    requires
        meta.path_to_type.wf(),
    ensures
        r@ == type_path_impl_text(meta, where_clause@),
{
    let p = &meta.path_to_type;
    let path = meta.bevy_reflect_path.as_str();
    let name = quote_text(&p.name());
    let (long, short) = if meta.impl_is_generic() {
        let l = type_path_generator(true, meta);
        let s = type_path_generator(false, meta);
        (static_typed_cell(meta, TypedProperty::TypePath, l.as_str()), static_typed_cell(meta, TypedProperty::TypePath, s.as_str()))
    } else {
        let long = match p {
            PathToType::Primitive(id) => quote_text(id),
            PathToType::AliasedAnonymous { path, .. } => quote_text(path),
            _ => {
                let segs = p.segments().unwrap();
                assert(strings_view(segs@).subrange(0, segs@.len() as int) =~= strings_view(segs@));
                let joined = join_segments(&segs, segs.len());
                quote_text(&joined)
            },
        };
        (long, quote_text(&p.name()))
    };
    let mut r = String::from_str("impl");
    r.append(generics_text(&meta.generics, true).as_str());
    r.append(" ");
    r.append(path);
    r.append("::TypePath for ");
    r.append(type_tokens(p).as_str());
    r.append(generics_text(&meta.generics, false).as_str());
    r.append(where_clause);
    r.append(" { fn type_path() -> &'static str { ");
    r.append(long.as_str());
    r.append(" } fn short_type_path() -> &'static str { ");
    r.append(short.as_str());
    r.append(" } fn type_ident() -> ::core::option::Option<&'static str> { ");
    r.append(wrap_text(Some(name)).as_str());
    r.append(" } fn crate_name() -> ::core::option::Option<&'static str> { ");
    r.append(wrap_text(p.crate_name()).as_str());
    r.append(" } fn module_path() -> ::core::option::Option<&'static str> { ");
    r.append(wrap_text(p.module()).as_str());
    r.append(" } }");
    r
}

/// The `Typed` impl, whose type info `generator` builds once, in a cell.
pub open spec fn typed_impl_text(meta: &ReflectMeta, where_clause: Seq<char>, generator: Seq<char>) -> Seq<char> {
    let path = meta.bevy_reflect_path@;
    "impl"@ + impl_generics_text(meta.generics@) + " "@ + path + "::Typed for "@ + type_tokens_text(&meta.path_to_type)
        + ty_generics_text(meta.generics@) + where_clause + " { fn type_info() -> &'static "@ + path + "::TypeInfo { "@
        + static_typed_cell_text(meta, TypedProperty::TypeInfo, generator) + " } }"@
}

/// Builds the `Typed` impl (see [`typed_impl_text`]).
pub fn impl_typed(meta: &ReflectMeta, where_clause: &str, generator: &str) -> (r: String)
    ensures
        r@ == typed_impl_text(meta, where_clause@, generator@),
{
    let path = meta.bevy_reflect_path.as_str();
    let mut r = String::from_str("impl");
    r.append(generics_text(&meta.generics, true).as_str());
    r.append(" ");
    r.append(path);
    r.append("::Typed for ");
    r.append(type_tokens(&meta.path_to_type).as_str());
    r.append(generics_text(&meta.generics, false).as_str());
    r.append(where_clause);
    r.append(" { fn type_info() -> &'static ");
    r.append(path);
    r.append("::TypeInfo { ");
    r.append(static_typed_cell(meta, TypedProperty::TypeInfo, generator).as_str());
    r.append(" } }");
    r
}

/// The `Reflect` impl: the value itself as `Any` and as `Reflect`, and
/// assignment from a reflected value of the same type.
pub open spec fn full_reflect_text(meta: &ReflectMeta, where_clause: Seq<char>) -> Seq<char> {
    let path = meta.bevy_reflect_path@;
    "impl"@ + impl_generics_text(meta.generics@) + " "@ + path + "::Reflect for "@ + type_tokens_text(&meta.path_to_type)
        + ty_generics_text(meta.generics@) + where_clause
        + " { #[inline] fn into_any(self: ::std::boxed::Box<Self>) -> ::std::boxed::Box<dyn ::core::any::Any> { self } #[inline] fn as_any(&self) -> &dyn ::core::any::Any { self } #[inline] fn as_any_mut(&mut self) -> &mut dyn ::core::any::Any { self } #[inline] fn into_reflect(self: ::std::boxed::Box<Self>) -> ::std::boxed::Box<dyn "@
        + path + "::Reflect> { self } #[inline] fn as_reflect(&self) -> &dyn "@ + path
        + "::Reflect { self } #[inline] fn as_reflect_mut(&mut self) -> &mut dyn "@ + path
        + "::Reflect { self } #[inline] fn set(&mut self, value: ::std::boxed::Box<dyn "@ + path
        + "::PartialReflect>) -> ::core::result::Result<(), ::std::boxed::Box<dyn "@ + path
        + "::PartialReflect>> { *self = <dyn "@ + path
        + "::PartialReflect>::try_take(value)?; ::core::result::Result::Ok(()) } }"@
}

/// Builds the `Reflect` impl (see [`full_reflect_text`]).
pub fn impl_full_reflect(meta: &ReflectMeta, where_clause: &str) -> (r: String)
    ensures
        r@ == full_reflect_text(meta, where_clause@),
{
    let path = meta.bevy_reflect_path.as_str();
    let mut r = String::from_str("impl");
    r.append(generics_text(&meta.generics, true).as_str());
    r.append(" ");
    r.append(path);
    r.append("::Reflect for ");
    r.append(type_tokens(&meta.path_to_type).as_str());
    r.append(generics_text(&meta.generics, false).as_str());
    r.append(where_clause);
    r.append(
        " { #[inline] fn into_any(self: ::std::boxed::Box<Self>) -> ::std::boxed::Box<dyn ::core::any::Any> { self } #[inline] fn as_any(&self) -> &dyn ::core::any::Any { self } #[inline] fn as_any_mut(&mut self) -> &mut dyn ::core::any::Any { self } #[inline] fn into_reflect(self: ::std::boxed::Box<Self>) -> ::std::boxed::Box<dyn ",
    );
    r.append(path);
    r.append("::Reflect> { self } #[inline] fn as_reflect(&self) -> &dyn ");
    r.append(path);
    r.append("::Reflect { self } #[inline] fn as_reflect_mut(&mut self) -> &mut dyn ");
    r.append(path);
    r.append("::Reflect { self } #[inline] fn set(&mut self, value: ::std::boxed::Box<dyn ");
    r.append(path);
    r.append("::PartialReflect>) -> ::core::result::Result<(), ::std::boxed::Box<dyn ");
    r.append(path);
    r.append("::PartialReflect>> { *self = <dyn ");
    r.append(path);
    r.append("::PartialReflect>::try_take(value)?; ::core::result::Result::Ok(()) } }");
    r
}

} // verus!
