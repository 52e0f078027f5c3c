//! The `GetTypeRegistration` impl: which capabilities a type registers.
use vstd::prelude::*;
use vstd::string::StringExecFns;

use crate::container_attributes::markers_view;
use crate::debug_text::{char_text, debug_join, decimal, write_decimal};
use crate::derive_data::{join_path, strings_view, GenericParam, PathToType, ReflectMeta};
use crate::tokens::{tokens_view, Token, TokenView};

verus! {

/// The source text of a token.
pub open spec fn token_text(t: TokenView) -> Seq<char> {
    match t {
        TokenView::Ident(s) => s,
        TokenView::Punct(c) => seq![c],
        TokenView::Bool(b) => if b { "true"@ } else { "false"@ },
        TokenView::Str(s) => "\""@ + s + "\""@,
        TokenView::Open => "("@,
        TokenView::Close => ")"@,
    }
}

/// The source text of tokens, separated by spaces.
pub open spec fn tokens_text(t: Seq<TokenView>) -> Seq<char>
    decreases t.len(),
{
    if t.len() == 0 {
        Seq::empty()
    } else if t.len() == 1 {
        token_text(t[0])
    } else {
        tokens_text(t.drop_last()) + " "@ + token_text(t.last())
    }
}

/// Appends the source text of `t` (see [`tokens_text`]).
pub fn write_tokens(out: &mut String, t: &Vec<Token>)
    ensures
        final(out)@ == old(out)@ + tokens_text(t@.map_values(|x: Token| x@)),
{
    let ghost v = t@.map_values(|x: Token| x@);
    let ghost start = out@;
    let mut i: usize = 0;
    while i < t.len()
        invariant
            i <= t@.len(),
            v == t@.map_values(|x: Token| x@),
            out@ == start + tokens_text(v.subrange(0, i as int)),
        decreases t@.len() - i,
    {
        if i > 0 {
            out.append(" ");
        }
        match &t[i] {
            Token::Ident(s) => out.append(s.as_str()),
            Token::Punct(c) => {
                let s = char_text(*c);
                out.append(s.as_str());
            },
            Token::Bool(b) => {
                if *b {
                    out.append("true");
                } else {
                    out.append("false");
                }
            },
            Token::Str(s) => {
                out.append("\"");
                out.append(s.as_str());
                out.append("\"");
            },
            Token::Open => out.append("("),
            Token::Close => out.append(")"),
        }
        proof {
            let p = v.subrange(0, i + 1);
            assert(p.drop_last() =~= v.subrange(0, i as int));
            assert(p.last() == v[i as int]);
            if i == 0 {
                assert(out@ =~= start + tokens_text(p));
            } else {
                assert(out@ =~= start + tokens_text(p));
            }
        }
        i += 1;
    }
    assert(v.subrange(0, i as int) =~= v);
}

/// `T: <path>::TypePath, ` for each type parameter among the first `n`.
pub open spec fn param_bounds_text(path: Seq<char>, g: Seq<GenericParam>, n: int) -> Seq<char>
    decreases n,
{
    if n <= 0 {
        Seq::empty()
    } else {
        param_bounds_text(path, g, n - 1) + match &g[n - 1] {
            GenericParam::Type(t) => t@ + ": "@ + path + "::TypePath, "@,
            _ => Seq::empty(),
        }
    }
}

/// `ty: bound, ` for each of the first `n` field types.
pub open spec fn field_bounds_text(types: Seq<Seq<char>>, bound: Seq<char>, n: int) -> Seq<char>
    decreases n,
{
    if n <= 0 {
        Seq::empty()
    } else {
        field_bounds_text(types, bound, n - 1) + types[n - 1] + ": "@ + bound + ", "@
    }
}

/// The where clause of a generated impl: the type is `Any + Send + Sync`,
/// each type parameter has a type path, each given field type meets
/// `bound` unless `no_field_bounds` was given, and the custom `where`
/// predicates follow.
pub open spec fn where_clause_text(meta: &ReflectMeta, field_types: Seq<Seq<char>>, bound: Seq<char>) -> Seq<char> {
    let path = meta.bevy_reflect_path@;
    let t = meta.traits@;
    " where Self: ::core::any::Any + ::core::marker::Send + ::core::marker::Sync, "@
        + param_bounds_text(path, meta.generics@, meta.generics@.len() as int)
        + if t.no_field_bounds { Seq::empty() } else { field_bounds_text(field_types, bound, field_types.len() as int) }
        + match t.custom_where {
            Some(w) => tokens_text(w),
            None => Seq::empty(),
        }
}

/// Builds the where clause of a generated impl (see [`where_clause_text`]).
pub fn where_clause(meta: &ReflectMeta, field_types: &Vec<String>, bound: &str) -> (r: String)
    ensures
        r@ == where_clause_text(meta, strings_view(field_types@), bound@),
{
    let path = meta.bevy_reflect_path.as_str();
    let mut r = String::from_str(" where Self: ::core::any::Any + ::core::marker::Send + ::core::marker::Sync, ");
    let ghost start = r@;
    let mut i: usize = 0;
    while i < meta.generics.len()
        invariant
            i <= meta.generics@.len(),
            path@ == meta.bevy_reflect_path@,
            r@ == start + param_bounds_text(path@, meta.generics@, i as int),
        decreases meta.generics@.len() - i,
    {
        if let GenericParam::Type(t) = &meta.generics[i] {
            r.append(t.as_str());
            r.append(": ");
            r.append(path);
            r.append("::TypePath, ");
        }
        assert(r@ =~= start + param_bounds_text(path@, meta.generics@, i + 1));
        i += 1;
    }
    let ghost mid = r@;
    let ghost tv = strings_view(field_types@);
    if !meta.traits.no_field_bounds {
        let mut k: usize = 0;
        while k < field_types.len()
            invariant
                k <= field_types@.len(),
                tv == strings_view(field_types@),
                r@ == mid + field_bounds_text(tv, bound@, k as int),
            decreases field_types@.len() - k,
        {
            r.append(field_types[k].as_str());
            r.append(": ");
            r.append(bound);
            r.append(", ");
            assert(r@ =~= mid + field_bounds_text(tv, bound@, k + 1));
            k += 1;
        }
        assert(tv.len() == field_types@.len());
    }
    let ghost before_custom = r@;
    if let Some(w) = &meta.traits.custom_where {
        write_tokens(&mut r, w);
        assert(tokens_view(w@) == w@.map_values(|x: Token| x@));
    }
    r
}

/// How a generic parameter is declared on an impl.
pub open spec fn param_decl(p: &GenericParam) -> Seq<char> {
    match p {
        GenericParam::Lifetime(a) => a@,
        GenericParam::Type(t) => t@,
        GenericParam::Const(n, ty) => "const "@ + n@ + ": "@ + ty@,
    }
}

/// How a generic parameter is passed to the type.
pub open spec fn param_use(p: &GenericParam) -> Seq<char> {
    match p {
        GenericParam::Lifetime(a) => a@,
        GenericParam::Type(t) => t@,
        GenericParam::Const(n, _) => n@,
    }
}

/// `<...>` around the given texts, or nothing when there are none.
pub open spec fn angle_list(items: Seq<Seq<char>>) -> Seq<char> {
    if items.len() == 0 {
        Seq::empty()
    } else {
        "<"@ + debug_join(items) + ">"@
    }
}

pub open spec fn impl_generics_text(g: Seq<GenericParam>) -> Seq<char> {
    angle_list(g.map_values(|p: GenericParam| param_decl(&p)))
}

pub open spec fn ty_generics_text(g: Seq<GenericParam>) -> Seq<char> {
    angle_list(g.map_values(|p: GenericParam| param_use(&p)))
}

/// Builds the `<...>` list of the generics, declared (`decl`) or used.
pub fn generics_text(g: &Vec<GenericParam>, decl: bool) -> (r: String)
    ensures
        decl ==> r@ == impl_generics_text(g@),
        !decl ==> r@ == ty_generics_text(g@),
{
    let ghost items = if decl {
        g@.map_values(|p: GenericParam| param_decl(&p))
    } else {
        g@.map_values(|p: GenericParam| param_use(&p))
    };
    if g.len() == 0 {
        return String::new();
    }
    let mut r = String::from_str("<");
    let ghost start = r@;
    let mut i: usize = 0;
    while i < g.len()
        invariant
            i <= g@.len(),
            items == if decl {
                g@.map_values(|p: GenericParam| param_decl(&p))
            } else {
                g@.map_values(|p: GenericParam| param_use(&p))
            },
            r@ == start + debug_join(items.subrange(0, i as int)),
        decreases g@.len() - i,
    {
        if i > 0 {
            r.append(", ");
        }
        match &g[i] {
            GenericParam::Lifetime(a) => r.append(a.as_str()),
            GenericParam::Type(t) => r.append(t.as_str()),
            GenericParam::Const(n, ty) => {
                if decl {
                    r.append("const ");
                    r.append(n.as_str());
                    r.append(": ");
                    r.append(ty.as_str());
                } else {
                    r.append(n.as_str());
                }
            },
        }
        proof {
            let p = items.subrange(0, i + 1);
            assert(p.drop_last() =~= items.subrange(0, i as int));
            assert(p.last() == items[i as int]);
            assert(r@ =~= start + debug_join(p));
        }
        i += 1;
    }
    assert(items.subrange(0, i as int) =~= items);
    r.append(">");
    r
}

/// How the generated code writes the type.
pub open spec fn type_tokens_text(p: &PathToType) -> Seq<char> {
    match p {
        PathToType::Internal { ident, .. } => ident@,
        PathToType::External(segs) => join_path(strings_view(segs@)),
        PathToType::Primitive(id) => id@,
        PathToType::AliasedNamed { ty, .. } => ty@,
        PathToType::AliasedAnonymous { ty, .. } => ty@,
    }
}

/// Writes the type as the generated code names it.
pub fn type_tokens(p: &PathToType) -> (r: String)
    ensures
        r@ == type_tokens_text(p),
{
    match p {
        PathToType::Internal { ident, .. } => ident.clone(),
        PathToType::External(segs) => {
            assert(strings_view(segs@).subrange(0, segs@.len() as int) =~= strings_view(segs@));
            join_segments(segs, segs.len())
        },
        PathToType::Primitive(id) => id.clone(),
        PathToType::AliasedNamed { ty, .. } => ty.clone(),
        PathToType::AliasedAnonymous { ty, .. } => ty.clone(),
    }
}

/// The first `n` segments joined by `::`.
pub fn join_segments(segs: &Vec<String>, n: usize) -> (r: String)
    requires
        n <= segs@.len(),
    ensures
        r@ == join_path(strings_view(segs@).subrange(0, n as int)),
{
    let ghost v = strings_view(segs@);
    let mut r = String::new();
    let mut i: usize = 0;
    while i < n
        invariant
            i <= n <= segs@.len(),
            v == strings_view(segs@),
            r@ == join_path(v.subrange(0, i as int)),
        decreases n - i,
    {
        if i > 0 {
            r.append("::");
        }
        r.append(segs[i].as_str());
        proof {
            let p = v.subrange(0, i + 1);
            assert(p.drop_last() =~= v.subrange(0, i as int));
            assert(p.last() == v[i as int]);
            assert(r@ =~= join_path(p));
        }
        i += 1;
    }
    r
}

/// The insertion of the serialization data for the skipped positions, if
/// there are any.
pub open spec fn serialization_text(path: Seq<char>, skipped: Seq<usize>) -> Seq<char> {
    if skipped.len() == 0 {
        Seq::empty()
    } else {
        "let ignored_indices = ::core::iter::IntoIterator::into_iter(["@
            + debug_join(skipped.map_values(|n: usize| decimal(n as nat)))
            + "]); registration.insert::<"@ + path + "::serde::SerializationData>("@ + path
            + "::serde::SerializationData::new(ignored_indices)); "@
    }
}

/// One insertion per marker, in the order they were registered.
pub open spec fn markers_text(path: Seq<char>, markers: Seq<Seq<char>>) -> Seq<char>
    decreases markers.len(),
{
    if markers.len() == 0 {
        Seq::empty()
    } else {
        markers_text(path, markers.drop_last()) + "registration.insert::<"@ + markers.last() + ">("@ + path
            + "::FromType::<Self>::from_type()); "@
    }
}

/// The `GetTypeRegistration` impl: the pointer conversion first, then the
/// serialization data (when positions are skipped), then each marker.
pub open spec fn registration_text(
    path: Seq<char>,
    impl_generics: Seq<char>,
    ty: Seq<char>,
    ty_generics: Seq<char>,
    where_clause: Seq<char>,
    skipped: Seq<usize>,
    markers: Seq<Seq<char>>,
) -> Seq<char> {
    "#[allow(unused_mut)] impl"@ + impl_generics + " "@ + path + "::GetTypeRegistration for "@ + ty + ty_generics
        + where_clause + " { fn get_type_registration() -> "@ + path + "::TypeRegistration { let mut registration = "@ + path
        + "::TypeRegistration::of::<Self>(); registration.insert::<"@ + path + "::ReflectFromPtr>("@ + path
        + "::FromType::<Self>::from_type()); "@ + serialization_text(path, skipped) + markers_text(path, markers)
        + "registration } }"@
}

pub open spec fn marker_names(m: Seq<(Seq<char>, usize)>) -> Seq<Seq<char>> {
    m.map_values(|x: (Seq<char>, usize)| x.0)
}

/// Builds the `GetTypeRegistration` impl (see [`registration_text`]);
/// `skipped` holds the positions that serialization skips.
pub fn impl_get_type_registration(meta: &ReflectMeta, where_clause: &str, skipped: &Vec<usize>) -> (r: String)
    ensures
        r@ == registration_text(
            meta.bevy_reflect_path@,
            impl_generics_text(meta.generics@),
            type_tokens_text(&meta.path_to_type),
            ty_generics_text(meta.generics@),
            where_clause@,
            skipped@,
            marker_names(markers_view(meta.traits.idents@)),
        ),
{
    let path = meta.bevy_reflect_path.as_str();
    let mut r = String::from_str("#[allow(unused_mut)] impl");
    r.append(generics_text(&meta.generics, true).as_str());
    r.append(" ");
    r.append(path);
    r.append("::GetTypeRegistration for ");
    r.append(type_tokens(&meta.path_to_type).as_str());
    r.append(generics_text(&meta.generics, false).as_str());
    r.append(where_clause);
    r.append(" { fn get_type_registration() -> ");
    r.append(path);
    r.append("::TypeRegistration { let mut registration = ");
    r.append(path);
    r.append("::TypeRegistration::of::<Self>(); registration.insert::<");
    r.append(path);
    r.append("::ReflectFromPtr>(");
    r.append(path);
    r.append("::FromType::<Self>::from_type()); ");
    let ghost before_ser = r@;
    if skipped.len() > 0 {
        r.append("let ignored_indices = ::core::iter::IntoIterator::into_iter([");
        let ghost start = r@;
        let ghost nums = skipped@.map_values(|n: usize| decimal(n as nat));
        let mut i: usize = 0;
        while i < skipped.len()
            invariant
                i <= skipped@.len(),
                nums == skipped@.map_values(|n: usize| decimal(n as nat)),
                r@ == start + debug_join(nums.subrange(0, i as int)),
            decreases skipped@.len() - i,
        {
            if i > 0 {
                r.append(", ");
            }
            write_decimal(&mut r, skipped[i] as u64);
            proof {
                let p = nums.subrange(0, i + 1);
                assert(p.drop_last() =~= nums.subrange(0, i as int));
                assert(p.last() == nums[i as int]);
                assert(r@ =~= start + debug_join(p));
            }
            i += 1;
        }
        assert(nums.subrange(0, i as int) =~= nums);
        r.append("]); registration.insert::<");
        r.append(path);
        r.append("::serde::SerializationData>(");
        r.append(path);
        r.append("::serde::SerializationData::new(ignored_indices)); ");
    }
    assert(r@ =~= before_ser + serialization_text(meta.bevy_reflect_path@, skipped@));
    let ghost before_markers = r@;
    let ghost names = marker_names(markers_view(meta.traits.idents@));
    let idents = &meta.traits.idents;
    let mut k: usize = 0;
    while k < idents.len()
        invariant
            k <= idents@.len(),
            idents@ == meta.traits.idents@,
            path@ == meta.bevy_reflect_path@,
            names == marker_names(markers_view(meta.traits.idents@)),
            r@ == before_markers + markers_text(meta.bevy_reflect_path@, names.subrange(0, k as int)),
        decreases idents@.len() - k,
    {
        assert(names[k as int] == idents@[k as int].0@);
        let ghost r0 = r@;
        r.append("registration.insert::<");
        r.append(idents[k].0.as_str());
        r.append(">(");
        r.append(path);
        r.append("::FromType::<Self>::from_type()); ");
        proof {
            let p = names.subrange(0, k + 1);
            assert(p.drop_last() =~= names.subrange(0, k as int));
            assert(p.last() == idents@[k as int].0@);
            assert(r@ =~= r0 + "registration.insert::<"@ + p.last() + ">("@ + meta.bevy_reflect_path@ + "::FromType::<Self>::from_type()); "@);
            assert(markers_text(meta.bevy_reflect_path@, p) == markers_text(meta.bevy_reflect_path@, p.drop_last()) + "registration.insert::<"@ + p.last() + ">("@ + meta.bevy_reflect_path@ + "::FromType::<Self>::from_type()); "@);
            assert(r@ =~= before_markers + markers_text(meta.bevy_reflect_path@, p));
        }
        k += 1;
    }
    assert(names.subrange(0, k as int) =~= names);
    r.append("registration } }");
    r
}

} // verus!
