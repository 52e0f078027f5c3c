use bevy_reflect::attribute_parser::{ReflectImplSource, ReflectProvenance, ReflectTraitToImpl, ReflectTypeKind};
use bevy_reflect::container_attributes::{ContainerAttributes, TraitImpl};
use bevy_reflect::error::ErrorKind;
use bevy_reflect::tokens::Token;

fn toks(s: &str) -> Vec<Token> {
    let chars: Vec<char> = s.chars().collect();
    let mut out = Vec::new();
    let mut i = 0;
    while i < chars.len() {
        let c = chars[i];
        if c.is_whitespace() {
            i += 1;
        } else if c.is_alphanumeric() || c == '_' {
            let start = i;
            while i < chars.len() && (chars[i].is_alphanumeric() || chars[i] == '_') {
                i += 1;
            }
            let word: String = chars[start..i].iter().collect();
            if word == "true" {
                out.push(Token::Bool(true));
            } else if word == "false" {
                out.push(Token::Bool(false));
            } else {
                out.push(Token::Ident(word));
            }
        } else if c == '"' {
            let start = i + 1;
            i += 1;
            while chars[i] != '"' {
                i += 1;
            }
            out.push(Token::Str(chars[start..i].iter().collect()));
            i += 1;
        } else if c == '(' {
            out.push(Token::Open);
            i += 1;
        } else if c == ')' {
            out.push(Token::Close);
            i += 1;
        } else {
            out.push(Token::Punct(c));
            i += 1;
        }
    }
    out
}

fn prov() -> ReflectProvenance {
    ReflectProvenance {
        source: ReflectImplSource::DeriveLocalType,
        trait_: ReflectTraitToImpl::Reflect,
        type_kind: ReflectTypeKind::Struct,
    }
}

fn parse(s: &str) -> ContainerAttributes {
    ContainerAttributes::parse_terminated(&toks(s), prov()).unwrap()
}

fn markers(a: &ContainerAttributes) -> Vec<String> {
    a.idents().iter().map(|m| m.0.clone()).collect()
}

#[test]
fn parses_special_traits_and_markers() {
    let a = parse("PartialEq, Hash(my_hash), Default, no_field_bounds");
    assert!(matches!(a.partial_eq, TraitImpl::Implemented(0)));
    assert!(matches!(&a.hash, TraitImpl::Custom(p, 2) if p == "my_hash"));
    assert!(matches!(a.debug, TraitImpl::NotImplemented));
    assert_eq!(markers(&a), vec!["ReflectDefault".to_string()]);
    assert!(a.no_field_bounds());
}

#[test]
fn parses_paths_with_segments() {
    let a = parse("Debug(crate::fmt::show)");
    assert!(matches!(&a.debug, TraitImpl::Custom(p, 0) if p == "crate::fmt::show"));
}

#[test]
fn trailing_comma_is_allowed() {
    let a = parse("Hash,");
    assert!(matches!(a.hash, TraitImpl::Implemented(0)));
}

#[test]
fn toggles_default_to_true() {
    let a = parse("Hash");
    assert!(a.should_auto_derive_from_reflect());
    assert!(a.should_auto_derive_type_path());
    let b = parse("from_reflect = false, type_path = false");
    assert!(!b.should_auto_derive_from_reflect());
    assert!(!b.should_auto_derive_type_path());
}

#[test]
fn from_reflect_toggle_is_forced_under_its_own_derive() {
    let p = ReflectProvenance { trait_: ReflectTraitToImpl::FromReflect, ..prov() };
    let a = ContainerAttributes::parse_terminated(&toks("from_reflect = false"), p).unwrap();
    assert!(a.should_auto_derive_from_reflect());
}

#[test]
fn where_clause_takes_the_rest() {
    let a = parse("Hash, where T: Clone, U: Debug");
    assert_eq!(a.custom_where.as_ref().unwrap().len(), 7);
}

#[test]
fn custom_function_on_marker_is_refused() {
    let e = ContainerAttributes::parse_terminated(&toks("Default(make)"), prov()).unwrap_err();
    assert_eq!(e.kind, ErrorKind::CustomFunctionNotAllowed);
    assert_eq!(e.span, 0);
    assert_eq!(e.message(), "only [\"Debug\", \"PartialEq\", \"Hash\"] may specify custom functions");
}

#[test]
fn non_boolean_toggle_is_refused() {
    let e = ContainerAttributes::parse_terminated(&toks("from_reflect = yes"), prov()).unwrap_err();
    assert_eq!(e.kind, ErrorKind::ExpectedBool);
    assert_eq!(e.span, 2);
    assert_eq!(e.message(), "Expected a boolean value");
}

#[test]
fn missing_comma_is_refused() {
    let e = ContainerAttributes::parse_terminated(&toks("Hash Debug"), prov()).unwrap_err();
    assert_eq!(e.kind, ErrorKind::UnexpectedToken);
    assert_eq!(e.span, 1);
}

#[test]
fn empty_custom_function_is_refused() {
    let e = ContainerAttributes::parse_terminated(&toks("Hash()"), prov()).unwrap_err();
    assert_eq!(e.kind, ErrorKind::ExpectedPath);
}

#[test]
fn special_trait_twice_in_one_list_conflicts() {
    for list in ["Hash, Hash", "Debug(f), Debug", "PartialEq, PartialEq(g)"] {
        let e = ContainerAttributes::parse_terminated(&toks(list), prov()).unwrap_err();
        assert_eq!(e.kind, ErrorKind::ConflictingRegistration);
        assert_eq!(e.span, if list.starts_with("Debug") { 5 } else { 2 });
    }
}

#[test]
fn custom_function_twice_in_one_list_conflicts() {
    let e = ContainerAttributes::parse_terminated(&toks("Hash, Hash(h)"), prov()).unwrap_err();
    assert_eq!(e.kind, ErrorKind::ConflictingRegistration);
    assert_eq!(e.span, 2);
}

#[test]
fn marker_twice_in_one_list_fails() {
    let e = ContainerAttributes::parse_terminated(&toks("Default, Hash, Default"), prov()).unwrap_err();
    assert_eq!(e.kind, ErrorKind::ConflictingRegistration);
    assert_eq!(e.span, 4);
    assert_eq!(e.message(), "conflicting type data registration");
}

#[test]
fn marker_twice_across_lists_fails_in_either_order() {
    let mut a = parse("Default");
    assert_eq!(a.merge(parse("Hash, Default")).unwrap_err().kind, ErrorKind::ConflictingRegistration);
    let mut b = parse("Hash, Default");
    assert_eq!(b.merge(parse("Default")).unwrap_err().kind, ErrorKind::ConflictingRegistration);
}

#[test]
fn disjoint_sets_merge_into_their_union() {
    let mut a = parse("PartialEq, Default, from_reflect = false");
    a.merge(parse("Hash(h), Serialize, no_field_bounds, type_path = true")).unwrap();
    assert!(matches!(a.partial_eq, TraitImpl::Implemented(0)));
    assert!(matches!(&a.hash, TraitImpl::Custom(p, _) if p == "h"));
    assert!(matches!(a.debug, TraitImpl::NotImplemented));
    assert_eq!(markers(&a), vec!["ReflectDefault".to_string(), "ReflectSerialize".to_string()]);
    assert!(a.no_field_bounds());
    assert!(!a.should_auto_derive_from_reflect());
    assert!(a.should_auto_derive_type_path());
}

#[test]
fn special_trait_on_both_sides_conflicts_in_either_order() {
    let mut a = parse("Debug");
    let e = a.merge(parse("Default, Debug(show)")).unwrap_err();
    assert_eq!(e.kind, ErrorKind::ConflictingRegistration);
    assert_eq!(e.span, 2);
    let mut b = parse("Default, Debug(show)");
    assert!(b.merge(parse("Debug")).is_err());
}

#[test]
fn same_toggle_value_twice_merges() {
    let mut a = parse("from_reflect = false");
    a.merge(parse("from_reflect = false")).unwrap();
    assert!(!a.should_auto_derive_from_reflect());
    let mut b = parse("type_path = true");
    b.merge(parse("type_path = true")).unwrap();
    assert!(b.should_auto_derive_type_path());
}

#[test]
fn different_toggle_values_conflict() {
    let mut a = parse("from_reflect = false");
    let e = a.merge(parse("from_reflect = true")).unwrap_err();
    assert_eq!(e.kind, ErrorKind::FromReflectAlreadySet(false, true));
    assert_eq!(e.message(), "`from_reflect` already set to false, cannot set it to true");
    let mut b = parse("type_path = true");
    let e = b.merge(parse("type_path = false")).unwrap_err();
    assert_eq!(e.kind, ErrorKind::TypePathAlreadySet(true, false));
    assert_eq!(e.message(), "`type_path` already set to true, cannot set it to false");
}

#[test]
fn where_clauses_merge_by_concatenation() {
    let mut a = parse("where T: Clone");
    a.merge(parse("where U: Debug")).unwrap();
    assert_eq!(a.custom_where.as_ref().unwrap().len(), 7);
    let mut b = parse("Hash");
    b.merge(parse("where U: Debug")).unwrap();
    assert_eq!(b.custom_where.as_ref().unwrap().len(), 3);
}

#[test]
fn container_default_on_local_type_fails() {
    let e = ContainerAttributes::parse_terminated(&toks("container_default = make"), prov()).unwrap_err();
    assert_eq!(e.kind, ErrorKind::ContainerDefaultOnLocalType);
    assert_eq!(
        e.message(),
        "`#[reflect(container_default = ...)]` is only applicable when using `impl_reflect`."
    );
}

#[test]
fn container_default_on_enum_fails() {
    let p = ReflectProvenance {
        source: ReflectImplSource::ImplRemoteType,
        trait_: ReflectTraitToImpl::Reflect,
        type_kind: ReflectTypeKind::Enum,
    };
    let e = ContainerAttributes::parse_terminated(&toks("container_default = make"), p).unwrap_err();
    assert_eq!(e.kind, ErrorKind::ContainerDefaultOnNonStruct);
    assert_eq!(e.message(), "`#[reflect(container_default = ...)]` is only applicable on structs.");
}

#[test]
fn container_default_on_remote_struct_is_kept() {
    let p = ReflectProvenance { source: ReflectImplSource::ImplRemoteType, ..prov() };
    let a = ContainerAttributes::parse_terminated(&toks("container_default = my::make"), p).unwrap();
    assert_eq!(a.from_reflect_attrs.container_default.as_ref().unwrap().0, "my::make");
    let b = ContainerAttributes::parse_terminated(&toks("container_default"), p).unwrap();
    assert_eq!(b.from_reflect_attrs.container_default.as_ref().unwrap().0, "::core::default::Default::default");
    let e = ContainerAttributes::parse_terminated(&toks("container_default, container_default"), p).unwrap_err();
    assert_eq!(e.kind, ErrorKind::ContainerDefaultAlreadySet);
}

#[test]
fn generated_methods_forward_to_own_impls() {
    let a = parse("PartialEq, Hash, Debug");
    let hash = a.get_hash_impl("::bevy_reflect").unwrap();
    assert!(hash.contains("Hash::hash(self, &mut hasher)"));
    assert!(hash.contains("::bevy_reflect::utility::reflect_hasher()"));
    let eq = a.get_partial_eq_impl("::bevy_reflect").unwrap();
    assert!(eq.contains("::core::cmp::PartialEq::eq(self, value)"));
    assert!(eq.contains("downcast_ref::<Self>(value)"));
    let debug = a.get_debug_impl().unwrap();
    assert_eq!(
        debug,
        "fn debug(&self, f: &mut ::core::fmt::Formatter<'_>) -> ::core::fmt::Result { ::core::fmt::Debug::fmt(self, f) }"
    );
}

#[test]
fn custom_hash_is_a_call_wrapped_in_some() {
    let a = parse("Hash(my_hash_fn)");
    assert_eq!(
        a.get_hash_impl("::bevy_reflect").unwrap(),
        "fn reflect_hash(&self) -> ::core::option::Option<u64> { ::core::option::Option::Some(my_hash_fn(self)) }"
    );
    assert!(a.get_partial_eq_impl("::bevy_reflect").is_none());
    assert!(a.get_debug_impl().is_none());
}

#[test]
fn custom_partial_eq_and_debug_call_the_function() {
    let a = parse("PartialEq(eq_fn), Debug(dbg_fn)");
    assert!(a.get_partial_eq_impl("p").unwrap().contains("::core::option::Option::Some(eq_fn(self, value))"));
    assert!(a.get_debug_impl().unwrap().contains("{ dbg_fn(self, f) }"));
}
