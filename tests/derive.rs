use bevy_reflect::attribute_parser::{ReflectImplSource, ReflectTraitToImpl};
use bevy_reflect::derive_data::{
    AttrMeta, Attribute, DeclData, DeriveInput, FieldDecl, FieldsShape, GenericParam, PathToType, ReflectDerive,
    VariantDecl,
};
use bevy_reflect::error::ErrorKind;
use bevy_reflect::field_attributes::{DefaultBehavior, IgnoreBehavior};
use bevy_reflect::from_reflect::{impl_enum, impl_struct, impl_tuple_struct as from_reflect_tuple, impl_value as from_reflect_value};
use bevy_reflect::impls::{impl_tuple_struct, impl_value};
use bevy_reflect::registration::impl_get_type_registration;
use bevy_reflect::tokens::Token;
use bevy_reflect::typed::{impl_full_reflect, impl_type_path, type_path_generator};

fn ident(s: &str) -> Token {
    Token::Ident(s.to_string())
}

fn list(name: &str, tokens: Vec<Token>, span: usize) -> Attribute {
    Attribute { meta: AttrMeta::List(name.to_string(), tokens), span }
}

fn field(name: Option<&str>, ty: &str, attrs: Vec<Attribute>) -> FieldDecl {
    FieldDecl { ident: name.map(|n| n.to_string()), ty: ty.to_string(), attrs }
}

fn input(attrs: Vec<Attribute>, data: DeclData) -> DeriveInput {
    DeriveInput {
        ident: "Foo".to_string(),
        module: vec!["my_crate".to_string(), "things".to_string()],
        generics: vec![],
        attrs,
        data,
    }
}

fn derive(i: &DeriveInput) -> Result<ReflectDerive, Vec<bevy_reflect::error::ReflectError>> {
    ReflectDerive::from_input(i, ReflectImplSource::DeriveLocalType, ReflectTraitToImpl::Reflect)
}

fn named_struct(attrs: Vec<Attribute>) -> DeriveInput {
    input(
        attrs,
        DeclData::Struct(
            FieldsShape::Named,
            vec![field(Some("a"), "u32", vec![]), field(Some("b"), "String", vec![])],
        ),
    )
}

#[test]
fn reflect_and_reflect_value_fail_in_either_order() {
    let i = named_struct(vec![list("reflect", vec![ident("Hash")], 0), list("reflect_value", vec![], 1)]);
    let e = derive(&i).unwrap_err();
    assert_eq!(e.len(), 1);
    assert_eq!(e[0].kind, ErrorKind::BothReflectModes);
    assert_eq!(e[0].span, 1);
    assert_eq!(e[0].message(), "cannot use both `#[reflect]` and `#[reflect_value]`");
    let j = named_struct(vec![
        Attribute { meta: AttrMeta::Path("reflect_value".to_string()), span: 0 },
        list("reflect", vec![ident("Hash")], 1),
    ]);
    assert_eq!(derive(&j).unwrap_err()[0].kind, ErrorKind::BothReflectModes);
}

#[test]
fn record_with_named_fields_is_a_struct() {
    let i = named_struct(vec![list("reflect", vec![ident("PartialEq")], 0)]);
    match derive(&i).unwrap() {
        ReflectDerive::Struct(s) => {
            assert_eq!(s.fields.len(), 2);
            assert_eq!(s.fields[1].index, 1);
            assert_eq!(s.fields[1].ty, "String");
            assert!(s.meta.traits.get_partial_eq_impl("p").is_some());
        },
        _ => panic!("expected a struct"),
    }
}

#[test]
fn value_mode_keeps_no_fields() {
    let i = named_struct(vec![list("reflect_value", vec![ident("Hash")], 0)]);
    assert!(matches!(derive(&i).unwrap(), ReflectDerive::Value(_)));
}

#[test]
fn union_is_refused() {
    let i = input(vec![], DeclData::Union);
    let e = derive(&i).unwrap_err();
    assert_eq!(e[0].kind, ErrorKind::UnionNotSupported);
    assert_eq!(e[0].message(), "reflection not supported for unions");
}

#[test]
fn field_errors_are_all_reported() {
    let bad = || vec![list("reflect", vec![ident("bogus")], 0)];
    let i = input(
        vec![],
        DeclData::Struct(
            FieldsShape::Named,
            vec![field(Some("a"), "u32", bad()), field(Some("b"), "u32", vec![]), field(Some("c"), "u32", bad())],
        ),
    );
    let e = derive(&i).unwrap_err();
    assert_eq!(e.len(), 2);
    assert!(e.iter().all(|x| x.kind == ErrorKind::UnexpectedToken));
}

#[test]
fn type_path_alias_is_split_into_segments() {
    let i = named_struct(vec![Attribute {
        meta: AttrMeta::NameValue("type_path".to_string(), Token::Str("other::place::Bar".to_string())),
        span: 0,
    }]);
    let d = derive(&i).unwrap();
    match &d.meta().path_to_type {
        PathToType::AliasedNamed { ty, alias } => {
            assert_eq!(ty, "Foo");
            assert_eq!(alias, &vec!["other".to_string(), "place".to_string(), "Bar".to_string()]);
        },
        _ => panic!("expected an alias"),
    }
    assert_eq!(d.meta().path_to_type.crate_name().unwrap(), "\"other\"");
    assert_eq!(d.meta().path_to_type.module().unwrap(), "\"other::place\"");
    assert_eq!(d.meta().path_to_type.name(), "Bar");
}

#[test]
fn type_path_errors() {
    let bad = named_struct(vec![Attribute {
        meta: AttrMeta::NameValue("type_path".to_string(), Token::Str("::lead".to_string())),
        span: 3,
    }]);
    assert_eq!(derive(&bad).unwrap_err()[0].kind, ErrorKind::InvalidTypePath);
    let not_str = named_struct(vec![Attribute {
        meta: AttrMeta::NameValue("type_path".to_string(), Token::Bool(true)),
        span: 3,
    }]);
    assert_eq!(derive(&not_str).unwrap_err()[0].kind, ErrorKind::TypePathNotString);
    let twice = named_struct(vec![
        Attribute { meta: AttrMeta::NameValue("type_path".to_string(), Token::Str("a::B".to_string())), span: 0 },
        Attribute { meta: AttrMeta::NameValue("type_path".to_string(), Token::Str("a::C".to_string())), span: 1 },
    ]);
    let e = derive(&twice).unwrap_err();
    assert_eq!(e[0].kind, ErrorKind::MultipleTypePaths);
    assert_eq!(e[0].span, 1);
}

#[test]
fn internal_type_paths() {
    let d = derive(&named_struct(vec![])).unwrap();
    let p = &d.meta().path_to_type;
    assert!(p.has_module());
    assert_eq!(p.crate_name().unwrap(), "\"my_crate\"");
    assert_eq!(p.module().unwrap(), "\"my_crate::things\"");
    assert_eq!(p.fully_qualified_path(), "\"my_crate::things\".to_owned() + ::core::concat!(\"::\", \"Foo\")");
    let prim = PathToType::Primitive("bool".to_string());
    assert!(!prim.has_module());
    assert!(prim.crate_name().is_none());
    assert_eq!(prim.fully_qualified_path(), "\"bool\".to_owned()");
}

fn ignored_struct(attrs: Vec<Attribute>) -> DeriveInput {
    input(
        attrs,
        DeclData::Struct(
            FieldsShape::Named,
            vec![
                field(Some("a"), "u32", vec![]),
                field(Some("skip"), "Cache", vec![list("reflect", vec![ident("ignore")], 0)]),
                field(
                    Some("c"),
                    "u8",
                    vec![list("reflect", vec![ident("default"), Token::Punct('='), Token::Str("seven".to_string())], 0)],
                ),
            ],
        ),
    )
}

#[test]
fn field_attributes_are_read() {
    match derive(&ignored_struct(vec![])).unwrap() {
        ReflectDerive::Struct(s) => {
            assert_eq!(s.fields[0].attrs.ignore, IgnoreBehavior::Active);
            assert_eq!(s.fields[1].attrs.ignore, IgnoreBehavior::IgnoreAlways);
            assert!(matches!(&s.fields[2].attrs.default, DefaultBehavior::Func(p) if p == "seven"));
        },
        _ => panic!("expected a struct"),
    }
}

#[test]
fn from_reflect_of_struct_with_ignored_field() {
    let d = derive(&ignored_struct(vec![])).unwrap();
    let s = match &d {
        ReflectDerive::Struct(s) => s,
        _ => panic!("expected a struct"),
    };
    let text = impl_struct(s);
    assert!(text.starts_with("impl ::bevy_reflect::FromReflect for Foo where Self: ::core::any::Any + ::core::marker::Send + ::core::marker::Sync, u32: ::bevy_reflect::FromReflect, u8: ::bevy_reflect::FromReflect,  { fn from_reflect"));
    assert!(text.contains("a: (|| <u32 as ::bevy_reflect::FromReflect>::from_reflect(::bevy_reflect::Struct::field(__ref_struct, \"a\")?))()?, "));
    assert!(text.contains("::core::option::Option::Some(seven())"));
    assert!(text.contains("skip: ::core::default::Default::default(), "));
    assert!(text.contains("::bevy_reflect::ReflectRef::Struct(__ref_struct)"));
}

#[test]
fn from_reflect_with_registered_default_overlays_fields() {
    let d = derive(&ignored_struct(vec![list("reflect", vec![ident("Default")], 0)])).unwrap();
    let s = match &d {
        ReflectDerive::Struct(s) => s,
        _ => panic!("expected a struct"),
    };
    let text = impl_struct(s);
    assert!(text.contains("let mut __this: Self = ::core::default::Default::default(); "));
    assert!(text.contains("{ __this.a = __field; }"));
    assert!(!text.contains("__this.skip"));
    assert!(text.contains("::core::option::Option::Some(__this)"));
}

fn tuple_input() -> DeriveInput {
    input(
        vec![list("reflect", vec![ident("Hash"), Token::Punct(','), ident("Default")], 0)],
        DeclData::Struct(
            FieldsShape::Unnamed,
            vec![
                field(None, "u32", vec![]),
                field(None, "f32", vec![list("reflect", vec![ident("skip_serializing")], 0)]),
                field(None, "Cache", vec![list("reflect", vec![ident("ignore")], 0)]),
                field(None, "String", vec![list("reflect", vec![ident("skip_serializing")], 0)]),
            ],
        ),
    )
}

#[test]
fn tuple_struct_impls() {
    let d = derive(&tuple_input()).unwrap();
    let s = match &d {
        ReflectDerive::TupleStruct(s) => s,
        _ => panic!("expected a tuple struct"),
    };
    let text = impl_tuple_struct(s);
    assert!(text.contains("impl ::bevy_reflect::TupleStruct for Foo"));
    assert!(text.contains("0 => ::core::option::Option::Some(&self.0), 1 => ::core::option::Option::Some(&self.1), 2 => ::core::option::Option::Some(&self.3), _ =>"));
    assert!(text.contains("fn field_len(&self) -> usize { 3 }"));
    assert!(text.contains("::bevy_reflect::UnnamedField::new::<String>(3), "));
    assert!(text.contains("::bevy_reflect::TupleStructInfo::new::<Self>(\"Foo\", &fields)"));
    assert!(text.contains("::bevy_reflect::tuple_struct_partial_eq(self, value)"));
    assert!(text.contains("Hash::hash(self, &mut hasher)"));
    assert!(text.contains("into_iter([1, 2])"));
    assert!(text.contains("registration.insert::<ReflectDefault>(::bevy_reflect::FromType::<Self>::from_type()); registration } }"));
    assert!(text.contains("NonGenericTypeInfoCell"));
    let fr = from_reflect_tuple(s);
    assert!(fr.contains("::bevy_reflect::TupleStruct::field(__ref_struct, 2)"));
    assert!(!fr.contains("field(__ref_struct, 3)"));
}

#[test]
fn registration_order() {
    let d = derive(&tuple_input()).unwrap();
    let text = impl_get_type_registration(d.meta(), "", &vec![0, 4]);
    let ptr = text.find("ReflectFromPtr").unwrap();
    let ser = text.find("SerializationData").unwrap();
    let marker = text.find("ReflectDefault").unwrap();
    assert!(ptr < ser && ser < marker);
    assert!(text.contains("into_iter([0, 4])"));
    let plain = impl_get_type_registration(d.meta(), "", &vec![]);
    assert!(!plain.contains("SerializationData"));
}

#[test]
fn value_impls() {
    let i = named_struct(vec![list("reflect_value", vec![ident("PartialEq")], 0)]);
    let d = derive(&i).unwrap();
    let text = impl_value(d.meta());
    assert!(text.contains("::bevy_reflect::ReflectRef::Value(self)"));
    assert!(text.contains("::core::cmp::PartialEq::eq(self, value)"));
    assert!(text.contains("::bevy_reflect::ValueInfo::new::<Self>()"));
    assert!(!text.contains("SerializationData"));
    let fr = from_reflect_value(d.meta());
    assert!(fr.contains("::core::clone::Clone::clone(<dyn ::core::any::Any>::downcast_ref::<Foo>("));
}

#[test]
fn enum_from_reflect_panics_on_unknown_variant() {
    let i = input(
        vec![],
        DeclData::Enum(vec![
            VariantDecl { ident: "A".to_string(), shape: FieldsShape::Unit, fields: vec![], attrs: vec![] },
            VariantDecl {
                ident: "B".to_string(),
                shape: FieldsShape::Unnamed,
                fields: vec![field(None, "u8", vec![]), field(None, "u16", vec![])],
                attrs: vec![],
            },
            VariantDecl {
                ident: "C".to_string(),
                shape: FieldsShape::Named,
                fields: vec![field(Some("x"), "i32", vec![])],
                attrs: vec![],
            },
        ]),
    );
    let d = derive(&i).unwrap();
    let e = match &d {
        ReflectDerive::Enum(e) => e,
        _ => panic!("expected an enum"),
    };
    let text = impl_enum(e);
    assert!(text.contains("\"A\" => ::core::option::Option::Some(Foo::A), "));
    assert!(text.contains("Foo::B(<u8 as ::bevy_reflect::FromReflect>::from_reflect(::bevy_reflect::Enum::field_at(__param0, 0)?)?, <u16 as ::bevy_reflect::FromReflect>::from_reflect(::bevy_reflect::Enum::field_at(__param0, 1)?)?, )"));
    assert!(text.contains("Foo::C { x: <i32 as ::bevy_reflect::FromReflect>::from_reflect(::bevy_reflect::Enum::field(__param0, \"x\")?)?, }"));
    assert!(text.contains("name => panic!(\"variant with name `{}` does not exist on enum `{}`\", name, ::core::any::type_name::<Self>())"));
}

#[test]
fn generic_type_paths_are_cached_per_instantiation() {
    let mut i = named_struct(vec![]);
    i.generics = vec![GenericParam::Lifetime("'a".to_string()), GenericParam::Type("T".to_string())];
    let d = derive(&i).unwrap();
    let long = type_path_generator(true, d.meta());
    assert!(long.ends_with(" + \"<\" + &[::std::string::ToString::to_string(<T as ::bevy_reflect::TypePath>::type_path())].join(\", \") + \">\""));
    let text = impl_type_path(d.meta(), "");
    assert!(text.starts_with("impl<'a, T> ::bevy_reflect::TypePath for Foo<'a, T>"));
    assert!(text.contains("GenericTypePathCell"));
    assert!(text.contains("get_or_insert::<Self, _>"));
}

#[test]
fn plain_type_paths_are_literals() {
    let d = derive(&named_struct(vec![])).unwrap();
    let text = impl_type_path(d.meta(), "");
    assert!(text.contains("fn type_path() -> &'static str { \"my_crate::things::Foo\" }"));
    assert!(text.contains("fn short_type_path() -> &'static str { \"Foo\" }"));
    assert!(text.contains("fn crate_name() -> ::core::option::Option<&'static str> { ::core::option::Option::Some(\"my_crate\") }"));
    assert!(text.contains("fn module_path() -> ::core::option::Option<&'static str> { ::core::option::Option::Some(\"my_crate::things\") }"));
    let full = impl_full_reflect(d.meta(), "");
    assert!(full.starts_with("impl ::bevy_reflect::Reflect for Foo {"));
    assert!(full.contains("try_take(value)?"));
}

#[test]
fn active_and_ignored_field_types() {
    let d = derive(&ignored_struct(vec![])).unwrap();
    let s = match &d {
        ReflectDerive::Struct(s) => s,
        _ => panic!("expected a struct"),
    };
    assert_eq!(s.active_types(), vec!["u32".to_string(), "u8".to_string()]);
    assert_eq!(s.ignored_types(), vec!["Cache".to_string()]);
    assert_eq!(s.active_fields().len(), 2);
    assert_eq!(s.ignored_fields()[0].index, 1);
    let e = input(
        vec![],
        DeclData::Enum(vec![
            VariantDecl { ident: "A".to_string(), shape: FieldsShape::Unit, fields: vec![], attrs: vec![] },
            VariantDecl {
                ident: "B".to_string(),
                shape: FieldsShape::Unnamed,
                fields: vec![field(None, "u8", vec![]), field(None, "Cache", vec![list("reflect", vec![ident("ignore")], 0)])],
                attrs: vec![],
            },
        ]),
    );
    match derive(&e).unwrap() {
        ReflectDerive::Enum(en) => {
            assert_eq!(en.active_types(), vec!["u8".to_string()]);
            assert_eq!(en.ignored_types(), vec!["Cache".to_string()]);
            assert_eq!(en.get_unit("A"), "Foo::A");
            assert_eq!(en.variants()[1].active_fields().len(), 1);
            assert_eq!(en.variants()[0].ignored_fields().len(), 0);
        },
        _ => panic!("expected an enum"),
    }
}

#[test]
fn where_clauses_carry_bounds_and_custom_predicates() {
    let mut i = input(
        vec![list("reflect", vec![ident("where"), ident("T"), Token::Punct(':'), ident("Clone")], 0)],
        DeclData::Struct(FieldsShape::Unnamed, vec![field(None, "T", vec![])]),
    );
    i.generics = vec![GenericParam::Type("T".to_string())];
    let d = derive(&i).unwrap();
    let s = match &d {
        ReflectDerive::TupleStruct(s) => s,
        _ => panic!("expected a tuple struct"),
    };
    let w = s.where_clause_options();
    assert_eq!(
        w,
        " where Self: ::core::any::Any + ::core::marker::Send + ::core::marker::Sync, T: ::bevy_reflect::TypePath, T: ::bevy_reflect::Reflect, T : Clone"
    );
    let text = impl_tuple_struct(s);
    assert!(text.contains("impl<T> ::bevy_reflect::TupleStruct for Foo<T> where Self:"));
    assert!(text.contains("impl<T> ::bevy_reflect::GetTypeRegistration for Foo<T> where Self:"));
    let fr = from_reflect_tuple(s);
    assert!(fr.contains("T: ::bevy_reflect::FromReflect, T : Clone {"));
    let j = input(
        vec![list("reflect", vec![ident("no_field_bounds")], 0)],
        DeclData::Struct(FieldsShape::Unnamed, vec![field(None, "u8", vec![])]),
    );
    let dj = derive(&j).unwrap();
    match &dj {
        ReflectDerive::TupleStruct(s) => {
            assert_eq!(s.where_clause_options(), " where Self: ::core::any::Any + ::core::marker::Send + ::core::marker::Sync, ");
        },
        _ => panic!("expected a tuple struct"),
    }
}

#[test]
fn type_arguments_come_before_const_arguments() {
    let mut i = named_struct(vec![]);
    i.generics = vec![GenericParam::Const("N".to_string(), "usize".to_string()), GenericParam::Type("T".to_string())];
    let d = derive(&i).unwrap();
    let long = type_path_generator(true, d.meta());
    assert!(long.ends_with(
        "&[::std::string::ToString::to_string(<T as ::bevy_reflect::TypePath>::type_path()), <usize as ::std::string::ToString>::to_string(&N)].join(\", \") + \">\""
    ));
    let short = type_path_generator(false, d.meta());
    assert!(short.contains("[::std::string::ToString::to_string(<T as ::bevy_reflect::TypePath>::short_type_path()), <usize"));
}

#[test]
fn generate_lists_impls_by_shape() {
    let d = derive(&tuple_input()).unwrap();
    let texts = d.generate();
    assert_eq!(texts.len(), 3);
    assert!(texts[0].starts_with("impl ::bevy_reflect::TypePath for Foo"));
    assert!(texts[1].contains("::bevy_reflect::TupleStruct for Foo"));
    assert!(texts[2].starts_with("impl ::bevy_reflect::FromReflect for Foo"));
    let v = derive(&named_struct(vec![list(
        "reflect_value",
        vec![ident("type_path"), Token::Punct('='), Token::Bool(false), Token::Punct(','), ident("from_reflect"), Token::Punct('='), Token::Bool(false)],
        0,
    )]))
    .unwrap();
    let texts = v.generate();
    assert_eq!(texts.len(), 1);
    assert!(texts[0].contains("::bevy_reflect::ReflectRef::Value(self)"));
    assert!(d.meta().path_to_type.is_well_formed());
    assert!(!PathToType::External(vec![]).is_well_formed());
}

#[test]
fn list_errors_name_their_attribute() {
    let i = named_struct(vec![
        list("reflect", vec![ident("Hash")], 0),
        list("reflect", vec![ident("Default"), Token::Punct(','), ident("Hash")], 1),
    ]);
    let e = derive(&i).unwrap_err();
    assert_eq!(e[0].kind, ErrorKind::ConflictingRegistration);
    assert_eq!(e[0].span, 2);
    assert_eq!(e[0].attribute, Some(1));
    let j = named_struct(vec![list("reflect", vec![ident("Debug"), ident("Hash")], 4)]);
    let e = derive(&j).unwrap_err();
    assert_eq!(e[0].kind, ErrorKind::UnexpectedToken);
    assert_eq!((e[0].span, e[0].attribute), (1, Some(4)));
}
