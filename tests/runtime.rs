use bevy_reflect::reconstruct::{EnumFromReflect, FieldDefault, FieldSchema, ReflectDefault, ReflectFromReflect};
use bevy_reflect::reflect::{DynamicEnum, DynamicStruct, FromReflect, Opaque, PartialReflect, ReflectOwned, ReflectRef};
use bevy_reflect::tuple_struct::{
    tuple_struct_debug, tuple_struct_partial_eq, DynamicTupleStruct, GetTupleStructField, TupleStruct, TupleStructInfo,
    UnnamedField,
};

fn int_value(v: i64) -> PartialReflect {
    PartialReflect::new(Opaque::Int(v))
}

#[test]
fn tuple_struct_info_describes_fields() {
    let fields = vec![UnnamedField::new(0, "u32"), UnnamedField::new(1, "alloc::string::String")];
    let info = TupleStructInfo::new("Foo", "my::Foo", &fields).with_docs(Some("A foo.".to_string()));
    assert_eq!(info.name(), "Foo");
    assert_eq!(info.type_path(), "my::Foo");
    assert_eq!(info.type_id(), "my::Foo");
    assert_eq!(info.field_len(), 2);
    assert_eq!(info.field_at(1).unwrap().type_path, "alloc::string::String");
    assert!(info.field_at(2).is_none());
    assert_eq!(info.iter().len(), 2);
    assert!(info.is("my::Foo"));
    assert!(!info.is("my::Bar"));
    assert_eq!(info.docs().as_deref(), Some("A foo."));
}

#[test]
fn dynamic_tuple_struct_holds_fields() {
    let mut d = DynamicTupleStruct::new();
    assert_eq!(d.name(), "");
    d.set_name("my::Foo".to_string());
    d.insert(Opaque::UInt(7));
    d.insert_boxed(PartialReflect::of_type("my::Id", Opaque::Text("x".to_string())));
    assert_eq!(d.name(), "my::Foo");
    assert_eq!(d.field_len(), 2);
    assert_eq!(d.field(0).unwrap().type_path(), "u64");
    assert!(d.field(2).is_none());
    let mut it = d.iter_fields();
    assert_eq!(it.size_hint(), 2);
    assert!(it.next().unwrap().is("u64"));
    assert!(it.next().unwrap().is("my::Id"));
    assert!(it.next().is_none());
    let c = d.clone_dynamic();
    assert_eq!(c.name(), "my::Foo");
    assert_eq!(c.field_len(), 2);
}

#[test]
fn dynamic_tuple_struct_apply_keeps_length() {
    let mut a = DynamicTupleStruct::new();
    a.insert(Opaque::Int(1));
    a.insert(Opaque::Int(2));
    let mut b = DynamicTupleStruct::new();
    b.insert(Opaque::Int(9));
    a.apply(&b);
    assert_eq!(a.field_len(), 2);
    assert!(a.field(0).unwrap().value.equals(&Opaque::Int(9)));
    assert!(a.field(1).unwrap().value.equals(&Opaque::Int(2)));
}

#[test]
fn tuple_struct_equality() {
    let mut a = DynamicTupleStruct::new();
    a.insert(Opaque::Int(1));
    a.insert(Opaque::Bool(true));
    let mut b = DynamicTupleStruct::new();
    b.insert(Opaque::Int(1));
    b.insert(Opaque::Bool(true));
    assert_eq!(tuple_struct_partial_eq(&a, &ReflectOwned::TupleStruct(b)), Some(true));
    let mut c = DynamicTupleStruct::new();
    c.insert(Opaque::Int(1));
    c.insert(Opaque::Bool(false));
    assert_eq!(tuple_struct_partial_eq(&a, &ReflectOwned::TupleStruct(c)), Some(false));
    let mut shorter = DynamicTupleStruct::new();
    shorter.insert(Opaque::Int(1));
    assert_eq!(tuple_struct_partial_eq(&a, &ReflectOwned::TupleStruct(shorter)), Some(false));
    assert_eq!(tuple_struct_partial_eq(&a, &ReflectOwned::Value(int_value(1))), Some(false));
}

#[test]
fn tuple_struct_debug_text() {
    let mut d = DynamicTupleStruct::new();
    d.set_name("Foo".to_string());
    assert_eq!(tuple_struct_debug(&d), "Foo");
    d.insert(Opaque::UInt(123));
    d.insert(Opaque::Int(-45));
    d.insert(Opaque::Text("hi".to_string()));
    d.insert(Opaque::Char('z'));
    d.insert(Opaque::Bool(false));
    assert_eq!(tuple_struct_debug(&d), "Foo(123, -45, \"hi\", 'z', false)");
    assert_eq!(d.debug(), "DynamicTupleStruct(Foo(123, -45, \"hi\", 'z', false))");
    let mut e = DynamicTupleStruct::new();
    e.set_name("E".to_string());
    e.insert(Opaque::Int(i64::MIN));
    e.insert(Opaque::UInt(u64::MAX));
    assert_eq!(tuple_struct_debug(&e), "E(-9223372036854775808, 18446744073709551615)");
}

#[test]
fn partial_reflect_downcasts() {
    let v = int_value(5);
    assert!(v.is("i64"));
    assert!(v.represents("i64"));
    assert!(!v.is("u64"));
    assert!(v.downcast_ref("i64").unwrap().equals(&Opaque::Int(5)));
    assert!(v.downcast_ref("u64").is_none());
    assert_eq!(v.reflect_partial_eq(&int_value(5)), Some(true));
    assert_eq!(v.reflect_partial_eq(&PartialReflect::new(Opaque::UInt(5))), Some(false));
    let back = int_value(5).downcast("u64").unwrap_err();
    assert!(back.is("i64"));
    assert!(int_value(5).take("i64").unwrap().equals(&Opaque::Int(5)));
    assert!(int_value(5).take("bool").is_err());
    let mut m = int_value(5);
    assert!(m.downcast_mut("i64", Opaque::Int(6)));
    assert!(!m.downcast_mut("u8", Opaque::Int(7)));
    assert!(m.value.equals(&Opaque::Int(6)));
}

#[test]
fn reflect_ref_borrows_the_same_kind() {
    let v = ReflectOwned::Value(int_value(3));
    assert!(matches!(v.reflect_ref(), ReflectRef::Value(p) if p.is("i64")));
    let e = ReflectOwned::Enum(DynamicEnum { name: "E".to_string(), variant_name: "A".to_string(), fields: vec![] });
    match e.reflect_ref() {
        ReflectRef::Enum(d) => assert_eq!(d.variant_name(), "A"),
        _ => panic!("expected an enum"),
    }
}

#[test]
fn reflect_default_gives_the_value() {
    let d = ReflectDefault { value: int_value(0) };
    assert!(d.default().value.equals(&Opaque::Int(0)));
}

fn schema(overlay: Option<Vec<Opaque>>) -> ReflectFromReflect {
    ReflectFromReflect {
        type_path: "my::Foo".to_string(),
        tuple: false,
        fields: vec![
            FieldSchema {
                name: "a".to_string(),
                type_path: "i64".to_string(),
                ignored: false,
                default: FieldDefault::Required,
                default_value: Opaque::Int(0),
            },
            FieldSchema {
                name: "cache".to_string(),
                type_path: "u64".to_string(),
                ignored: true,
                default: FieldDefault::Required,
                default_value: Opaque::UInt(0),
            },
            FieldSchema {
                name: "b".to_string(),
                type_path: "bool".to_string(),
                ignored: false,
                default: FieldDefault::Func,
                default_value: Opaque::Bool(true),
            },
        ],
        overlay,
    }
}

fn dynamic(entries: Vec<(&str, PartialReflect)>) -> ReflectOwned {
    let mut d = DynamicStruct::new();
    for (n, v) in entries {
        d.insert(n.to_string(), v);
    }
    ReflectOwned::Struct(d)
}

#[test]
fn rebuild_requires_active_fields() {
    let s = schema(None);
    let full = s
        .from_reflect(&dynamic(vec![("a", int_value(4)), ("b", PartialReflect::new(Opaque::Bool(false)))]))
        .unwrap();
    assert!(full[0].value.equals(&Opaque::Int(4)));
    assert!(full[1].is("u64") && full[1].value.equals(&Opaque::UInt(0)));
    assert!(full[2].value.equals(&Opaque::Bool(false)));
    let missing_b = s.from_reflect(&dynamic(vec![("a", int_value(4))])).unwrap();
    assert!(missing_b[2].value.equals(&Opaque::Bool(true)));
    assert!(s.from_reflect(&dynamic(vec![("b", PartialReflect::new(Opaque::Bool(false)))])).is_none());
    assert!(s.from_reflect(&dynamic(vec![("a", PartialReflect::new(Opaque::UInt(4)))])).is_none());
    assert!(s.from_reflect(&ReflectOwned::Value(int_value(1))).is_none());
}

#[test]
fn rebuild_by_overlay_keeps_defaults() {
    let s = schema(Some(vec![Opaque::Int(10), Opaque::UInt(11), Opaque::Bool(false)]));
    let r = s.from_reflect(&dynamic(vec![("a", PartialReflect::new(Opaque::UInt(4)))])).unwrap();
    assert!(r[0].value.equals(&Opaque::Int(10)));
    assert!(r[1].value.equals(&Opaque::UInt(11)));
    assert!(r[2].value.equals(&Opaque::Bool(false)));
    let r = s.from_reflect(&dynamic(vec![("a", int_value(4))])).unwrap();
    assert!(r[0].value.equals(&Opaque::Int(4)));
}

#[test]
fn round_trip_through_dynamic_struct() {
    let s = schema(None);
    let values = vec![int_value(-3), PartialReflect::of_type("u64", Opaque::UInt(0)), PartialReflect::new(Opaque::Bool(false))];
    let dynamic = s.clone_dynamic(&values);
    let back = s.from_reflect(&dynamic).unwrap();
    assert_eq!(back.len(), 3);
    for (x, y) in back.iter().zip(values.iter()) {
        assert_eq!(x.reflect_partial_eq(y), Some(true));
    }
}

#[test]
fn round_trip_through_dynamic_tuple_struct() {
    let mut s = schema(None);
    s.tuple = true;
    s.fields[1].ignored = false;
    let values = vec![int_value(8), PartialReflect::new(Opaque::UInt(9)), PartialReflect::new(Opaque::Bool(true))];
    let dynamic = s.clone_dynamic(&values);
    assert!(matches!(&dynamic, ReflectOwned::TupleStruct(d) if d.name() == "my::Foo"));
    let back = s.from_reflect(&dynamic).unwrap();
    for (x, y) in back.iter().zip(values.iter()) {
        assert_eq!(x.reflect_partial_eq(y), Some(true));
    }
}

#[test]
fn dynamic_struct_lookup_takes_first_name() {
    let mut d = DynamicStruct::new();
    d.insert("a".to_string(), int_value(1));
    d.insert("a".to_string(), int_value(2));
    assert!(d.field(&"a".to_string()).unwrap().value.equals(&Opaque::Int(1)));
    assert!(d.field(&"b".to_string()).is_none());
}

#[test]
fn typed_field_access_through_traits() {
    let mut d = DynamicTupleStruct::new();
    d.insert(Opaque::Text("Hello".to_string()));
    assert_eq!(TupleStruct::field_len(&d), 1);
    assert!(TupleStruct::field(&d, 0).unwrap().is("alloc::string::String"));
    assert!(GetTupleStructField::get_field(&d, 0, "alloc::string::String").unwrap().equals(&Opaque::Text("Hello".to_string())));
    assert!(GetTupleStructField::get_field(&d, 0, "u32").is_none());
    assert!(GetTupleStructField::get_field(&d, 1, "alloc::string::String").is_none());
}

#[test]
fn unknown_enum_variant_names_both() {
    let t = EnumFromReflect { type_path: "my::Shape".to_string(), variant_names: vec!["Circle".to_string(), "Square".to_string()] };
    let known = ReflectOwned::Enum(DynamicEnum { name: "my::Shape".to_string(), variant_name: "Square".to_string(), fields: vec![] });
    assert_eq!(t.from_reflect(&known), Ok(Some(1)));
    let unknown = ReflectOwned::Enum(DynamicEnum { name: "my::Shape".to_string(), variant_name: "Triangle".to_string(), fields: vec![] });
    let msg = t.from_reflect(&unknown).unwrap_err();
    assert_eq!(msg, "variant with name `Triangle` does not exist on enum `my::Shape`");
    assert!(msg.contains("Triangle") && msg.contains("my::Shape"));
    assert_eq!(t.from_reflect(&ReflectOwned::Value(int_value(1))), Ok(None));
}

#[test]
fn leaf_values_rebuild_from_reflection() {
    assert_eq!(<u64 as FromReflect>::from_reflect(&PartialReflect::new(Opaque::UInt(3))), Some(3));
    assert_eq!(<u64 as FromReflect>::from_reflect(&int_value(3)), None);
    assert_eq!(<i64 as FromReflect>::from_reflect(&int_value(-3)), Some(-3));
    assert_eq!(<bool as FromReflect>::from_reflect(&PartialReflect::new(Opaque::Bool(true))), Some(true));
    assert_eq!(<char as FromReflect>::from_reflect(&PartialReflect::new(Opaque::Char('q'))), Some('q'));
    assert_eq!(
        <String as FromReflect>::from_reflect(&PartialReflect::new(Opaque::Text("s".to_string()))),
        Some("s".to_string())
    );
    assert_eq!(<String as FromReflect>::from_reflect(&PartialReflect::of_type("my::Name", Opaque::Text("s".to_string()))), None);
}

#[test]
fn dynamic_stand_in_represents_but_is_not_the_type() {
    let mut d = DynamicTupleStruct::new();
    d.set_name("my::Foo".to_string());
    let v = ReflectOwned::TupleStruct(d);
    assert!(v.is("bevy_reflect::DynamicTupleStruct"));
    assert!(!v.is("my::Foo"));
    assert!(v.represents("my::Foo"));
    assert!(!v.represents("bevy_reflect::DynamicTupleStruct"));
    assert_eq!(v.reflect_type_path(), "my::Foo");
    let o = ReflectOwned::Value(int_value(1));
    assert!(o.is("i64") && o.represents("i64"));
}

#[test]
fn round_trip_through_tuple_struct_with_ignored_field() {
    let mut s = schema(None);
    s.tuple = true;
    let values = vec![int_value(8), PartialReflect::of_type("u64", Opaque::UInt(0)), PartialReflect::new(Opaque::Bool(true))];
    let dynamic = s.clone_dynamic(&values);
    match &dynamic {
        ReflectOwned::TupleStruct(d) => assert_eq!(d.field_len(), 2),
        _ => panic!("expected a tuple struct"),
    }
    let back = s.from_reflect(&dynamic).unwrap();
    for (x, y) in back.iter().zip(values.iter()) {
        assert_eq!(x.reflect_partial_eq(y), Some(true));
    }
}

#[test]
fn debug_text_escapes_like_debug() {
    let mut d = DynamicTupleStruct::new();
    d.set_name("T".to_string());
    d.insert(Opaque::Text("a\"b\\c\n'".to_string()));
    d.insert(Opaque::Char('\''));
    d.insert(Opaque::Char('"'));
    assert_eq!(tuple_struct_debug(&d), format!("T({:?}, {:?}, {:?})", "a\"b\\c\n'", '\'', '"'));
}
