//! Reflected values: a closed set of kinds, as the generated impls see them.
use vstd::prelude::*;
use vstd::string::StringExecFns;

use crate::tuple_struct::DynamicTupleStruct;

verus! {

/// The data of a value reflected as an opaque value.
#[derive(Debug)]
pub enum Opaque {
    Bool(bool),
    Int(i64),
    UInt(u64),
    Char(char),
    Text(String),
}

pub enum OpaqueView {
    Bool(bool),
    Int(i64),
    UInt(u64),
    Char(char),
    Text(Seq<char>),
}

impl View for Opaque {
    type V = OpaqueView;

    open spec fn view(&self) -> OpaqueView {
        match self {
            Opaque::Bool(b) => OpaqueView::Bool(*b),
            Opaque::Int(i) => OpaqueView::Int(*i),
            Opaque::UInt(u) => OpaqueView::UInt(*u),
            Opaque::Char(c) => OpaqueView::Char(*c),
            Opaque::Text(s) => OpaqueView::Text(s@),
        }
    }
}

/// The name of the Rust type that holds each kind of opaque data.
pub open spec fn opaque_type_path(v: OpaqueView) -> Seq<char> {
    match v {
        OpaqueView::Bool(_) => "bool"@,
        OpaqueView::Int(_) => "i64"@,
        OpaqueView::UInt(_) => "u64"@,
        OpaqueView::Char(_) => "char"@,
        OpaqueView::Text(_) => "alloc::string::String"@,
    }
}

impl Opaque {
    pub fn duplicate(&self) -> (r: Opaque)
        ensures
            r@ == self@,
    {
        match self {
            Opaque::Bool(b) => Opaque::Bool(*b),
            Opaque::Int(i) => Opaque::Int(*i),
            Opaque::UInt(u) => Opaque::UInt(*u),
            Opaque::Char(c) => Opaque::Char(*c),
            Opaque::Text(s) => Opaque::Text(s.clone()),
        }
    }

    /// Whether two data are equal.
    pub fn equals(&self, other: &Opaque) -> (r: bool)
        ensures
            r == (self@ == other@),
    {
        match (self, other) {
            (Opaque::Bool(a), Opaque::Bool(b)) => *a == *b,
            (Opaque::Int(a), Opaque::Int(b)) => *a == *b,
            (Opaque::UInt(a), Opaque::UInt(b)) => *a == *b,
            (Opaque::Char(a), Opaque::Char(b)) => *a == *b,
            (Opaque::Text(a), Opaque::Text(b)) => *a == *b,
            _ => false,
        }
    }

    /// The name of the Rust type that holds this data.
    pub fn type_path(&self) -> (r: String)
        ensures
            r@ == opaque_type_path(self@),
    {
        match self {
            Opaque::Bool(_) => String::from_str("bool"),
            Opaque::Int(_) => String::from_str("i64"),
            Opaque::UInt(_) => String::from_str("u64"),
            Opaque::Char(_) => String::from_str("char"),
            Opaque::Text(_) => String::from_str("alloc::string::String"),
        }
    }
}

/// An opaque reflected value: the name of its concrete type and its data.
/// Such a value is always of the type it stands for; values assembled at
/// run time are the other kinds of [`ReflectOwned`].
#[derive(Debug)]
pub struct PartialReflect {
    pub type_path: String,
    pub value: Opaque,
}

pub struct PartialReflectView {
    pub type_path: Seq<char>,
    pub value: OpaqueView,
}

impl View for PartialReflect {
    type V = PartialReflectView;

    open spec fn view(&self) -> PartialReflectView {
        PartialReflectView { type_path: self.type_path@, value: self.value@ }
    }
}

pub open spec fn views_of(s: Seq<PartialReflect>) -> Seq<PartialReflectView> {
    s.map_values(|x: PartialReflect| x@)
}

/// Equality of reflected values: the same type and the same data.
pub open spec fn partial_eq_spec(a: PartialReflectView, b: PartialReflectView) -> bool {
    a.type_path == b.type_path && a.value == b.value
}

impl PartialReflect {
    /// A value of the type that holds `value`.
    pub fn new(value: Opaque) -> (r: PartialReflect)
        ensures
            r@.type_path == opaque_type_path(value@),
            r@.value == value@,
    {
        PartialReflect { type_path: value.type_path(), value }
    }

    /// A value of the named type.
    pub fn of_type(type_path: &str, value: Opaque) -> (r: PartialReflect)
        ensures
            r@.type_path == type_path@,
            r@.value == value@,
    {
        PartialReflect { type_path: String::from_str(type_path), value }
    }

    pub fn duplicate(&self) -> (r: PartialReflect)
        ensures
            r@ == self@,
    {
        PartialReflect { type_path: self.type_path.clone(), value: self.value.duplicate() }
    }

    /// The name of the value's type.
    pub fn type_path(&self) -> (r: &String)
        ensures
            r@ == self@.type_path,
    {
        &self.type_path
    }

    /// Whether the value is of the named type.
    pub fn is(&self, type_path: &str) -> (r: bool)
        ensures
            r == (self@.type_path == type_path@),
    {
        self.type_path == String::from_str(type_path)
    }

    /// Whether the value stands for a value of the named type.
    pub fn represents(&self, type_path: &str) -> (r: bool)
        ensures
            r == (self@.type_path == type_path@),
    {
        self.is(type_path)
    }

    /// The value itself if it is of the named type, else the value back.
    pub fn downcast(self, type_path: &str) -> (r: Result<PartialReflect, PartialReflect>)
        ensures
            self@.type_path == type_path@ ==> r is Ok && r.unwrap()@ == self@,
            self@.type_path != type_path@ ==> r is Err && r.unwrap_err()@ == self@,
    {
        if self.is(type_path) {
            Ok(self)
        } else {
            Err(self)
        }
    }

    /// The data if the value is of the named type, else the value back.
    pub fn take(self, type_path: &str) -> (r: Result<Opaque, PartialReflect>)
        ensures
            self@.type_path == type_path@ ==> r is Ok && r.unwrap()@ == self@.value,
            self@.type_path != type_path@ ==> r is Err && r.unwrap_err()@ == self@,
    {
        match self.downcast(type_path) {
            Ok(v) => Ok(v.value),
            Err(v) => Err(v),
        }
    }

    /// The data by reference if the value is of the named type.
    pub fn downcast_ref(&self, type_path: &str) -> (r: Option<&Opaque>)
        ensures
            self@.type_path == type_path@ ==> r is Some && r.unwrap()@ == self@.value,
            self@.type_path != type_path@ ==> r is None,
    {
        if self.is(type_path) {
            Some(&self.value)
        } else {
            None
        }
    }

    /// Replaces the data if the value is of the named type; returns whether
    /// it was.
    pub fn downcast_mut(&mut self, type_path: &str, value: Opaque) -> (r: bool)
        ensures
            r == (old(self)@.type_path == type_path@),
            final(self)@.type_path == old(self)@.type_path,
            r ==> final(self)@.value == value@,
            !r ==> final(self)@.value == old(self)@.value,
    {
        if self.is(type_path) {
            self.value = value;
            true
        } else {
            false
        }
    }

    /// Compares two values: `Some(true)` when they have the same type and
    /// equal data, `Some(false)` otherwise.
    pub fn reflect_partial_eq(&self, other: &PartialReflect) -> (r: Option<bool>)
        ensures
            r == Some(partial_eq_spec(self@, other@)),
    {
        Some(self.type_path == other.type_path && self.value.equals(&other.value))
    }
}

/// Types that can be rebuilt from a reflected value.
pub trait FromReflect: Sized {
    /// Whether `value` reflects `r`.
    spec fn reflects(value: PartialReflectView, r: Self) -> bool;

    /// The value that `reflect` reflects, if it reflects one of this type.
    fn from_reflect(reflect: &PartialReflect) -> (r: Option<Self>)
        ensures
            match r {
                Some(x) => Self::reflects(reflect@, x),
                None => forall|x: Self| !Self::reflects(reflect@, x),
            },
    ;
}

impl FromReflect for u64 {
    open spec fn reflects(value: PartialReflectView, r: u64) -> bool {
        value.type_path == "u64"@ && value.value == OpaqueView::UInt(r)
    }

    fn from_reflect(reflect: &PartialReflect) -> (r: Option<u64>) {
        match reflect.downcast_ref("u64") {
            Some(Opaque::UInt(v)) => Some(*v),
            _ => None,
        }
    }
}

impl FromReflect for i64 {
    open spec fn reflects(value: PartialReflectView, r: i64) -> bool {
        value.type_path == "i64"@ && value.value == OpaqueView::Int(r)
    }

    fn from_reflect(reflect: &PartialReflect) -> (r: Option<i64>) {
        match reflect.downcast_ref("i64") {
            Some(Opaque::Int(v)) => Some(*v),
            _ => None,
        }
    }
}

impl FromReflect for bool {
    open spec fn reflects(value: PartialReflectView, r: bool) -> bool {
        value.type_path == "bool"@ && value.value == OpaqueView::Bool(r)
    }

    fn from_reflect(reflect: &PartialReflect) -> (r: Option<bool>) {
        match reflect.downcast_ref("bool") {
            Some(Opaque::Bool(v)) => Some(*v),
            _ => None,
        }
    }
}

impl FromReflect for char {
    open spec fn reflects(value: PartialReflectView, r: char) -> bool {
        value.type_path == "char"@ && value.value == OpaqueView::Char(r)
    }

    fn from_reflect(reflect: &PartialReflect) -> (r: Option<char>) {
        match reflect.downcast_ref("char") {
            Some(Opaque::Char(v)) => Some(*v),
            _ => None,
        }
    }
}

impl FromReflect for String {
    open spec fn reflects(value: PartialReflectView, r: String) -> bool {
        value.type_path == "alloc::string::String"@ && value.value == OpaqueView::Text(r@)
    }

    fn from_reflect(reflect: &PartialReflect) -> (r: Option<String>) {
        match reflect.downcast_ref("alloc::string::String") {
            Some(Opaque::Text(v)) => Some(v.clone()),
            _ => None,
        }
    }
}

/// A copy of a list of values.
pub fn duplicate_all(s: &Vec<PartialReflect>) -> (r: Vec<PartialReflect>)
    ensures
        views_of(r@) == views_of(s@),
{
    let mut r: Vec<PartialReflect> = Vec::new();
    let mut i: usize = 0;
    while i < s.len()
        invariant
            i <= s@.len(),
            r@.len() == i,
            forall|j: int| 0 <= j < i ==> (#[trigger] r@[j])@ == s@[j]@,
        decreases s@.len() - i,
    {
        r.push(s[i].duplicate());
        i += 1;
    }
    assert(views_of(r@) =~= views_of(s@));
    r
}


/// A reflected value of any kind, owned.
#[derive(Debug)]
pub enum ReflectOwned {
    Struct(DynamicStruct),
    TupleStruct(DynamicTupleStruct),
    Tuple(Vec<PartialReflect>),
    List(Vec<PartialReflect>),
    Array(Vec<PartialReflect>),
    Dictionary(Vec<PartialReflect>, Vec<PartialReflect>),
    Enum(DynamicEnum),
    Value(PartialReflect),
}

/// A reflected value of any kind, borrowed.
pub enum ReflectRef<'a> {
    Struct(&'a DynamicStruct),
    TupleStruct(&'a DynamicTupleStruct),
    Tuple(&'a Vec<PartialReflect>),
    List(&'a Vec<PartialReflect>),
    Array(&'a Vec<PartialReflect>),
    Dictionary(&'a Vec<PartialReflect>, &'a Vec<PartialReflect>),
    Enum(&'a DynamicEnum),
    Value(&'a PartialReflect),
}

/// The concrete type of a reflected value: a dynamic stand-in type for
/// values assembled at run time, the value's own type for opaque values.
pub open spec fn concrete_type_path(v: &ReflectOwned) -> Seq<char> {
    match v {
        ReflectOwned::Struct(_) => "bevy_reflect::DynamicStruct"@,
        ReflectOwned::TupleStruct(_) => "bevy_reflect::DynamicTupleStruct"@,
        ReflectOwned::Tuple(_) => "bevy_reflect::DynamicTuple"@,
        ReflectOwned::List(_) => "bevy_reflect::DynamicList"@,
        ReflectOwned::Array(_) => "bevy_reflect::DynamicArray"@,
        ReflectOwned::Dictionary(_, _) => "bevy_reflect::DynamicMap"@,
        ReflectOwned::Enum(_) => "bevy_reflect::DynamicEnum"@,
        ReflectOwned::Value(p) => p.type_path@,
    }
}

/// The type a reflected value stands for: the name a dynamic struct, tuple
/// struct or enum was given, the concrete type otherwise.
pub open spec fn represented_type_path(v: &ReflectOwned) -> Seq<char> {
    match v {
        ReflectOwned::Struct(d) => d.name@,
        ReflectOwned::TupleStruct(d) => d.spec_name(),
        ReflectOwned::Enum(d) => d.name@,
        _ => concrete_type_path(v),
    }
}

impl ReflectOwned {
    /// The concrete type of the value (see [`concrete_type_path`]).
    pub fn concrete_type_path(&self) -> (r: String)
        ensures
            r@ == concrete_type_path(self),
    {
        match self {
            ReflectOwned::Struct(_) => String::from_str("bevy_reflect::DynamicStruct"),
            ReflectOwned::TupleStruct(_) => String::from_str("bevy_reflect::DynamicTupleStruct"),
            ReflectOwned::Tuple(_) => String::from_str("bevy_reflect::DynamicTuple"),
            ReflectOwned::List(_) => String::from_str("bevy_reflect::DynamicList"),
            ReflectOwned::Array(_) => String::from_str("bevy_reflect::DynamicArray"),
            ReflectOwned::Dictionary(_, _) => String::from_str("bevy_reflect::DynamicMap"),
            ReflectOwned::Enum(_) => String::from_str("bevy_reflect::DynamicEnum"),
            ReflectOwned::Value(p) => p.type_path.clone(),
        }
    }

    /// The type the value stands for (see [`represented_type_path`]).
    pub fn reflect_type_path(&self) -> (r: String)
        ensures
            r@ == represented_type_path(self),
    {
        match self {
            ReflectOwned::Struct(d) => d.name.clone(),
            ReflectOwned::TupleStruct(d) => d.name().clone(),
            ReflectOwned::Enum(d) => d.name.clone(),
            _ => self.concrete_type_path(),
        }
    }

    /// Whether the value is of the named concrete type.
    pub fn is(&self, type_path: &str) -> (r: bool)
        ensures
            r == (concrete_type_path(self) == type_path@),
    {
        self.concrete_type_path() == String::from_str(type_path)
    }

    /// Whether the value stands for a value of the named type.
    pub fn represents(&self, type_path: &str) -> (r: bool)
        ensures
            r == (represented_type_path(self) == type_path@),
    {
        self.reflect_type_path() == String::from_str(type_path)
    }

    /// The same value, borrowed.
    pub fn reflect_ref(&self) -> (r: ReflectRef<'_>)
        ensures
            match (self, r) {
                (ReflectOwned::Struct(a), ReflectRef::Struct(b)) => a == b,
                (ReflectOwned::TupleStruct(a), ReflectRef::TupleStruct(b)) => a == b,
                (ReflectOwned::Tuple(a), ReflectRef::Tuple(b)) => a == b,
                (ReflectOwned::List(a), ReflectRef::List(b)) => a == b,
                (ReflectOwned::Array(a), ReflectRef::Array(b)) => a == b,
                (ReflectOwned::Dictionary(a, x), ReflectRef::Dictionary(b, y)) => a == b && x == y,
                (ReflectOwned::Enum(a), ReflectRef::Enum(b)) => a == b,
                (ReflectOwned::Value(a), ReflectRef::Value(b)) => a == b,
                _ => false,
            },
    {
        match self {
            ReflectOwned::Struct(a) => ReflectRef::Struct(a),
            ReflectOwned::TupleStruct(a) => ReflectRef::TupleStruct(a),
            ReflectOwned::Tuple(a) => ReflectRef::Tuple(a),
            ReflectOwned::List(a) => ReflectRef::List(a),
            ReflectOwned::Array(a) => ReflectRef::Array(a),
            ReflectOwned::Dictionary(a, b) => ReflectRef::Dictionary(a, b),
            ReflectOwned::Enum(a) => ReflectRef::Enum(a),
            ReflectOwned::Value(a) => ReflectRef::Value(a),
        }
    }
}

/// A struct with named fields assembled at run time.
#[derive(Debug)]
pub struct DynamicStruct {
    pub name: String,
    pub field_names: Vec<String>,
    pub fields: Vec<PartialReflect>,
}

impl DynamicStruct {
    pub open spec fn wf(&self) -> bool {
        self.field_names@.len() == self.fields@.len()
    }

    /// No name and no fields.
    pub fn new() -> (r: DynamicStruct)
        ensures
            r.wf(),
            r.name@ == Seq::<char>::empty(),
            r.fields@.len() == 0,
    {
        DynamicStruct { name: String::new(), field_names: Vec::new(), fields: Vec::new() }
    }

    /// Appends the field `name` with `value`.
    pub fn insert(&mut self, name: String, value: PartialReflect)
        requires
            old(self).wf(),
        ensures
            final(self).wf(),
            final(self).name == old(self).name,
            final(self).field_names@ == old(self).field_names@.push(name),
            final(self).fields@ == old(self).fields@.push(value),
    {
        self.field_names.push(name);
        self.fields.push(value);
    }

    /// The value of the first field called `name`, if any.
    pub fn field(&self, name: &String) -> (r: Option<&PartialReflect>)
        requires
            self.wf(),
        ensures
            match r {
                Some(v) => exists|k: int| 0 <= k < self.fields@.len() && self.field_names@[k]@ == name@
                    && *v == self.fields@[k]
                    && forall|j: int| 0 <= j < k ==> (#[trigger] self.field_names@[j])@ != name@,
                None => forall|k: int| 0 <= k < self.field_names@.len() ==> (#[trigger] self.field_names@[k])@ != name@,
            },
    {
        let mut k: usize = 0;
        while k < self.field_names.len()
            invariant
                k <= self.field_names@.len() == self.fields@.len(),
                forall|j: int| 0 <= j < k ==> (#[trigger] self.field_names@[j])@ != name@,
            decreases self.field_names@.len() - k,
        {
            if self.field_names[k] == *name {
                return Some(&self.fields[k]);
            }
            k += 1;
        }
        None
    }
}

/// An enum value assembled at run time: the enum's name, the variant's
/// name and the variant's field values.
#[derive(Debug)]
pub struct DynamicEnum {
    pub name: String,
    pub variant_name: String,
    pub fields: Vec<PartialReflect>,
}

impl DynamicEnum {
    /// The name of the variant.
    pub fn variant_name(&self) -> (r: &String)
        ensures
            r@ == self.variant_name@,
    {
        &self.variant_name
    }
}

} // verus!
