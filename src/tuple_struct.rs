//! Tuple structs as reflection sees them: their static description and a
//! dynamic stand-in that fields can be added to at run time.
use vstd::prelude::*;
use vstd::string::StringExecFns;

use crate::reflect::{duplicate_all, partial_eq_spec, views_of, Opaque, PartialReflect, PartialReflectView, ReflectOwned};
use crate::debug_text::{debug_join, opaque_debug, write_opaque};

verus! {

/// A field of a tuple struct: its position and the path of its type.
#[derive(Debug)]
pub struct UnnamedField {
    pub index: usize,
    pub type_path: String,
    pub docs: Option<String>,
}

impl UnnamedField {
    pub fn new(index: usize, type_path: &str) -> (r: UnnamedField)
        ensures
            r.index == index,
            r.type_path@ == type_path@,
            r.docs is None,
    {
        UnnamedField { index, type_path: String::from_str(type_path), docs: None }
    }

    pub fn duplicate(&self) -> (r: UnnamedField)
        ensures
            r.index == self.index,
            r.type_path@ == self.type_path@,
            r.docs is Some == self.docs is Some,
            r.docs is Some ==> r.docs.unwrap()@ == self.docs.unwrap()@,
    {
        UnnamedField {
            index: self.index,
            type_path: self.type_path.clone(),
            docs: match &self.docs {
                Some(d) => Some(d.clone()),
                None => None,
            },
        }
    }
}

/// The static description of a tuple struct.
#[derive(Debug)]
pub struct TupleStructInfo {
    name: String,
    type_path: String,
    fields: Vec<UnnamedField>,
    docs: Option<String>,
}

impl TupleStructInfo {
    pub closed spec fn spec_name(&self) -> Seq<char> {
        self.name@
    }

    pub closed spec fn spec_type_path(&self) -> Seq<char> {
        self.type_path@
    }

    pub closed spec fn spec_fields(&self) -> Seq<UnnamedField> {
        self.fields@
    }

    pub closed spec fn spec_docs(&self) -> Option<String> {
        self.docs
    }

    /// A description of the tuple struct `name` (without generics), whose
    /// full type path is `type_path`, with the given fields in order.
    pub fn new(name: &str, type_path: &str, fields: &[UnnamedField]) -> (r: TupleStructInfo)
        ensures
            r.spec_name() == name@,
            r.spec_type_path() == type_path@,
            r.spec_fields().len() == fields@.len(),
            forall|i: int| 0 <= i < fields@.len() ==> (#[trigger] r.spec_fields()[i]).index == fields@[i].index
                && r.spec_fields()[i].type_path@ == fields@[i].type_path@,
            r.spec_docs() is None,
    {
        let mut v: Vec<UnnamedField> = Vec::new();
        let mut i: usize = 0;
        while i < fields.len()
            invariant
                i <= fields@.len(),
                v@.len() == i,
                forall|j: int| 0 <= j < i ==> (#[trigger] v@[j]).index == fields@[j].index && v@[j].type_path@ == fields@[j].type_path@,
            decreases fields@.len() - i,
        {
            v.push(fields[i].duplicate());
            i += 1;
        }
        TupleStructInfo {
            name: String::from_str(name),
            type_path: String::from_str(type_path),
            fields: v,
            docs: None,
        }
    }

    /// The same description with the given docstring.
    pub fn with_docs(self, docs: Option<String>) -> (r: TupleStructInfo)
        ensures
            r.spec_name() == self.spec_name(),
            r.spec_type_path() == self.spec_type_path(),
            r.spec_fields() == self.spec_fields(),
            r.spec_docs() == docs,
    {
        TupleStructInfo { docs, ..self }
    }

    /// The field at `index`, if there is one.
    pub fn field_at(&self, index: usize) -> (r: Option<&UnnamedField>)
        ensures
            index < self.spec_fields().len() ==> r == Some(&self.spec_fields()[index as int]),
            index >= self.spec_fields().len() ==> r is None,
    {
        if index < self.fields.len() {
            Some(&self.fields[index])
        } else {
            None
        }
    }

    /// The fields, in order.
    pub fn iter(&self) -> (r: &Vec<UnnamedField>)
        ensures
            r@ == self.spec_fields(),
    {
        &self.fields
    }

    /// The number of fields.
    pub fn field_len(&self) -> (r: usize)
        ensures
            r == self.spec_fields().len(),
    {
        self.fields.len()
    }

    /// The struct's name, without generics or lifetimes.
    pub fn name(&self) -> (r: &String)
        ensures
            r@ == self.spec_name(),
    {
        &self.name
    }

    /// The struct's full type path.
    pub fn type_path(&self) -> (r: &String)
        ensures
            r@ == self.spec_type_path(),
    {
        &self.type_path
    }

    /// The identity of the struct's type: its full type path.
    pub fn type_id(&self) -> (r: String)
        ensures
            r@ == self.spec_type_path(),
    {
        self.type_path.clone()
    }

    /// Whether the described type is the one with the given type path.
    pub fn is(&self, type_path: &str) -> (r: bool)
        ensures
            r == (self.spec_type_path() == type_path@),
    {
        self.type_path == String::from_str(type_path)
    }

    /// The docstring, if any.
    pub fn docs(&self) -> (r: &Option<String>)
        ensures
            *r == self.spec_docs(),
    {
        &self.docs
    }
}

/// A tuple struct assembled at run time: the name of the type it stands for
/// and its field values.
#[derive(Debug)]
pub struct DynamicTupleStruct {
    name: String,
    fields: Vec<PartialReflect>,
}

impl DynamicTupleStruct {
    pub closed spec fn spec_name(&self) -> Seq<char> {
        self.name@
    }

    pub closed spec fn spec_fields(&self) -> Seq<PartialReflectView> {
        views_of(self.fields@)
    }

    /// No name and no fields.
    pub fn new() -> (r: DynamicTupleStruct)
        ensures
            r.spec_name() == Seq::<char>::empty(),
            r.spec_fields() == Seq::<PartialReflectView>::empty(),
    {
        let r = DynamicTupleStruct { name: String::new(), fields: Vec::new() };
        assert(r.spec_fields() =~= Seq::<PartialReflectView>::empty());
        r
    }

    /// The name of the type it stands for.
    pub fn name(&self) -> (r: &String)
        ensures
            r@ == self.spec_name(),
    {
        &self.name
    }

    /// Sets the name of the type it stands for.
    pub fn set_name(&mut self, name: String)
        ensures
            final(self).spec_name() == name@,
            final(self).spec_fields() == old(self).spec_fields(),
    {
        self.name = name;
    }

    /// Appends a field.
    pub fn insert_boxed(&mut self, value: PartialReflect)
        ensures
            final(self).spec_name() == old(self).spec_name(),
            final(self).spec_fields() == old(self).spec_fields().push(value@),
    {
        self.fields.push(value);
        assert(self.spec_fields() =~= old(self).spec_fields().push(value@));
    }

    /// Appends a field of the type that holds `value`.
    pub fn insert(&mut self, value: crate::reflect::Opaque)
        ensures
            final(self).spec_name() == old(self).spec_name(),
            final(self).spec_fields() == old(self).spec_fields().push(
                PartialReflectView { type_path: crate::reflect::opaque_type_path(value@), value: value@ },
            ),
    {
        self.insert_boxed(PartialReflect::new(value));
    }

    /// The field at `index`, if there is one.
    pub fn field(&self, index: usize) -> (r: Option<&PartialReflect>)
        ensures
            index < self.spec_fields().len() ==> r is Some && r.unwrap()@ == self.spec_fields()[index as int],
            index >= self.spec_fields().len() ==> r is None,
    {
        if index < self.fields.len() {
            Some(&self.fields[index])
        } else {
            None
        }
    }

    /// The number of fields.
    pub fn field_len(&self) -> (r: usize)
        ensures
            r == self.spec_fields().len(),
    {
        self.fields.len()
    }

    /// An iterator over the fields.
    pub fn iter_fields(&self) -> (r: TupleStructFieldIter<'_>)
        ensures
            r.index == 0,
            r.tuple_struct == self,
    {
        TupleStructFieldIter::new(self)
    }

    /// A copy with the same name and fields.
    pub fn clone_dynamic(&self) -> (r: DynamicTupleStruct)
        ensures
            r.spec_name() == self.spec_name(),
            r.spec_fields() == self.spec_fields(),
    {
        DynamicTupleStruct { name: self.name.clone(), fields: duplicate_all(&self.fields) }
    }

    /// Applies the fields of `value`, position by position, to the fields
    /// this one has; further fields of `value` are left out.
    pub fn apply(&mut self, value: &DynamicTupleStruct)
        ensures
            final(self).spec_name() == old(self).spec_name(),
            final(self).spec_fields().len() == old(self).spec_fields().len(),
            forall|i: int| 0 <= i < old(self).spec_fields().len() ==> #[trigger] final(self).spec_fields()[i] == if i < value.spec_fields().len() {
                value.spec_fields()[i]
            } else {
                old(self).spec_fields()[i]
            },
    {
        let mut i: usize = 0;
        while i < self.fields.len() && i < value.fields.len()
            invariant
                i <= self.fields@.len(),
                self.fields@.len() == old(self).fields@.len(),
                self.name == old(self).name,
                i <= value.fields@.len(),
                forall|j: int| 0 <= j < self.fields@.len() ==> #[trigger] self.spec_fields()[j] == if j < i {
                    value.spec_fields()[j]
                } else {
                    old(self).spec_fields()[j]
                },
            decreases self.fields@.len() - i,
        {
            let ghost before = self.spec_fields();
            self.fields.set(i, value.fields[i].duplicate());
            assert forall|j: int| 0 <= j < self.fields@.len() implies #[trigger] self.spec_fields()[j] == if j < i + 1 {
                value.spec_fields()[j]
            } else {
                old(self).spec_fields()[j]
            } by {
                if j != i {
                    assert(self.spec_fields()[j] == before[j]);
                }
            }
            i += 1;
        }
    }

    /// The debug text: `DynamicTupleStruct(` and the tuple struct's text.
    pub fn debug(&self) -> (r: String)
        ensures
            r@ == "DynamicTupleStruct("@ + tuple_struct_debug_text(self.spec_name(), self.spec_fields()) + ")"@,
    {
        let mut r = String::from_str("DynamicTupleStruct(");
        let inner = tuple_struct_debug(self);
        r.append(inner.as_str());
        r.append(")");
        r
    }
}

/// A reflected tuple struct: fields addressed by position.
pub trait TupleStruct {
    /// The field values.
    spec fn field_values(&self) -> Seq<PartialReflectView>;

    /// The field at `index`, if there is one.
    fn field(&self, index: usize) -> (r: Option<&PartialReflect>)
        ensures
            index < self.field_values().len() ==> r is Some && r.unwrap()@ == self.field_values()[index as int],
            index >= self.field_values().len() ==> r is None,
    ;

    /// The number of fields.
    fn field_len(&self) -> (r: usize)
        ensures
            r == self.field_values().len(),
    ;
}

impl TupleStruct for DynamicTupleStruct {
    open spec fn field_values(&self) -> Seq<PartialReflectView> {
        self.spec_fields()
    }

    fn field(&self, index: usize) -> (r: Option<&PartialReflect>) {
        DynamicTupleStruct::field(self, index)
    }

    fn field_len(&self) -> (r: usize) {
        DynamicTupleStruct::field_len(self)
    }
}

/// Fetching a tuple struct's field together with a check of its type.
pub trait GetTupleStructField: TupleStruct {
    /// The data of the field at `index` if it is of the named type.
    fn get_field(&self, index: usize, type_path: &str) -> (r: Option<&Opaque>)
        ensures
            match r {
                Some(v) => index < self.field_values().len() && self.field_values()[index as int].type_path == type_path@
                    && v@ == self.field_values()[index as int].value,
                None => index >= self.field_values().len() || self.field_values()[index as int].type_path != type_path@,
            },
    ;
}

impl GetTupleStructField for DynamicTupleStruct {
    fn get_field(&self, index: usize, type_path: &str) -> (r: Option<&Opaque>) {
        match DynamicTupleStruct::field(self, index) {
            Some(v) => v.downcast_ref(type_path),
            None => None,
        }
    }
}

/// An iterator over the fields of a tuple struct.
pub struct TupleStructFieldIter<'a> {
    pub tuple_struct: &'a DynamicTupleStruct,
    pub index: usize,
}

impl<'a> TupleStructFieldIter<'a> {
    pub fn new(value: &'a DynamicTupleStruct) -> (r: TupleStructFieldIter<'a>)
        ensures
            r.index == 0,
            r.tuple_struct == value,
    {
        TupleStructFieldIter { tuple_struct: value, index: 0 }
    }

    /// The next field, if any.
    pub fn next(&mut self) -> (r: Option<&'a PartialReflect>)
        ensures
            final(self).tuple_struct == old(self).tuple_struct,
            old(self).index < old(self).tuple_struct.spec_fields().len() ==> r is Some
                && r.unwrap()@ == old(self).tuple_struct.spec_fields()[old(self).index as int]
                && final(self).index == old(self).index + 1,
            old(self).index >= old(self).tuple_struct.spec_fields().len() ==> r is None && final(self).index == old(self).index,
    {
        let n = self.tuple_struct.field_len();
        let value = self.tuple_struct.field(self.index);
        if self.index < n {
            self.index = self.index + 1;
        }
        value
    }

    /// The number of fields left.
    pub fn size_hint(&self) -> (r: usize)
        ensures
            r == if self.index <= self.tuple_struct.spec_fields().len() {
                (self.tuple_struct.spec_fields().len() - self.index) as usize
            } else {
                0
            },
    {
        let n = self.tuple_struct.field_len();
        if self.index <= n {
            n - self.index
        } else {
            0
        }
    }
}

/// Whether every field of `a` equals the field of `b` at the same position.
pub open spec fn fields_equal(a: Seq<PartialReflectView>, b: Seq<PartialReflectView>) -> bool {
    a.len() == b.len() && forall|i: int| 0 <= i < a.len() ==> partial_eq_spec(#[trigger] a[i], b[i])
}

/// Compares a tuple struct with a reflected value: equal when `b` is a tuple
/// struct with as many fields, pairwise equal.
pub fn tuple_struct_partial_eq(a: &DynamicTupleStruct, b: &ReflectOwned) -> (r: Option<bool>)
    ensures
        r == Some(
            match b {
                ReflectOwned::TupleStruct(t) => fields_equal(a.spec_fields(), t.spec_fields()),
                _ => false,
            },
        ),
{
    let tuple_struct = match b {
        ReflectOwned::TupleStruct(t) => t,
        _ => {
            return Some(false);
        },
    };
    if a.field_len() != tuple_struct.field_len() {
        return Some(false);
    }
    let mut i: usize = 0;
    while i < tuple_struct.field_len()
        invariant
            i <= tuple_struct.spec_fields().len(),
            a.spec_fields().len() == tuple_struct.spec_fields().len(),
            match b {
                ReflectOwned::TupleStruct(t) => t == tuple_struct,
                _ => false,
            },
            forall|j: int| 0 <= j < i ==> partial_eq_spec(#[trigger] a.spec_fields()[j], tuple_struct.spec_fields()[j]),
        decreases tuple_struct.spec_fields().len() - i,
    {
        let value = tuple_struct.field(i).unwrap();
        let field_value = a.field(i).unwrap();
        let eq_result = field_value.reflect_partial_eq(value);
        match eq_result {
            Some(true) => {},
            _ => {
                assert(!partial_eq_spec(a.spec_fields()[i as int], tuple_struct.spec_fields()[i as int]));
                return eq_result;
            },
        }
        i += 1;
    }
    Some(true)
}

/// The debug text of a tuple struct: its name, then its fields' texts in
/// parentheses, separated by `, ` (just the name when it has no fields).
pub open spec fn tuple_struct_debug_text(name: Seq<char>, fields: Seq<PartialReflectView>) -> Seq<char> {
    if fields.len() == 0 {
        name
    } else {
        name + "("@ + debug_join(fields.map_values(|f: PartialReflectView| opaque_debug(f.value))) + ")"@
    }
}

/// The default debug text of a tuple struct (see [`tuple_struct_debug_text`]).
pub fn tuple_struct_debug(dyn_tuple_struct: &DynamicTupleStruct) -> (r: String)
    ensures
        r@ == tuple_struct_debug_text(dyn_tuple_struct.spec_name(), dyn_tuple_struct.spec_fields()),
{
    let ghost fs = dyn_tuple_struct.spec_fields();
    let ghost texts = fs.map_values(|f: PartialReflectView| opaque_debug(f.value));
    let mut r = dyn_tuple_struct.name().clone();
    let n = dyn_tuple_struct.field_len();
    if n == 0 {
        return r;
    }
    r.append("(");
    let ghost prefix = r@;
    let mut i: usize = 0;
    while i < n
        invariant
            i <= n == fs.len(),
            fs == dyn_tuple_struct.spec_fields(),
            texts == fs.map_values(|f: PartialReflectView| opaque_debug(f.value)),
            r@ == prefix + debug_join(texts.subrange(0, i as int)),
        decreases n - i,
    {
        let field = dyn_tuple_struct.field(i).unwrap();
        if i > 0 {
            r.append(", ");
        }
        write_opaque(&mut r, &field.value);
        proof {
            let s = texts.subrange(0, i + 1);
            assert(s.drop_last() =~= texts.subrange(0, i as int));
            assert(s.last() == opaque_debug(fs[i as int].value));
        }
        i += 1;
    }
    assert(texts.subrange(0, n as int) =~= texts);
    r.append(")");
    r
}

} // verus!
