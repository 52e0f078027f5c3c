//! Rebuilding a struct's field values from a loosely typed reflected value,
//! as the generated `FromReflect` impls do.
use vstd::prelude::*;
use vstd::string::StringExecFns;

use crate::reflect::{views_of, DynamicStruct, Opaque, OpaqueView, PartialReflect, PartialReflectView, ReflectOwned};
use crate::tuple_struct::DynamicTupleStruct;

verus! {

/// What a field takes when it is missing.
#[derive(Clone, Copy, Debug, PartialEq, Eq, Structural)]
pub enum FieldDefault {
    /// Missing means the whole reconstruction fails.
    Required,
    /// The type's default value.
    Default,
    /// The value of the field's default function.
    Func,
}

/// One field of the struct being rebuilt.
#[derive(Debug)]
pub struct FieldSchema {
    pub name: String,
    pub type_path: String,
    /// Whether reflection leaves the field out.
    pub ignored: bool,
    pub default: FieldDefault,
    /// The value the field's default gives: the default function's value
    /// for `Func`, the type's default otherwise.
    pub default_value: Opaque,
}

/// Type data that rebuilds values of one struct type from reflected ones.
#[derive(Debug)]
pub struct ReflectFromReflect {
    pub type_path: String,
    /// Whether the struct is a tuple struct, whose fields go by position.
    pub tuple: bool,
    pub fields: Vec<FieldSchema>,
    /// The values of the container default, one per field, when the struct
    /// is rebuilt by overlaying fields on it.
    pub overlay: Option<Vec<Opaque>>,
}

pub open spec fn typed(f: &FieldSchema, v: OpaqueView) -> PartialReflectView {
    PartialReflectView { type_path: f.type_path@, value: v }
}

/// The first position of `name` in `names`, if any.
pub open spec fn first_position(names: Seq<String>, name: Seq<char>) -> Option<int> {
    if exists|k: int| 0 <= k < names.len() && names[k]@ == name {
        Some(choose|k: int| 0 <= k < names.len() && names[k]@ == name && forall|j: int| 0 <= j < k ==> (#[trigger] names[j])@ != name)
    } else {
        None
    }
}

/// The number of active fields before field `k`: the position of an
/// active field in a reflected tuple struct.
pub open spec fn active_position(fields: Seq<FieldSchema>, k: int) -> nat
    decreases k,
{
    if k <= 0 {
        0
    } else {
        active_position(fields, k - 1) + if fields[k - 1].ignored { 0nat } else { 1nat }
    }
}

impl ReflectFromReflect {
    pub open spec fn wf(&self) -> bool {
        &&& self.overlay matches Some(o) ==> o@.len() == self.fields@.len()
    }

    /// The reflected value of field `k` of `value`, if it has one: by
    /// position among the active fields in a tuple struct, by name in a
    /// struct.
    pub open spec fn lookup(&self, value: &ReflectOwned, k: int) -> Option<PartialReflectView> {
        if self.tuple {
            match value {
                ReflectOwned::TupleStruct(d) => if active_position(self.fields@, k) < d.spec_fields().len() {
                    Some(d.spec_fields()[active_position(self.fields@, k) as int])
                } else {
                    None
                },
                _ => None,
            }
        } else {
            match value {
                ReflectOwned::Struct(d) => match first_position(d.field_names@, self.fields@[k].name@) {
                    Some(p) => if p < d.fields@.len() { Some(d.fields@[p]@) } else { None },
                    None => None,
                },
                _ => None,
            }
        }
    }

    /// Whether `value` has the kind this struct is rebuilt from.
    pub open spec fn kind_matches(&self, value: &ReflectOwned) -> bool {
        if self.tuple {
            value is TupleStruct
        } else {
            value matches ReflectOwned::Struct(d) && d.wf()
        }
    }

    /// What field `k` becomes, when rebuilt field by field: an ignored
    /// field takes its default; an active field present in `value` must
    /// have the field's type; an absent one takes its default unless it is
    /// required.
    pub open spec fn field_outcome(&self, value: &ReflectOwned, k: int) -> Option<PartialReflectView> {
        let f = &self.fields@[k];
        if f.ignored {
            Some(typed(f, f.default_value@))
        } else {
            match self.lookup(value, k) {
                Some(v) => if v.type_path == f.type_path@ { Some(v) } else { None },
                None => if f.default == FieldDefault::Required { None } else { Some(typed(f, f.default_value@)) },
            }
        }
    }

    /// What field `k` becomes when overlaid on the container default: the
    /// reflected field when present and of the field's type, else the
    /// default's value.
    pub open spec fn overlay_outcome(&self, value: &ReflectOwned, k: int) -> PartialReflectView {
        let f = &self.fields@[k];
        let base = typed(f, self.overlay.unwrap()@[k]@);
        if f.ignored {
            base
        } else {
            match self.lookup(value, k) {
                Some(v) => if v.type_path == f.type_path@ { v } else { base },
                None => base,
            }
        }
    }

    /// The rebuilt field values, if the value can be rebuilt.
    pub open spec fn rebuild(&self, value: &ReflectOwned) -> Option<Seq<PartialReflectView>> {
        if !self.kind_matches(value) {
            None
        } else if self.overlay is Some {
            Some(Seq::new(self.fields@.len(), |k: int| self.overlay_outcome(value, k)))
        } else if forall|k: int| 0 <= k < self.fields@.len() ==> (#[trigger] self.field_outcome(value, k)) is Some {
            Some(Seq::new(self.fields@.len(), |k: int| self.field_outcome(value, k).unwrap()))
        } else {
            None
        }
    }

    fn position(&self, k: usize) -> (r: usize)
        requires
            k <= self.fields@.len(),
        ensures
            r == active_position(self.fields@, k as int),
    {
        let mut p: usize = 0;
        let mut i: usize = 0;
        while i < k
            invariant
                i <= k <= self.fields@.len(),
                p == active_position(self.fields@, i as int),
                p <= i,
            decreases k - i,
        {
            if !self.fields[i].ignored {
                p = p + 1;
            }
            i += 1;
        }
        p
    }

    fn find(&self, value: &ReflectOwned, k: usize) -> (r: Option<PartialReflect>)
        requires
            k < self.fields@.len(),
            self.kind_matches(value),
        ensures
            match self.lookup(value, k as int) {
                Some(v) => r is Some && r.unwrap()@ == v,
                None => r is None,
            },
    {
        match value {
            ReflectOwned::TupleStruct(d) => match d.field(self.position(k)) {
                Some(v) => Some(v.duplicate()),
                None => None,
            },
            ReflectOwned::Struct(d) => {
                let ghost name = self.fields@[k as int].name@;
                match d.field(&self.fields[k].name) {
                    Some(v) => {
                        proof {
                            let p = choose|p: int| 0 <= p < d.fields@.len() && d.field_names@[p]@ == name && *v == d.fields@[p]
                                && forall|j: int| 0 <= j < p ==> (#[trigger] d.field_names@[j])@ != name;
                            let q = first_position(d.field_names@, name).unwrap();
                            if p < q {
                                assert(d.field_names@[p]@ != name);
                            } else if q < p {
                                assert(d.field_names@[q]@ != name);
                            }
                        }
                        Some(v.duplicate())
                    },
                    None => None,
                }
            },
            _ => None,
        }
    }

    /// Field `k` rebuilt from `value`.
    fn field_value(&self, value: &ReflectOwned, k: usize) -> (r: Option<PartialReflect>)
        requires
            self.wf(),
            self.kind_matches(value),
            k < self.fields@.len(),
        ensures
            self.overlay is Some ==> r is Some && r.unwrap()@ == self.overlay_outcome(value, k as int),
            self.overlay is None ==> match self.field_outcome(value, k as int) {
                Some(v) => r is Some && r.unwrap()@ == v,
                None => r is None,
            },
    {
        let f = &self.fields[k];
        match &self.overlay {
            Some(o) => {
                let base = PartialReflect { type_path: f.type_path.clone(), value: o[k].duplicate() };
                if f.ignored {
                    Some(base)
                } else {
                    match self.find(value, k) {
                        Some(v) => if v.type_path == f.type_path { Some(v) } else { Some(base) },
                        None => Some(base),
                    }
                }
            },
            None => {
                let default = PartialReflect { type_path: f.type_path.clone(), value: f.default_value.duplicate() };
                if f.ignored {
                    Some(default)
                } else {
                    match self.find(value, k) {
                        Some(v) => if v.type_path == f.type_path { Some(v) } else { None },
                        None => if f.default == FieldDefault::Required { None } else { Some(default) },
                    }
                }
            },
        }
    }

    /// Rebuilds the field values of the struct from `value` (see
    /// [`ReflectFromReflect::rebuild`]); `None` when it cannot be rebuilt.
    pub fn from_reflect(&self, value: &ReflectOwned) -> (r: Option<Vec<PartialReflect>>)
        requires
            self.wf(),
        ensures
            match self.rebuild(value) {
                Some(s) => r is Some && crate::reflect::views_of(r.unwrap()@) == s,
                None => r is None,
            },
    {
        let kind_ok = match value {
            ReflectOwned::TupleStruct(_) => self.tuple,
            ReflectOwned::Struct(d) => !self.tuple && d.field_names.len() == d.fields.len(),
            _ => false,
        };
        if !kind_ok {
            return None;
        }
        let mut out: Vec<PartialReflect> = Vec::new();
        let mut k: usize = 0;
        while k < self.fields.len()
            invariant
                self.wf(),
                self.kind_matches(value),
                k <= self.fields@.len(),
                out@.len() == k,
                self.overlay is Some ==> forall|j: int| 0 <= j < k ==> (#[trigger] out@[j])@ == self.overlay_outcome(value, j),
                self.overlay is None ==> forall|j: int| 0 <= j < k ==> self.field_outcome(value, j) == Some((#[trigger] out@[j])@),
            decreases self.fields@.len() - k,
        {
            match self.field_value(value, k) {
                Some(v) => out.push(v),
                None => {
                    assert(self.field_outcome(value, k as int) is None);
                    return None;
                },
            }
            k += 1;
        }
        proof {
            if self.overlay is Some {
                assert(crate::reflect::views_of(out@) =~= Seq::new(self.fields@.len(), |j: int| self.overlay_outcome(value, j)));
            } else {
                assert forall|j: int| 0 <= j < self.fields@.len() implies (#[trigger] self.field_outcome(value, j)) is Some by {
                    assert(self.field_outcome(value, j) == Some(out@[j]@));
                }
                assert(crate::reflect::views_of(out@) =~= Seq::new(self.fields@.len(), |j: int| self.field_outcome(value, j).unwrap()));
            }
        }
        Some(out)
    }
}

impl ReflectFromReflect {
    /// Field names are distinct.
    pub open spec fn names_unique(&self) -> bool {
        forall|i: int, j: int| 0 <= i < j < self.fields@.len() ==> (#[trigger] self.fields@[i]).name@ != (#[trigger] self.fields@[j]).name@
    }

    /// `value` is a faithful reflection of the field values `values`: it
    /// has the right kind and yields each active field's value.
    pub open spec fn represents(&self, value: &ReflectOwned, values: Seq<PartialReflectView>) -> bool {
        &&& self.kind_matches(value)
        &&& forall|k: int| 0 <= k < self.fields@.len() && !self.fields@[k].ignored ==> self.lookup(value, k) == Some(#[trigger] values[k])
    }

    /// Field values that fit the struct: one per field, of the field's
    /// type, and ignored fields at their defaults.
    pub open spec fn fits(&self, values: Seq<PartialReflectView>) -> bool {
        &&& values.len() == self.fields@.len()
        &&& forall|k: int| 0 <= k < values.len() ==> (#[trigger] values[k]).type_path == self.fields@[k].type_path@
        &&& forall|k: int| 0 <= k < values.len() && self.fields@[k].ignored ==> #[trigger] values[k] == typed(&self.fields@[k], self.fields@[k].default_value@)
    }

    /// Reflects field values into a dynamic struct or tuple struct holding
    /// the active fields in order, named after the type.
    pub fn clone_dynamic(&self, values: &Vec<PartialReflect>) -> (r: ReflectOwned)
        requires
            values@.len() == self.fields@.len(),
            self.names_unique(),
        ensures
            self.represents(&r, views_of(values@)),
            match r {
                ReflectOwned::TupleStruct(d) => self.tuple && d.spec_name() == self.type_path@,
                ReflectOwned::Struct(d) => !self.tuple && d.name@ == self.type_path@,
                _ => false,
            },
    {
        if self.tuple {
            let mut d = DynamicTupleStruct::new();
            d.set_name(self.type_path.clone());
            let mut k: usize = 0;
            while k < values.len()
                invariant
                    k <= values@.len() == self.fields@.len(),
                    self.tuple,
                    d.spec_name() == self.type_path@,
                    d.spec_fields().len() == active_position(self.fields@, k as int),
                    forall|j: int| 0 <= j < k && !self.fields@[j].ignored ==> d.spec_fields()[active_position(self.fields@, j) as int] == (#[trigger] values@[j])@,
                decreases values@.len() - k,
            {
                proof {
                    lemma_active_position_monotone(self.fields@, k as int);
                }
                if !self.fields[k].ignored {
                    let ghost before = d.spec_fields();
                    d.insert_boxed(values[k].duplicate());
                    proof {
                        assert forall|j: int| 0 <= j < k + 1 && !self.fields@[j].ignored implies d.spec_fields()[active_position(self.fields@, j) as int] == (#[trigger] values@[j])@ by {
                            if j < k {
                                lemma_active_position_monotone(self.fields@, j);
                                lemma_active_position_le(self.fields@, j + 1, k as int);
                                assert(d.spec_fields()[active_position(self.fields@, j) as int] == before[active_position(self.fields@, j) as int]);
                            }
                        }
                    }
                }
                k += 1;
            }
            let ghost vals = views_of(values@);
            proof {
                assert forall|j: int| 0 <= j < self.fields@.len() && !self.fields@[j].ignored implies self.lookup(&ReflectOwned::TupleStruct(d), j) == Some(#[trigger] vals[j]) by {
                    lemma_active_position_monotone(self.fields@, j);
                    lemma_active_position_le(self.fields@, j + 1, self.fields@.len() as int);
                    assert(d.spec_fields()[active_position(self.fields@, j) as int] == values@[j]@);
                }
            }
            ReflectOwned::TupleStruct(d)
        } else {
            let mut d = DynamicStruct::new();
            d.name = self.type_path.clone();
            let ghost mut src: Seq<int> = Seq::empty();
            let mut k: usize = 0;
            while k < values.len()
                invariant
                    k <= values@.len() == self.fields@.len(),
                    !self.tuple,
                    self.names_unique(),
                    d.wf(),
                    d.name@ == self.type_path@,
                    src.len() == d.fields@.len(),
                    forall|p: int| 0 <= p < src.len() ==> 0 <= #[trigger] src[p] < k && !self.fields@[src[p]].ignored
                        && d.field_names@[p]@ == self.fields@[src[p]].name@ && d.fields@[p]@ == values@[src[p]]@,
                    forall|p: int, q: int| 0 <= p < q < src.len() ==> #[trigger] src[p] < #[trigger] src[q],
                    forall|j: int| 0 <= j < k && !self.fields@[j].ignored ==> exists|p: int| 0 <= p < src.len() && #[trigger] src[p] == j,
                decreases values@.len() - k,
            {
                if !self.fields[k].ignored {
                    let ghost old_src = src;
                    proof {
                        src = src.push(k as int);
                    }
                    d.insert(self.fields[k].name.clone(), values[k].duplicate());
                    proof {
                        assert forall|j: int| 0 <= j < k + 1 && !self.fields@[j].ignored implies exists|p: int| 0 <= p < src.len() && #[trigger] src[p] == j by {
                            if j == k {
                                assert(src[src.len() - 1] == j);
                            } else {
                                let p = choose|p: int| 0 <= p < old_src.len() && #[trigger] old_src[p] == j;
                                assert(src[p] == old_src[p]);
                            }
                        }
                    }
                }
                k += 1;
            }
            proof {
                assert forall|j: int| 0 <= j < self.fields@.len() && !self.fields@[j].ignored implies self.lookup(&ReflectOwned::Struct(d), j) == Some(#[trigger] views_of(values@)[j]) by {
                    let p = choose|p: int| 0 <= p < src.len() && #[trigger] src[p] == j;
                    let name = self.fields@[j].name@;
                    assert(d.field_names@[p]@ == name);
                    assert forall|i: int| 0 <= i < p implies (#[trigger] d.field_names@[i])@ != name by {
                        assert(src[i] < src[p]);
                        assert(self.fields@[src[i]].name@ != self.fields@[src[p]].name@);
                    }
                    let q = first_position(d.field_names@, name).unwrap();
                    if q < p {
                        assert(d.field_names@[q]@ != name);
                    } else if p < q {
                        assert(d.field_names@[p]@ != name);
                    }
                }
            }
            ReflectOwned::Struct(d)
        }
    }
}

/// An active field comes after the active fields before it.
pub proof fn lemma_active_position_monotone(fields: Seq<FieldSchema>, k: int)
    requires
        0 <= k < fields.len(),
    ensures
        active_position(fields, k + 1) == active_position(fields, k) + if fields[k].ignored { 0nat } else { 1nat },
{
}

pub proof fn lemma_active_position_le(fields: Seq<FieldSchema>, a: int, b: int)
    requires
        0 <= a <= b,
    ensures
        active_position(fields, a) <= active_position(fields, b),
    decreases b - a,
{
    if a < b {
        lemma_active_position_le(fields, a, b - 1);
    }
}

/// Rebuilding field by field from a faithful reflection of field values
/// that fit the struct gives those values back.
pub proof fn law_round_trip(schema: &ReflectFromReflect, value: &ReflectOwned, values: Seq<PartialReflectView>)
    requires
        schema.overlay is None,
        schema.fits(values),
        schema.represents(value, values),
    ensures
        schema.rebuild(value) == Some(values),
{
    assert forall|k: int| 0 <= k < schema.fields@.len() implies (#[trigger] schema.field_outcome(value, k)) == Some(values[k]) by {
        if !schema.fields@[k].ignored {
            assert(schema.lookup(value, k) == Some(values[k]));
        }
    }
    assert(Seq::new(schema.fields@.len(), |k: int| schema.field_outcome(value, k).unwrap()) =~= values);
}

/// Rebuilding field by field, with no container default, succeeds exactly
/// when every active field is present with its type or absent but not
/// required; ignored fields then take their defaults.
pub proof fn law_rebuild_with_ignored_field(schema: &ReflectFromReflect, value: &ReflectOwned, k: int)
    requires
        schema.overlay is None,
        schema.kind_matches(value),
        0 <= k < schema.fields@.len(),
        schema.fields@[k].ignored,
    ensures
        schema.rebuild(value) is Some <==> forall|j: int| 0 <= j < schema.fields@.len() && !schema.fields@[j].ignored ==> match #[trigger] schema.lookup(value, j) {
            Some(v) => v.type_path == schema.fields@[j].type_path@,
            None => schema.fields@[j].default != FieldDefault::Required,
        },
        schema.rebuild(value) is Some ==> schema.rebuild(value).unwrap()[k] == typed(&schema.fields@[k], schema.fields@[k].default_value@),
{
    if schema.rebuild(value) is Some {
        assert forall|j: int| 0 <= j < schema.fields@.len() && !schema.fields@[j].ignored implies match #[trigger] schema.lookup(value, j) {
            Some(v) => v.type_path == schema.fields@[j].type_path@,
            None => schema.fields@[j].default != FieldDefault::Required,
        } by {
            assert(schema.field_outcome(value, j) is Some);
        }
    }
    if forall|j: int| 0 <= j < schema.fields@.len() && !schema.fields@[j].ignored ==> match #[trigger] schema.lookup(value, j) {
        Some(v) => v.type_path == schema.fields@[j].type_path@,
        None => schema.fields@[j].default != FieldDefault::Required,
    } {
        assert forall|j: int| 0 <= j < schema.fields@.len() implies (#[trigger] schema.field_outcome(value, j)) is Some by {
            if !schema.fields@[j].ignored {
                let _ = schema.lookup(value, j);
            }
        }
    }
}

/// The message for a reflected enum value whose variant the enum lacks.
pub open spec fn unknown_variant_text(name: Seq<char>, type_path: Seq<char>) -> Seq<char> {
    "variant with name `"@ + name + "` does not exist on enum `"@ + type_path + "`"@
}

/// Type data that finds which variant of an enum a reflected value holds.
#[derive(Debug)]
pub struct EnumFromReflect {
    pub type_path: String,
    pub variant_names: Vec<String>,
}

impl EnumFromReflect {
    /// The position of the variant that `value` names: `Ok(None)` when
    /// `value` is not an enum, an error naming the variant and the enum when
    /// no variant has that name, else the first variant with that name.
    pub fn from_reflect(&self, value: &ReflectOwned) -> (r: Result<Option<usize>, String>)
        ensures
            match value {
                ReflectOwned::Enum(e) => match r {
                    Ok(Some(k)) => k < self.variant_names@.len() && self.variant_names@[k as int]@ == e.variant_name@
                        && forall|j: int| 0 <= j < k ==> (#[trigger] self.variant_names@[j])@ != e.variant_name@,
                    Ok(None) => false,
                    Err(msg) => msg@ == unknown_variant_text(e.variant_name@, self.type_path@)
                        && forall|j: int| 0 <= j < self.variant_names@.len() ==> (#[trigger] self.variant_names@[j])@ != e.variant_name@,
                },
                _ => r == Ok::<Option<usize>, String>(None),
            },
    {
        let e = match value {
            ReflectOwned::Enum(e) => e,
            _ => {
                return Ok(None);
            },
        };
        let mut k: usize = 0;
        while k < self.variant_names.len()
            invariant
                k <= self.variant_names@.len(),
                match value {
                    ReflectOwned::Enum(x) => x == e,
                    _ => false,
                },
                forall|j: int| 0 <= j < k ==> (#[trigger] self.variant_names@[j])@ != e.variant_name@,
            decreases self.variant_names@.len() - k,
        {
            if self.variant_names[k] == e.variant_name {
                return Ok(Some(k));
            }
            k += 1;
        }
        let mut msg = String::from_str("variant with name `");
        msg.append(e.variant_name.as_str());
        msg.append("` does not exist on enum `");
        msg.append(self.type_path.as_str());
        msg.append("`");
        Err(msg)
    }
}

/// Type data that produces a type's default value.
#[derive(Debug)]
pub struct ReflectDefault {
    pub value: PartialReflect,
}

impl ReflectDefault {
    /// The default value of the type.
    pub fn default(&self) -> (r: PartialReflect)
        ensures
            r@ == self.value@,
    {
        self.value.duplicate()
    }
}

} // verus!
