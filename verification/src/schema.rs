//! Inference of a schema from sample values: the types that the samples
//! show become structs and enums with numbers for names.

pub mod case;
pub mod criteria;
pub mod infer;
pub mod order;
pub mod print;
pub mod types;
pub mod value;

use vstd::prelude::*;

use crate::schema::criteria::Criteria;
use crate::schema::infer::type_of;
use crate::schema::order::wf_types;
use crate::schema::types::{
    added, field_models, field_slot, has_rank, models, obj_put, rank, str_lt, text_lt,
    ObjectScheme, Type, TypeM, Types,
};
use crate::schema::value::Value;
use crate::text::str_eq;

verus! {

/// A type of the schema, with whether the value can be missing.
#[derive(Debug, PartialEq, Eq)]
pub struct SchemaType {
    /// Whether the value can be `null`.
    pub is_nullable: bool,
    /// The type of the value where it is not `null`.
    pub typ: SchemaTypes,
}

/// A type of the schema.
#[derive(Debug, PartialEq, Eq)]
pub enum SchemaTypes {
    /// Nothing: the value is always `null`.
    Unit,
    /// A truth value.
    Bool,
    /// A whole number that is not negative.
    U64,
    /// A whole number.
    I64,
    /// A number.
    Float,
    /// A string.
    String,
    /// An array with items of one type.
    Array(Box<SchemaType>),
    /// The struct with this number.
    Struct(u64),
    /// The enum with this number.
    Enum(u64),
}

/// A variant of an enum of the schema.
#[derive(Debug, PartialEq, Eq)]
pub enum Variant {
    /// A variant with a name of its own.
    Primitive(String),
    /// The variant that holds the struct with this number.
    Struct(u64),
    /// The variant that holds the enum with this number.
    Enum(u64),
}

/// A variant as plain mathematics.
pub enum VariantM {
    /// A variant with a name of its own.
    Primitive(Seq<char>),
    /// The variant that holds the struct with this number.
    Struct(u64),
    /// The variant that holds the enum with this number.
    Enum(u64),
}

impl View for Variant {
    type V = VariantM;

    open spec fn view(&self) -> VariantM {
        match self {
            Variant::Primitive(s) => VariantM::Primitive(s@),
            Variant::Struct(id) => VariantM::Struct(*id),
            Variant::Enum(id) => VariantM::Enum(*id),
        }
    }
}

/// The variant `a` stands before `b`: named ones first, in the order of the
/// dictionary, then structs, then enums, by number.
pub open spec fn variant_lt(a: VariantM, b: VariantM) -> bool {
    match (a, b) {
        (VariantM::Primitive(x), VariantM::Primitive(y)) => text_lt(x, y),
        (VariantM::Primitive(_), _) => true,
        (VariantM::Struct(_), VariantM::Primitive(_)) => false,
        (VariantM::Struct(x), VariantM::Struct(y)) => x < y,
        (VariantM::Struct(_), VariantM::Enum(_)) => true,
        (VariantM::Enum(x), VariantM::Enum(y)) => x < y,
        (VariantM::Enum(_), _) => false,
    }
}

/// The place of the variant `v` in `es`: that of the first variant that is
/// `v` or stands behind it; the length where there is none.
pub open spec fn variant_slot<V>(es: Seq<(VariantM, V)>, v: VariantM) -> nat
    decreases es.len(),
{
    if es.len() == 0 || es[0].0 == v || variant_lt(v, es[0].0) {
        0
    } else {
        1 + variant_slot(es.drop_first(), v)
    }
}

/// The variants `es` with the variant `v` set to hold `t`: in place of that
/// variant where there is one, else at the place where it belongs.
pub open spec fn enum_put<V>(es: Seq<(VariantM, V)>, v: VariantM, t: V) -> Seq<(VariantM, V)> {
    let i = variant_slot(es, v) as int;
    if i < es.len() && es[i].0 == v {
        es.update(i, (v, t))
    } else {
        es.insert(i, (v, t))
    }
}

/// The place of the number `id` in `s`: that of the first entry with that
/// number or a larger one; the length where there is none.
pub open spec fn id_slot<V>(s: Seq<(u64, V)>, id: u64) -> nat
    decreases s.len(),
{
    if s.len() == 0 || s[0].0 >= id {
        0
    } else {
        1 + id_slot(s.drop_first(), id)
    }
}

/// The entries `s` with the number `id` set to `v`: in place of the entry of
/// that number where there is one, else at the place of the number.
pub open spec fn id_put<V>(s: Seq<(u64, V)>, id: u64, v: V) -> Seq<(u64, V)> {
    let i = id_slot(s, id) as int;
    if i < s.len() && s[i].0 == id {
        s.update(i, (id, v))
    } else {
        s.insert(i, (id, v))
    }
}

/// What `s` holds under the number `id`.
pub open spec fn find_id<V>(s: Seq<(u64, V)>, id: u64) -> Option<V> {
    let i = id_slot(s, id) as int;
    if i < s.len() && s[i].0 == id {
        Some(s[i].1)
    } else {
        None
    }
}

/// The place of a number is behind all smaller numbers and before none.
pub proof fn lemma_id_slot<V>(s: Seq<(u64, V)>, id: u64)
    ensures
        id_slot(s, id) <= s.len(),
        forall|j: int| 0 <= j < id_slot(s, id) ==> (#[trigger] s[j]).0 < id,
        id_slot(s, id) < s.len() ==> s[id_slot(s, id) as int].0 >= id,
    decreases s.len(),
{
    if s.len() == 0 || s[0].0 >= id {
    } else {
        let rest = s.drop_first();
        lemma_id_slot(rest, id);
        assert forall|j: int| 0 <= j < id_slot(s, id) implies (#[trigger] s[j]).0 < id by {
            if j > 0 {
                assert(s[j] == rest[j - 1]);
            }
        }
        if id_slot(s, id) < s.len() {
            assert(s[id_slot(s, id) as int] == rest[id_slot(rest, id) as int]);
        }
    }
}

/// A place behind all smaller numbers, where no smaller number stands, is
/// the place of the number.
pub proof fn lemma_id_slot_is<V>(s: Seq<(u64, V)>, id: u64, i: int)
    requires
        0 <= i <= s.len(),
        forall|j: int| 0 <= j < i ==> (#[trigger] s[j]).0 < id,
        i < s.len() ==> s[i].0 >= id,
    ensures
        id_slot(s, id) == i,
    decreases s.len(),
{
    if s.len() == 0 || s[0].0 >= id {
        if i > 0 {
            assert(s[0].0 < id);
        }
    } else {
        let rest = s.drop_first();
        assert(i > 0);
        assert forall|j: int| 0 <= j < i - 1 implies (#[trigger] rest[j]).0 < id by {
            assert(rest[j] == s[j + 1]);
        }
        if i - 1 < rest.len() {
            assert(rest[i - 1] == s[i]);
        }
        lemma_id_slot_is(rest, id, i - 1);
    }
}

/// What is set under a number is found under it.
pub proof fn lemma_id_put_find<V>(s: Seq<(u64, V)>, id: u64, v: V)
    ensures
        find_id(id_put(s, id, v), id) == Some(v),
{
    lemma_id_slot(s, id);
    let i = id_slot(s, id) as int;
    let out = id_put(s, id, v);
    assert forall|j: int| 0 <= j < i implies (#[trigger] out[j]).0 < id by {
        assert(out[j] == s[j]);
    }
    lemma_id_slot_is(out, id, i);
}

/// The variant under which an enum holds a type: a struct and an enum under
/// their own, any other under the name of its kind.
pub open spec fn variant_of(t: SchemaTypes) -> VariantM {
    match t {
        SchemaTypes::Unit => VariantM::Primitive("Unit"@),
        SchemaTypes::Bool => VariantM::Primitive("Bool"@),
        SchemaTypes::U64 => VariantM::Primitive("U64"@),
        SchemaTypes::I64 => VariantM::Primitive("I64"@),
        SchemaTypes::Float => VariantM::Primitive("Float"@),
        SchemaTypes::String => VariantM::Primitive("String"@),
        SchemaTypes::Array(_) => VariantM::Primitive("Array"@),
        SchemaTypes::Struct(id) => VariantM::Struct(id),
        SchemaTypes::Enum(id) => VariantM::Enum(id),
    }
}

/// The state of the building of a schema, as plain mathematics.
pub struct BuilderM {
    /// The structs made so far, by number.
    pub structs: Seq<(u64, Seq<(Seq<char>, SchemaType)>)>,
    /// The enums made so far, by number.
    pub enums: Seq<(u64, Seq<(VariantM, SchemaTypes)>)>,
    /// The number that the next struct or enum gets.
    pub id: u64,
}

/// A state of the building together with what was built on the way to it.
pub struct Built<T> {
    /// The state after the building.
    pub builder: BuilderM,
    /// What was built.
    pub out: T,
}

/// The number after `id`; after the largest number the count starts again.
pub open spec fn next_id(id: u64) -> u64 {
    if id == u64::MAX {
        0
    } else {
        (id + 1) as u64
    }
}

/// The number of the first `n` types of `ts` that are not `null`.
pub open spec fn solid_count(ts: Seq<TypeM>, n: nat) -> nat
    decreases n,
{
    if n == 0 || n > ts.len() {
        0
    } else if rank(ts[n - 1]) != 0 {
        solid_count(ts, (n - 1) as nat) + 1
    } else {
        solid_count(ts, (n - 1) as nat)
    }
}

/// The place of the first type of `ts` that is not `null`; the length where
/// there is none.
pub open spec fn first_solid(ts: Seq<TypeM>) -> nat
    decreases ts.len(),
{
    if ts.len() == 0 || rank(ts[0]) != 0 {
        0
    } else {
        1 + first_solid(ts.drop_first())
    }
}

/// The type of the schema for a value of the types `ts`. Without a type
/// besides `null` it is the unit; with one, it is the type of the schema for
/// that one; with several, it is a new enum with a variant for each. The
/// enum takes its number before its variants take theirs.
pub open spec fn parse_types(b: BuilderM, ts: Seq<TypeM>) -> Built<SchemaType>
    decreases ts, ts.len() + 1,
{
    let is_nullable = has_rank(ts, 0);
    let count = solid_count(ts, ts.len());
    let k = first_solid(ts) as int;
    if count == 0 || k >= ts.len() {
        Built { builder: b, out: SchemaType { is_nullable, typ: SchemaTypes::Unit } }
    } else if count == 1 {
        let p = parse_one(b, ts[k]);
        Built { builder: p.builder, out: SchemaType { is_nullable, typ: p.out } }
    } else {
        let id = b.id;
        let p = parse_variants(
            BuilderM { structs: b.structs, enums: b.enums, id: next_id(id) },
            ts,
            ts.len(),
        );
        Built {
            builder: BuilderM {
                structs: p.builder.structs,
                enums: id_put(p.builder.enums, id, p.out),
                id: p.builder.id,
            },
            out: SchemaType { is_nullable, typ: SchemaTypes::Enum(id) },
        }
    }
}

/// The variants that the first `n` types of `ts` give an enum: one for each
/// type that is not `null`.
pub open spec fn parse_variants(b: BuilderM, ts: Seq<TypeM>, n: nat) -> Built<
    Seq<(VariantM, SchemaTypes)>,
>
    decreases ts, n,
{
    if n == 0 || n > ts.len() {
        Built { builder: b, out: Seq::empty() }
    } else {
        let prev = parse_variants(b, ts, (n - 1) as nat);
        if rank(ts[n - 1]) == 0 {
            prev
        } else {
            let p = parse_one(prev.builder, ts[n - 1]);
            Built { builder: p.builder, out: enum_put(prev.out, variant_of(p.out), p.out) }
        }
    }
}

/// The type of the schema for the type `t`. An array has items of the type
/// of the schema for the types of its items; an object becomes a new struct,
/// which takes its number before its fields take theirs.
pub open spec fn parse_one(b: BuilderM, t: TypeM) -> Built<SchemaTypes>
    decreases t, 0nat,
{
    match t {
        TypeM::Null => Built { builder: b, out: SchemaTypes::Unit },
        TypeM::Bool => Built { builder: b, out: SchemaTypes::Bool },
        TypeM::U64 => Built { builder: b, out: SchemaTypes::U64 },
        TypeM::I64 => Built { builder: b, out: SchemaTypes::I64 },
        TypeM::Float => Built { builder: b, out: SchemaTypes::Float },
        TypeM::String => Built { builder: b, out: SchemaTypes::String },
        TypeM::Array(items) => {
            let p = parse_types(b, items);
            Built { builder: p.builder, out: SchemaTypes::Array(Box::new(p.out)) }
        },
        TypeM::Object(_, fields) => {
            let id = b.id;
            let p = parse_fields(
                BuilderM { structs: b.structs, enums: b.enums, id: next_id(id) },
                fields,
                fields.len(),
            );
            Built {
                builder: BuilderM {
                    structs: id_put(p.builder.structs, id, p.out),
                    enums: p.builder.enums,
                    id: p.builder.id,
                },
                out: SchemaTypes::Struct(id),
            }
        },
    }
}

/// The fields that the first `n` fields of an object give its struct: each
/// with the type of the schema for its types.
pub open spec fn parse_fields(b: BuilderM, fs: Seq<(Seq<char>, Seq<TypeM>)>, n: nat) -> Built<
    Seq<(Seq<char>, SchemaType)>,
>
    decreases fs, n,
{
    if n == 0 || n > fs.len() {
        Built { builder: b, out: Seq::empty() }
    } else {
        let prev = parse_fields(b, fs, (n - 1) as nat);
        let p = parse_types(prev.builder, fs[n - 1].1);
        Built { builder: p.builder, out: obj_put(prev.out, fs[n - 1].0, p.out) }
    }
}

impl SchemaType {
    /// Tells whether this is a struct.
    pub fn is_struct(&self) -> (r: bool)
        ensures
            r == (self.typ is Struct),
    {
        match self.typ {
            SchemaTypes::Struct(_) => true,
            _ => false,
        }
    }

    /// Tells whether this is an enum.
    pub fn is_enum(&self) -> (r: bool)
        ensures
            r == (self.typ is Enum),
    {
        match self.typ {
            SchemaTypes::Enum(_) => true,
            _ => false,
        }
    }
}

impl Variant {
    /// The variant with the name `s`.
    pub fn primitive(s: &str) -> (r: Variant)
        ensures
            r@ == VariantM::Primitive(s@),
    {
        Variant::Primitive(s.to_owned())
    }

    /// Tells whether this variant and `other` are the same.
    pub fn same(&self, other: &Variant) -> (r: bool)
        ensures
            r == (self@ == other@),
    {
        match (self, other) {
            (Variant::Primitive(a), Variant::Primitive(b)) => str_eq(a.as_str(), b.as_str()),
            (Variant::Struct(a), Variant::Struct(b)) => *a == *b,
            (Variant::Enum(a), Variant::Enum(b)) => *a == *b,
            _ => false,
        }
    }

    /// Tells whether this variant stands before `other`.
    pub fn lt(&self, other: &Variant) -> (r: bool)
        ensures
            r == variant_lt(self@, other@),
    {
        match (self, other) {
            (Variant::Primitive(a), Variant::Primitive(b)) => str_lt(a.as_str(), b.as_str()),
            (Variant::Primitive(_), _) => true,
            (Variant::Struct(_), Variant::Primitive(_)) => false,
            (Variant::Struct(a), Variant::Struct(b)) => *a < *b,
            (Variant::Struct(_), Variant::Enum(_)) => true,
            (Variant::Enum(a), Variant::Enum(b)) => *a < *b,
            (Variant::Enum(_), _) => false,
        }
    }
}

impl SchemaTypes {
    /// The variant under which an enum holds this type.
    pub fn varinat(&self) -> (r: Variant)
        ensures
            r@ == variant_of(*self),
    {
        match self {
            SchemaTypes::Unit => Variant::primitive("Unit"),
            SchemaTypes::Bool => Variant::primitive("Bool"),
            SchemaTypes::U64 => Variant::primitive("U64"),
            SchemaTypes::I64 => Variant::primitive("I64"),
            SchemaTypes::Float => Variant::primitive("Float"),
            SchemaTypes::String => Variant::primitive("String"),
            SchemaTypes::Array(_) => Variant::primitive("Array"),
            SchemaTypes::Struct(id) => Variant::Struct(*id),
            SchemaTypes::Enum(id) => Variant::Enum(*id),
        }
    }
}

/// An enum of the schema: its variants, each with the type that it holds.
#[derive(Debug, PartialEq, Eq)]
pub struct Enum(Vec<(Variant, SchemaTypes)>);

impl View for Enum {
    type V = Seq<(VariantM, SchemaTypes)>;

    closed spec fn view(&self) -> Seq<(VariantM, SchemaTypes)> {
        Seq::new(self.0@.len(), |i: int| (self.0@[i].0@, self.0@[i].1))
    }
}

impl Enum {
    /// An enum without variants.
    pub fn new() -> (r: Enum)
        ensures
            r@ == Seq::<(VariantM, SchemaTypes)>::empty(),
    {
        let r = Enum(Vec::new());
        proof {
            assert(r@ =~= Seq::<(VariantM, SchemaTypes)>::empty());
        }
        r
    }

    /// The number of variants.
    pub fn len(&self) -> (r: usize)
        ensures
            r == self@.len(),
    {
        self.0.len()
    }

    /// The variant at the place `i`.
    pub fn variant(&self, i: usize) -> (r: &Variant)
        requires
            i < self@.len(),
        ensures
            r@ == self@[i as int].0,
    {
        &self.0[i].0
    }

    /// The type that the variant at the place `i` holds.
    pub fn held(&self, i: usize) -> (r: &SchemaTypes)
        requires
            i < self@.len(),
        ensures
            *r == self@[i as int].1,
    {
        &self.0[i].1
    }

    /// Sets the variant `variant` to hold the type `ty`.
    pub fn add(&mut self, variant: Variant, ty: SchemaTypes)
        ensures
            final(self)@ == enum_put(old(self)@, variant@, ty),
    {
        let ghost m = self@;
        let mut i: usize = 0;
        let mut found: bool = false;
        proof {
            assert(m.subrange(0, m.len() as int) =~= m);
        }
        while i < self.0.len() && !found
            invariant
                m == self@,
                i <= self.0@.len(),
                !found ==> variant_slot(m, variant@) == i + variant_slot(
                    m.subrange(i as int, m.len() as int),
                    variant@,
                ),
                found ==> variant_slot(m, variant@) == i && i < m.len(),
            decreases self.0@.len() - i, if found { 0int } else { 1int },
        {
            let ghost tail = m.subrange(i as int, m.len() as int);
            proof {
                assert(tail[0] == m[i as int]);
                assert(tail.drop_first() =~= m.subrange(i as int + 1, m.len() as int));
            }
            if self.0[i].0.same(&variant) || variant.lt(&self.0[i].0) {
                found = true;
            } else {
                i = i + 1;
            }
        }
        if i < self.0.len() && self.0[i].0.same(&variant) {
            self.0.set(i, (variant, ty));
            proof {
                assert(self@ =~= m.update(i as int, (variant@, ty)));
            }
        } else {
            self.0.insert(i, (variant, ty));
            proof {
                assert(self@ =~= m.insert(i as int, (variant@, ty)));
            }
        }
    }
}

/// A struct of the schema: its fields, each with its type.
#[derive(Debug, PartialEq, Eq)]
pub struct Struct(Vec<(String, SchemaType)>);

impl View for Struct {
    type V = Seq<(Seq<char>, SchemaType)>;

    closed spec fn view(&self) -> Seq<(Seq<char>, SchemaType)> {
        Seq::new(self.0@.len(), |i: int| (self.0@[i].0@, self.0@[i].1))
    }
}

impl Struct {
    /// A struct without fields.
    pub fn new() -> (r: Struct)
        ensures
            r@ == Seq::<(Seq<char>, SchemaType)>::empty(),
    {
        let r = Struct(Vec::new());
        proof {
            assert(r@ =~= Seq::<(Seq<char>, SchemaType)>::empty());
        }
        r
    }

    /// The number of fields.
    pub fn len(&self) -> (r: usize)
        ensures
            r == self@.len(),
    {
        self.0.len()
    }

    /// The name of the field at the place `i`.
    pub fn name(&self, i: usize) -> (r: &str)
        requires
            i < self@.len(),
        ensures
            r@ == self@[i as int].0,
    {
        self.0[i].0.as_str()
    }

    /// The type of the field at the place `i`.
    pub fn field(&self, i: usize) -> (r: &SchemaType)
        requires
            i < self@.len(),
        ensures
            *r == self@[i as int].1,
    {
        &self.0[i].1
    }

    /// Sets the field `name` to the type `t`.
    pub fn insert(&mut self, name: String, t: SchemaType)
        ensures
            final(self)@ == obj_put(old(self)@, name@, t),
    {
        let ghost m = self@;
        let mut i: usize = 0;
        let mut found: bool = false;
        proof {
            assert(m.subrange(0, m.len() as int) =~= m);
        }
        while i < self.0.len() && !found
            invariant
                m == self@,
                i <= self.0@.len(),
                !found ==> field_slot(m, name@) == i + field_slot(
                    m.subrange(i as int, m.len() as int),
                    name@,
                ),
                found ==> field_slot(m, name@) == i && i < m.len(),
            decreases self.0@.len() - i, if found { 0int } else { 1int },
        {
            let ghost tail = m.subrange(i as int, m.len() as int);
            proof {
                assert(tail[0] == m[i as int]);
                assert(tail.drop_first() =~= m.subrange(i as int + 1, m.len() as int));
            }
            if str_eq(self.0[i].0.as_str(), name.as_str()) || str_lt(
                name.as_str(),
                self.0[i].0.as_str(),
            ) {
                found = true;
            } else {
                i = i + 1;
            }
        }
        if i < self.0.len() && str_eq(self.0[i].0.as_str(), name.as_str()) {
            self.0.set(i, (name, t));
            proof {
                assert(self@ =~= m.update(i as int, (name@, t)));
            }
        } else {
            self.0.insert(i, (name, t));
            proof {
                assert(self@ =~= m.insert(i as int, (name@, t)));
            }
        }
    }
}

/// The state of the building of a schema: the structs and enums made so far
/// and the number that the next one gets.
pub struct SchemaBuilder {
    criteria: Criteria,
    structs: Vec<(u64, Struct)>,
    enums: Vec<(u64, Enum)>,
    id: u64,
}

/// The structs of a list as plain mathematics.
pub open spec fn struct_models(v: Seq<(u64, Struct)>) -> Seq<(u64, Seq<(Seq<char>, SchemaType)>)> {
    Seq::new(v.len(), |i: int| (v[i].0, v[i].1@))
}

/// The enums of a list as plain mathematics.
pub open spec fn enum_models(v: Seq<(u64, Enum)>) -> Seq<(u64, Seq<(VariantM, SchemaTypes)>)> {
    Seq::new(v.len(), |i: int| (v[i].0, v[i].1@))
}

impl View for SchemaBuilder {
    type V = BuilderM;

    closed spec fn view(&self) -> BuilderM {
        BuilderM {
            structs: struct_models(self.structs@),
            enums: enum_models(self.enums@),
            id: self.id,
        }
    }
}

/// The place of the number `id` in the list `v`.
fn struct_slot(v: &Vec<(u64, Struct)>, id: u64) -> (i: usize)
    ensures
        i == id_slot(struct_models(v@), id),
        i <= v@.len(),
{
    let ghost m = struct_models(v@);
    let mut i: usize = 0;
    proof {
        assert(m.subrange(0, m.len() as int) =~= m);
    }
    while i < v.len() && v[i].0 < id
        invariant
            m == struct_models(v@),
            i <= v@.len(),
            id_slot(m, id) == i + id_slot(m.subrange(i as int, m.len() as int), id),
        decreases v@.len() - i,
    {
        proof {
            let tail = m.subrange(i as int, m.len() as int);
            assert(tail[0] == m[i as int]);
            assert(tail.drop_first() =~= m.subrange(i as int + 1, m.len() as int));
        }
        i = i + 1;
    }
    proof {
        if i < v@.len() {
            let tail = m.subrange(i as int, m.len() as int);
            assert(tail[0] == m[i as int]);
        }
    }
    i
}

/// The place of the number `id` in the list `v`.
fn enum_slot(v: &Vec<(u64, Enum)>, id: u64) -> (i: usize)
    ensures
        i == id_slot(enum_models(v@), id),
        i <= v@.len(),
{
    let ghost m = enum_models(v@);
    let mut i: usize = 0;
    proof {
        assert(m.subrange(0, m.len() as int) =~= m);
    }
    while i < v.len() && v[i].0 < id
        invariant
            m == enum_models(v@),
            i <= v@.len(),
            id_slot(m, id) == i + id_slot(m.subrange(i as int, m.len() as int), id),
        decreases v@.len() - i,
    {
        proof {
            let tail = m.subrange(i as int, m.len() as int);
            assert(tail[0] == m[i as int]);
            assert(tail.drop_first() =~= m.subrange(i as int + 1, m.len() as int));
        }
        i = i + 1;
    }
    proof {
        if i < v@.len() {
            let tail = m.subrange(i as int, m.len() as int);
            assert(tail[0] == m[i as int]);
        }
    }
    i
}

impl SchemaBuilder {
    /// A builder that has made nothing: the first struct or enum gets the
    /// number 0.
    pub fn new(criteria: Criteria) -> (r: SchemaBuilder)
        ensures
            r@ == (BuilderM { structs: Seq::empty(), enums: Seq::empty(), id: 0 }),
    {
        let r = SchemaBuilder { criteria, structs: Vec::new(), enums: Vec::new(), id: 0 };
        proof {
            assert(r@.structs =~= Seq::empty());
            assert(r@.enums =~= Seq::empty());
        }
        r
    }

    /// Keeps the struct `st` under the number `id`.
    pub fn add_struct(&mut self, id: u64, st: Struct)
        ensures
            final(self)@ == (BuilderM {
                structs: id_put(old(self)@.structs, id, st@),
                enums: old(self)@.enums,
                id: old(self)@.id,
            }),
    {
        let ghost m = struct_models(self.structs@);
        let i = struct_slot(&self.structs, id);
        if i < self.structs.len() && self.structs[i].0 == id {
            self.structs.set(i, (id, st));
            proof {
                assert(struct_models(self.structs@) =~= m.update(i as int, (id, st@)));
            }
        } else {
            self.structs.insert(i, (id, st));
            proof {
                assert(struct_models(self.structs@) =~= m.insert(i as int, (id, st@)));
            }
        }
    }

    /// Keeps the enum `e` under the number `id`.
    pub fn add_enum(&mut self, id: u64, e: Enum)
        ensures
            final(self)@ == (BuilderM {
                structs: old(self)@.structs,
                enums: id_put(old(self)@.enums, id, e@),
                id: old(self)@.id,
            }),
    {
        let ghost m = enum_models(self.enums@);
        let i = enum_slot(&self.enums, id);
        if i < self.enums.len() && self.enums[i].0 == id {
            self.enums.set(i, (id, e));
            proof {
                assert(enum_models(self.enums@) =~= m.update(i as int, (id, e@)));
            }
        } else {
            self.enums.insert(i, (id, e));
            proof {
                assert(enum_models(self.enums@) =~= m.insert(i as int, (id, e@)));
            }
        }
    }

    /// Gives out the next number.
    pub fn next_id(&mut self) -> (id: u64)
        ensures
            id == old(self)@.id,
            final(self)@ == (BuilderM {
                structs: old(self)@.structs,
                enums: old(self)@.enums,
                id: next_id(old(self)@.id),
            }),
    {
        let id = self.id;
        self.id = if id == u64::MAX {
            0
        } else {
            id + 1
        };
        id
    }

    /// The schema with the root `root` and the structs and enums made.
    pub fn build(self, root: SchemaType) -> (r: Schema)
        ensures
            r@ == (SchemaM { root, structs: self@.structs, enums: self@.enums }),
    {
        Schema { root, structs: self.structs, enums: self.enums }
    }
}

/// A schema: the type of the root, and the structs and enums that the types
/// name by number.
#[derive(Debug)]
pub struct Schema {
    root: SchemaType,
    structs: Vec<(u64, Struct)>,
    enums: Vec<(u64, Enum)>,
}

/// A schema as plain mathematics.
pub struct SchemaM {
    /// The type of the root.
    pub root: SchemaType,
    /// The structs, by number.
    pub structs: Seq<(u64, Seq<(Seq<char>, SchemaType)>)>,
    /// The enums, by number.
    pub enums: Seq<(u64, Seq<(VariantM, SchemaTypes)>)>,
}

/// The schema holds what its root names: a root that is a struct or an enum
/// is the one with the number 0.
pub open spec fn complete(s: SchemaM) -> bool {
    &&& s.root.typ is Struct ==> find_id(s.structs, 0).is_some()
    &&& s.root.typ is Enum ==> find_id(s.enums, 0).is_some()
}

/// The schema built for any types holds what its root names.
pub proof fn lemma_schema_complete(ts: Seq<TypeM>)
    ensures
        complete(schema_of(ts)),
{
    let b = BuilderM { structs: Seq::empty(), enums: Seq::empty(), id: 0 };
    let count = solid_count(ts, ts.len());
    let k = first_solid(ts) as int;
    if count == 0 || k >= ts.len() {
    } else if count == 1 {
        match ts[k] {
            TypeM::Object(_, fields) => {
                let p = parse_fields(
                    BuilderM { structs: b.structs, enums: b.enums, id: next_id(0) },
                    fields,
                    fields.len(),
                );
                lemma_id_put_find(p.builder.structs, 0, p.out);
            },
            _ => {},
        }
    } else {
        let p = parse_variants(
            BuilderM { structs: b.structs, enums: b.enums, id: next_id(0) },
            ts,
            ts.len(),
        );
        lemma_id_put_find(p.builder.enums, 0, p.out);
    }
}

impl View for Schema {
    type V = SchemaM;

    closed spec fn view(&self) -> SchemaM {
        SchemaM {
            root: self.root,
            structs: struct_models(self.structs@),
            enums: enum_models(self.enums@),
        }
    }
}

impl Schema {
    /// The type of the root.
    pub fn root(&self) -> (r: &SchemaType)
        ensures
            *r == self@.root,
    {
        &self.root
    }

    /// The number of structs.
    pub fn struct_count(&self) -> (r: usize)
        ensures
            r == self@.structs.len(),
    {
        self.structs.len()
    }

    /// The number and the struct at the place `i`.
    pub fn struct_at(&self, i: usize) -> (r: (u64, &Struct))
        requires
            i < self@.structs.len(),
        ensures
            (r.0, r.1@) == self@.structs[i as int],
    {
        (self.structs[i].0, &self.structs[i].1)
    }

    /// The struct with the number `id`, if there is one.
    pub fn find_struct(&self, id: u64) -> (r: Option<&Struct>)
        ensures
            match r {
                Some(st) => find_id(self@.structs, id) == Some(st@),
                None => find_id(self@.structs, id).is_none(),
            },
    {
        let i = struct_slot(&self.structs, id);
        if i < self.structs.len() && self.structs[i].0 == id {
            Some(&self.structs[i].1)
        } else {
            None
        }
    }

    /// The enum with the number `id`, if there is one.
    pub fn find_enum(&self, id: u64) -> (r: Option<&Enum>)
        ensures
            match r {
                Some(e) => find_id(self@.enums, id) == Some(e@),
                None => find_id(self@.enums, id).is_none(),
            },
    {
        let i = enum_slot(&self.enums, id);
        if i < self.enums.len() && self.enums[i].0 == id {
            Some(&self.enums[i].1)
        } else {
            None
        }
    }

    /// Tells whether the schema holds what its root names.
    pub fn is_complete(&self) -> (r: bool)
        ensures
            r == complete(self@),
    {
        if self.root.is_struct() {
            self.find_struct(0).is_some()
        } else if self.root.is_enum() {
            self.find_enum(0).is_some()
        } else {
            true
        }
    }

    /// The number of enums.
    pub fn enum_count(&self) -> (r: usize)
        ensures
            r == self@.enums.len(),
    {
        self.enums.len()
    }

    /// The number and the enum at the place `i`.
    pub fn enum_at(&self, i: usize) -> (r: (u64, &Enum))
        requires
            i < self@.enums.len(),
        ensures
            (r.0, r.1@) == self@.enums[i as int],
    {
        (self.enums[i].0, &self.enums[i].1)
    }
}

impl SchemaType {
    /// Builds the type of the schema for a value of the types `types`, and
    /// with it the structs and enums that it needs.
    pub fn parse(builder: &mut SchemaBuilder, types: Types) -> (r: SchemaType)
        ensures
            final(builder)@ == parse_types(old(builder)@, types@).builder,
            r == parse_types(old(builder)@, types@).out,
        decreases types@, 0nat,
    {
        let ghost ts = types@;
        let ghost b0 = builder@;
        let is_nullable = types.is_nullable();
        let mut list = types.into_vec();
        let len: usize = list.len();
        let mut count: usize = 0;
        let mut i: usize = 0;
        while i < len
            invariant
                len == list@.len(),
                models(list@) == ts,
                i <= len,
                count == solid_count(ts, i as nat),
                count <= i,
            decreases len - i,
        {
            proof {
                assert(models(list@)[i as int] == list@[i as int]@);
            }
            if list[i].rank() != 0 {
                count = count + 1;
            }
            i = i + 1;
        }
        let mut k: usize = 0;
        proof {
            assert(ts.subrange(0, len as int) =~= ts);
        }
        while k < len && list[k].rank() == 0
            invariant
                len == list@.len(),
                models(list@) == ts,
                k <= len,
                first_solid(ts) == k + first_solid(ts.subrange(k as int, len as int)),
            decreases len - k,
        {
            proof {
                let tail = ts.subrange(k as int, len as int);
                assert(tail[0] == list@[k as int]@);
                assert(tail.drop_first() =~= ts.subrange(k as int + 1, len as int));
            }
            k = k + 1;
        }
        proof {
            if k < len {
                let tail = ts.subrange(k as int, len as int);
                assert(tail[0] == list@[k as int]@);
            }
        }
        if count == 0 || k >= len {
            return SchemaType { is_nullable, typ: SchemaTypes::Unit };
        }
        if count == 1 {
            let t = list.remove(k);
            proof {
                assert(t@ == ts[k as int]);
            }
            let typ = SchemaTypes::parse(builder, t);
            return SchemaType { is_nullable, typ };
        }
        let id = builder.next_id();
        let ghost b1 = builder@;
        let mut e = Enum::new();
        let mut n: usize = 0;
        let ghost all = list@;
        while list.len() > 0
            invariant
                len == all.len(),
                models(all) == ts,
                ts == types@,
                n + list@.len() == len,
                list@ == all.subrange(n as int, len as int),
                builder@ == parse_variants(b1, ts, n as nat).builder,
                e@ == parse_variants(b1, ts, n as nat).out,
            decreases list@.len(),
        {
            let t = list.remove(0);
            proof {
                assert(t == all[n as int]);
                assert(t@ == ts[n as int]);
                assert(list@ =~= all.subrange(n as int + 1, len as int));
            }
            if t.rank() != 0 {
                let typ = SchemaTypes::parse(builder, t);
                let v = typ.varinat();
                e.add(v, typ);
            }
            n = n + 1;
        }
        builder.add_enum(id, e);
        SchemaType { is_nullable, typ: SchemaTypes::Enum(id) }
    }
}

impl SchemaTypes {
    /// Builds the type of the schema for the type `t`, and with it the
    /// structs and enums that it needs. The type `null` has none of its own:
    /// it only makes other types nullable.
    pub fn parse(builder: &mut SchemaBuilder, t: Type) -> (r: SchemaTypes)
        requires
            !(t@ is Null),
        ensures
            final(builder)@ == parse_one(old(builder)@, t@).builder,
            r == parse_one(old(builder)@, t@).out,
        decreases t@, 0nat,
    {
        match t {
            Type::Null => SchemaTypes::Unit,
            Type::Bool => SchemaTypes::Bool,
            Type::U64 => SchemaTypes::U64,
            Type::I64 => SchemaTypes::I64,
            Type::Float => SchemaTypes::Float,
            Type::String => SchemaTypes::String,
            Type::Array(items) => {
                let inner = SchemaType::parse(builder, items);
                SchemaTypes::Array(Box::new(inner))
            },
            Type::Object(_, fields) => {
                let id = builder.next_id();
                let st = Struct::parse(builder, fields);
                builder.add_struct(id, st);
                SchemaTypes::Struct(id)
            },
        }
    }
}

impl Struct {
    /// Builds the struct for an object with the fields `obj`, and with it
    /// the structs and enums that the types of its fields need.
    pub fn parse(builder: &mut SchemaBuilder, obj: ObjectScheme) -> (r: Struct)
        ensures
            final(builder)@ == parse_fields(old(builder)@, obj@, obj@.len()).builder,
            r@ == parse_fields(old(builder)@, obj@, obj@.len()).out,
        decreases obj@, 0nat,
    {
        let ghost fs = obj@;
        let ghost b0 = builder@;
        let mut list = obj.into_vec();
        let ghost all = list@;
        let len: usize = list.len();
        let mut out = Struct::new();
        let mut n: usize = 0;
        while list.len() > 0
            invariant
                len == all.len(),
                field_models(all) == fs,
                fs == obj@,
                n + list@.len() == len,
                list@ == all.subrange(n as int, len as int),
                builder@ == parse_fields(b0, fs, n as nat).builder,
                out@ == parse_fields(b0, fs, n as nat).out,
            decreases list@.len(),
        {
            let (name, types) = list.remove(0);
            proof {
                assert((name, types) == all[n as int]);
                assert(fs[n as int] == (name@, types@));
                assert(list@ =~= all.subrange(n as int + 1, len as int));
                assert(types@ == obj@[n as int].1);
            }
            let t = SchemaType::parse(builder, types);
            out.insert(name, t);
            n = n + 1;
        }
        out
    }
}

/// Gathers the types of sample values and builds the schema that fits them
/// all.
pub struct SchemaGenerator {
    criteria: Criteria,
    types: Types,
}

/// The schema for a value of the types `ts`: built from nothing, numbers
/// from 0.
pub open spec fn schema_of(ts: Seq<TypeM>) -> SchemaM {
    let p = parse_types(BuilderM { structs: Seq::empty(), enums: Seq::empty(), id: 0 }, ts);
    SchemaM { root: p.out, structs: p.builder.structs, enums: p.builder.enums }
}

impl SchemaGenerator {
    /// The settings of the generator.
    pub closed spec fn criteria(&self) -> crate::schema::criteria::CriteriaView {
        self.criteria@
    }

    /// The types of the samples taken in so far.
    pub closed spec fn types(&self) -> Seq<TypeM> {
        self.types@
    }

    /// A generator with the settings `criteria` that has seen no sample.
    pub fn new(criteria: Criteria) -> (r: SchemaGenerator)
        ensures
            r.criteria() == criteria@,
            r.types() == Seq::<TypeM>::empty(),
            wf_types(r.types()),
    {
        SchemaGenerator { criteria, types: Types::empty() }
    }

    /// Takes in the sample `val`: its type joins the types seen.
    pub fn add_value(&mut self, val: Value)
        ensures
            final(self).criteria() == old(self).criteria(),
            final(self).types() == added(
                old(self).types(),
                type_of(old(self).criteria().split, ""@, val@),
            ),
            wf_types(old(self).types()) ==> wf_types(final(self).types()),
    {
        let t = Type::from_value(&self.criteria, val);
        self.types.add(t);
    }

    /// The schema for the samples taken in.
    pub fn build(self) -> (r: Schema)
        ensures
            r@ == schema_of(self.types()),
            complete(r@),
    {
        proof {
            lemma_schema_complete(self.types());
        }
        let mut builder = SchemaBuilder::new(self.criteria);
        let root = SchemaType::parse(&mut builder, self.types);
        builder.build(root)
    }
}

} // verus!
