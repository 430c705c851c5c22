//! The types that sample values show, and how the types of several samples
//! merge into one.

use vstd::prelude::*;
use vstd::string::StrSliceExecFns;

use crate::schema::order::{
    lemma_add_i_wf, lemma_merge_obj_wf, lemma_merge_wf, lemma_normalize_wf, lemma_obj_put_wf,
    lemma_with_null_wf, wf_fields, wf_type, wf_types,
};
use crate::text::str_eq;

verus! {

/// The type of a value, as plain mathematics.
pub enum TypeM {
    /// The value `null`.
    Null,
    /// A truth value.
    Bool,
    /// A whole number that is not negative.
    U64,
    /// A whole number.
    I64,
    /// A number.
    Float,
    /// A string.
    String,
    /// An array, with the types of its items.
    Array(Seq<TypeM>),
    /// An object, with the name of its kind and the types of its fields.
    Object(Seq<char>, Seq<(Seq<char>, Seq<TypeM>)>),
}

/// `a` stands before `b` in the order of the dictionary, character by
/// character.
pub open spec fn text_lt(a: Seq<char>, b: Seq<char>) -> bool
    decreases a.len(),
{
    if b.len() == 0 {
        false
    } else if a.len() == 0 {
        true
    } else if a[0] != b[0] {
        a[0] < b[0]
    } else {
        text_lt(a.drop_first(), b.drop_first())
    }
}

/// The place of the kind of a type among the kinds.
pub open spec fn rank(t: TypeM) -> nat {
    match t {
        TypeM::Null => 0,
        TypeM::Bool => 1,
        TypeM::U64 => 2,
        TypeM::I64 => 3,
        TypeM::Float => 4,
        TypeM::String => 5,
        TypeM::Array(_) => 6,
        TypeM::Object(_, _) => 7,
    }
}

/// The name of the kind of an object; empty for any other type.
pub open spec fn tag(t: TypeM) -> Seq<char> {
    match t {
        TypeM::Object(name, _) => name,
        _ => Seq::empty(),
    }
}

/// Two types have the same key: they are of the same kind and, as objects,
/// of the same name. A set of types holds one type for each key.
pub open spec fn same_key(a: TypeM, b: TypeM) -> bool {
    rank(a) == rank(b) && tag(a) == tag(b)
}

/// The key of `a` stands before the key of `b`: by kind, and among objects
/// by name.
pub open spec fn key_lt(a: TypeM, b: TypeM) -> bool {
    rank(a) < rank(b) || (rank(a) == rank(b) && text_lt(tag(a), tag(b)))
}

/// The place of the key of `t` in `ts`: that of the first type whose key is
/// that of `t` or stands behind it; the length where there is none.
pub open spec fn slot(ts: Seq<TypeM>, t: TypeM) -> nat
    decreases ts.len(),
{
    if ts.len() == 0 || same_key(ts[0], t) || key_lt(t, ts[0]) {
        0
    } else {
        1 + slot(ts.drop_first(), t)
    }
}

/// Whether `ts` holds a type with the key of `t` at the place of that key.
pub open spec fn holds(ts: Seq<TypeM>, t: TypeM) -> bool {
    slot(ts, t) < ts.len() && same_key(ts[slot(ts, t) as int], t)
}

/// Some type of `ts` is of the kind with the rank `r`.
pub open spec fn has_rank(ts: Seq<TypeM>, r: nat) -> bool {
    exists|i: int| 0 <= i < ts.len() && rank(#[trigger] ts[i]) == r
}

/// Whether a type stays when `ts` is brought to its normal form. Whole
/// numbers go where there are numbers with a sign or a fraction: `U64`
/// where `ts` holds `I64` or `Float`, `I64` where it holds `Float`.
pub open spec fn stays(ts: Seq<TypeM>, t: TypeM) -> bool {
    &&& !(rank(t) == 2 && (has_rank(ts, 3) || has_rank(ts, 4)))
    &&& !(rank(t) == 3 && has_rank(ts, 4))
}

/// The first `n` types of `ts` that stay in its normal form.
pub open spec fn kept(ts: Seq<TypeM>, n: nat) -> Seq<TypeM>
    decreases n,
{
    if n == 0 || n > ts.len() {
        Seq::empty()
    } else if stays(ts, ts[n - 1]) {
        kept(ts, (n - 1) as nat).push(ts[n - 1])
    } else {
        kept(ts, (n - 1) as nat)
    }
}

/// The normal form of `ts`: its types that stay, in their order.
pub open spec fn normalize(ts: Seq<TypeM>) -> Seq<TypeM> {
    kept(ts, ts.len())
}

/// The types `ts` where the value can also be `null`, in normal form.
pub open spec fn with_null(ts: Seq<TypeM>) -> Seq<TypeM> {
    normalize(
        if ts.len() > 0 && rank(ts[0]) == 0 {
            ts.update(0, TypeM::Null)
        } else {
            ts.insert(0, TypeM::Null)
        },
    )
}

/// What the type `held` and a type `t` of the same key become together:
/// arrays merge the types of their items, objects the types of their fields,
/// and any other type is replaced.
pub open spec fn combine(held: TypeM, t: TypeM) -> TypeM
    decreases t, 0nat,
{
    match t {
        TypeM::Array(items) => match held {
            TypeM::Array(h) => TypeM::Array(merge(h, items)),
            _ => t,
        },
        TypeM::Object(_, fields) => match held {
            TypeM::Object(name, h) => TypeM::Object(name, merge_obj(h, fields)),
            _ => t,
        },
        _ => t,
    }
}

/// The types `ts` with `t` taken in, before the normal form: `t` joins at
/// the place of its key, together with the type of that key where `ts` holds
/// one.
pub open spec fn add_i(ts: Seq<TypeM>, t: TypeM) -> Seq<TypeM>
    decreases t, 1nat,
{
    let i = slot(ts, t) as int;
    if holds(ts, t) {
        ts.update(i, combine(ts[i], t))
    } else {
        ts.insert(i, t)
    }
}

/// The types `ts` with `t` taken in.
pub open spec fn added(ts: Seq<TypeM>, t: TypeM) -> Seq<TypeM> {
    normalize(add_i(ts, t))
}

/// The types `a` with the first `n` types of `b` taken in one after the
/// other, before the normal form.
pub open spec fn merge_i(a: Seq<TypeM>, b: Seq<TypeM>, n: nat) -> Seq<TypeM>
    decreases b, n,
{
    if n == 0 || n > b.len() {
        a
    } else {
        add_i(merge_i(a, b, (n - 1) as nat), b[n - 1])
    }
}

/// The types `a` and `b` merged: `a` with the types of `b` taken in, in
/// normal form.
pub open spec fn merge(a: Seq<TypeM>, b: Seq<TypeM>) -> Seq<TypeM>
    decreases b, b.len() + 1,
{
    normalize(merge_i(a, b, b.len()))
}

/// The place of the field `name` in `fs`: that of the first field whose name
/// is `name` or stands behind it; the length where there is none.
pub open spec fn field_slot<V>(fs: Seq<(Seq<char>, V)>, name: Seq<char>) -> nat
    decreases fs.len(),
{
    if fs.len() == 0 || fs[0].0 == name || text_lt(name, fs[0].0) {
        0
    } else {
        1 + field_slot(fs.drop_first(), name)
    }
}

/// Whether `fs` holds a field `name` at the place of that name.
pub open spec fn has_field<V>(fs: Seq<(Seq<char>, V)>, name: Seq<char>) -> bool {
    field_slot(fs, name) < fs.len() && fs[field_slot(fs, name) as int].0 == name
}

/// The fields `a` where each field that `b` lacks can also be `null`.
pub open spec fn pad(a: Seq<(Seq<char>, Seq<TypeM>)>, b: Seq<(Seq<char>, Seq<TypeM>)>) -> Seq<
    (Seq<char>, Seq<TypeM>),
> {
    Seq::new(
        a.len(),
        |i: int|
            if has_field(b, a[i].0) {
                a[i]
            } else {
                (a[i].0, with_null(a[i].1))
            },
    )
}

/// The fields `a` with the first `n` fields of `b` taken in: a field that
/// `a` holds merges its types with those of `b`, a new one joins at the place
/// of its name and can also be `null`.
pub open spec fn join(a: Seq<(Seq<char>, Seq<TypeM>)>, b: Seq<(Seq<char>, Seq<TypeM>)>, n: nat) -> Seq<
    (Seq<char>, Seq<TypeM>),
>
    decreases b, n,
{
    if n == 0 || n > b.len() {
        a
    } else {
        let prev = join(a, b, (n - 1) as nat);
        let name = b[n - 1].0;
        let i = field_slot(prev, name) as int;
        if has_field(prev, name) {
            prev.update(i, (name, merge(prev[i].1, b[n - 1].1)))
        } else {
            prev.insert(i, (name, with_null(b[n - 1].1)))
        }
    }
}

/// The fields of two objects of one kind merged. A field of both has the
/// types of both; a field of one only has its types there and can also be
/// `null`.
pub open spec fn merge_obj(a: Seq<(Seq<char>, Seq<TypeM>)>, b: Seq<(Seq<char>, Seq<TypeM>)>) -> Seq<
    (Seq<char>, Seq<TypeM>),
>
    decreases b, b.len() + 1,
{
    join(pad(a, b), b, b.len())
}

/// The fields `fs` with the field `name` set to `ts`: in place of the field
/// of that name where there is one, else at the place of the name.
pub open spec fn obj_put<V>(fs: Seq<(Seq<char>, V)>, name: Seq<char>, ts: V) -> Seq<(Seq<char>, V)> {
    let i = field_slot(fs, name) as int;
    if has_field(fs, name) {
        fs.update(i, (name, ts))
    } else {
        fs.insert(i, (name, ts))
    }
}

/// The fields of `list` set one after the other, the first `n` of them.
pub open spec fn obj_of(list: Seq<(Seq<char>, Seq<TypeM>)>, n: nat) -> Seq<(Seq<char>, Seq<TypeM>)>
    decreases n,
{
    if n == 0 || n > list.len() {
        Seq::empty()
    } else {
        obj_put(obj_of(list, (n - 1) as nat), list[n - 1].0, list[n - 1].1)
    }
}

/// To take in `null` is to let the value also be `null`.
pub proof fn lemma_added_null(ts: Seq<TypeM>)
    ensures
        added(ts, TypeM::Null) == with_null(ts),
{
    if ts.len() > 0 {
        if rank(ts[0]) == 0 {
            assert(tag(ts[0]) =~= Seq::<char>::empty());
            assert(same_key(ts[0], TypeM::Null));
        } else {
            assert(key_lt(TypeM::Null, ts[0]));
        }
    }
}

/// The type of a value.
#[derive(Debug, PartialEq, Eq)]
pub enum Type {
    /// The value `null`.
    Null,
    /// A truth value.
    Bool,
    /// A whole number that is not negative.
    U64,
    /// A whole number.
    I64,
    /// A number.
    Float,
    /// A string.
    String,
    /// An array, with the types of its items.
    Array(Types),
    /// An object, with the name of its kind and the types of its fields.
    Object(String, ObjectScheme),
}

/// The types that a value can have: one type for each key.
#[derive(Debug, PartialEq, Eq)]
pub struct Types(Vec<Type>);

/// The fields of an object, each with the types that it can have.
#[derive(Debug, PartialEq, Eq)]
pub struct ObjectScheme {
    fields: Vec<(String, Types)>,
}

impl Type {
    /// This type as plain mathematics.
    pub open spec fn model(&self) -> TypeM
        decreases self,
    {
        match self {
            Type::Null => TypeM::Null,
            Type::Bool => TypeM::Bool,
            Type::U64 => TypeM::U64,
            Type::I64 => TypeM::I64,
            Type::Float => TypeM::Float,
            Type::String => TypeM::String,
            Type::Array(ts) => TypeM::Array(ts.model()),
            Type::Object(name, fields) => TypeM::Object(name@, fields.model()),
        }
    }
}

impl Types {
    /// These types as plain mathematics, in the order in which they are
    /// kept.
    pub closed spec fn model(&self) -> Seq<TypeM>
        decreases self,
    {
        Seq::new(
            self.0@.len(),
            |i: int|
                if 0 <= i < self.0@.len() {
                    self.0@[i].model()
                } else {
                    TypeM::Null
                },
        )
    }
}

impl ObjectScheme {
    /// These fields as plain mathematics, in the order in which they are
    /// kept.
    pub closed spec fn model(&self) -> Seq<(Seq<char>, Seq<TypeM>)>
        decreases self,
    {
        Seq::new(
            self.fields@.len(),
            |i: int|
                if 0 <= i < self.fields@.len() {
                    (self.fields@[i].0@, self.fields@[i].1.model())
                } else {
                    (Seq::empty(), Seq::empty())
                },
        )
    }
}

impl View for Type {
    type V = TypeM;

    open spec fn view(&self) -> TypeM {
        self.model()
    }
}

impl View for Types {
    type V = Seq<TypeM>;

    open spec fn view(&self) -> Seq<TypeM> {
        self.model()
    }
}

impl View for ObjectScheme {
    type V = Seq<(Seq<char>, Seq<TypeM>)>;

    open spec fn view(&self) -> Seq<(Seq<char>, Seq<TypeM>)> {
        self.model()
    }
}

/// The types of a list as plain mathematics.
pub open spec fn models(v: Seq<Type>) -> Seq<TypeM> {
    Seq::new(v.len(), |i: int| v[i]@)
}

/// The fields of a list as plain mathematics.
pub open spec fn field_models(v: Seq<(String, Types)>) -> Seq<(Seq<char>, Seq<TypeM>)> {
    Seq::new(v.len(), |i: int| (v[i].0@, v[i].1@))
}

/// Two equal beginnings do not decide the order of two texts: what follows
/// them does.
proof fn lemma_text_lt_skip(a: Seq<char>, b: Seq<char>, n: int)
    requires
        0 <= n <= a.len(),
        n <= b.len(),
        a.subrange(0, n) == b.subrange(0, n),
    ensures
        text_lt(a, b) == text_lt(a.subrange(n, a.len() as int), b.subrange(n, b.len() as int)),
    decreases n,
{
    if n == 0 {
        assert(a.subrange(0, a.len() as int) =~= a);
        assert(b.subrange(0, b.len() as int) =~= b);
    } else {
        assert(a[0] == a.subrange(0, n)[0]);
        assert(b[0] == b.subrange(0, n)[0]);
        let a1 = a.drop_first();
        let b1 = b.drop_first();
        assert(a1.subrange(0, n - 1) =~= a.subrange(0, n).drop_first());
        assert(b1.subrange(0, n - 1) =~= b.subrange(0, n).drop_first());
        lemma_text_lt_skip(a1, b1, n - 1);
        assert(a1.subrange(n - 1, a1.len() as int) =~= a.subrange(n, a.len() as int));
        assert(b1.subrange(n - 1, b1.len() as int) =~= b.subrange(n, b.len() as int));
    }
}

/// Tells whether `a` stands before `b` in the order of the dictionary.
pub fn str_lt(a: &str, b: &str) -> (r: bool)
    ensures
        r == text_lt(a@, b@),
{
    let n: usize = a.unicode_len();
    let m: usize = b.unicode_len();
    let mut i: usize = 0;
    while i < n && i < m
        invariant
            n == a@.len(),
            m == b@.len(),
            i <= n,
            i <= m,
            a@.subrange(0, i as int) == b@.subrange(0, i as int),
        decreases n - i,
    {
        let x = a.get_char(i);
        let y = b.get_char(i);
        if x != y {
            proof {
                lemma_text_lt_skip(a@, b@, i as int);
                let ra = a@.subrange(i as int, n as int);
                let rb = b@.subrange(i as int, m as int);
                assert(ra[0] == x && rb[0] == y);
            }
            return x < y;
        }
        proof {
            assert(a@.subrange(0, i as int + 1) =~= a@.subrange(0, i as int).push(x));
            assert(b@.subrange(0, i as int + 1) =~= b@.subrange(0, i as int).push(y));
        }
        i = i + 1;
    }
    proof {
        lemma_text_lt_skip(a@, b@, i as int);
    }
    i < m
}

impl Type {
    /// The place of the kind of this type among the kinds.
    pub fn rank(&self) -> (r: u8)
        ensures
            r == rank(self@),
    {
        match self {
            Type::Null => 0,
            Type::Bool => 1,
            Type::U64 => 2,
            Type::I64 => 3,
            Type::Float => 4,
            Type::String => 5,
            Type::Array(_) => 6,
            Type::Object(_, _) => 7,
        }
    }

    /// Tells whether this type and `other` have the same key.
    pub fn same_key(&self, other: &Type) -> (r: bool)
        ensures
            r == same_key(self@, other@),
    {
        match (self, other) {
            (Type::Object(a, _), Type::Object(b, _)) => str_eq(a.as_str(), b.as_str()),
            _ => {
                proof {
                    assert(tag(self@) =~= Seq::<char>::empty() || tag(other@) =~= Seq::<
                        char,
                    >::empty());
                    if rank(self@) == rank(other@) {
                        assert(tag(self@) =~= tag(other@));
                    }
                }
                self.rank() == other.rank()
            },
        }
    }

    /// Tells whether the key of this type stands before that of `other`.
    pub fn key_lt(&self, other: &Type) -> (r: bool)
        ensures
            r == key_lt(self@, other@),
    {
        match (self, other) {
            (Type::Object(a, _), Type::Object(b, _)) => str_lt(a.as_str(), b.as_str()),
            _ => {
                proof {
                    if rank(self@) == rank(other@) {
                        assert(tag(self@) =~= Seq::<char>::empty());
                        assert(tag(other@) =~= Seq::<char>::empty());
                    }
                }
                self.rank() < other.rank()
            },
        }
    }
}

impl Types {
    /// No type at all.
    pub fn empty() -> (r: Types)
        ensures
            r@ == Seq::<TypeM>::empty(),
            wf_types(r@),
    {
        let r = Types(Vec::new());
        proof {
            assert(r.model() =~= Seq::<TypeM>::empty());
        }
        r
    }

    /// The type `null` alone.
    pub fn null() -> (r: Types)
        ensures
            r@ == seq![TypeM::Null],
            wf_types(r@),
    {
        let mut v: Vec<Type> = Vec::new();
        v.push(Type::Null);
        let r = Types(v);
        proof {
            assert(r.model() =~= seq![TypeM::Null]);
        }
        r
    }

    /// The place of the key of `t` among these types, and whether a type
    /// with that key stands there.
    pub fn slot(&self, t: &Type) -> (r: (usize, bool))
        ensures
            r.0 == slot(self@, t@),
            r.1 == holds(self@, t@),
            r.0 <= self@.len(),
    {
        let ghost m = self.model();
        let mut i: usize = 0;
        proof {
            assert(m.subrange(0, m.len() as int) =~= m);
        }
        while i < self.0.len()
            invariant
                m == self.model(),
                i <= self.0@.len(),
                slot(m, t@) == i + slot(m.subrange(i as int, m.len() as int), t@),
            decreases self.0@.len() - i,
        {
            let ghost tail = m.subrange(i as int, m.len() as int);
            proof {
                assert(tail[0] == self.0@[i as int]@);
                assert(tail.drop_first() =~= m.subrange(i as int + 1, m.len() as int));
            }
            if self.0[i].same_key(t) {
                return (i, true);
            }
            if t.key_lt(&self.0[i]) {
                return (i, false);
            }
            i = i + 1;
        }
        (i, false)
    }

    /// Tells whether one of these types is of the kind with the rank `r`.
    pub fn has_rank(&self, r: u8) -> (found: bool)
        ensures
            found == has_rank(self@, r as nat),
    {
        let mut i: usize = 0;
        while i < self.0.len()
            invariant
                i <= self.0@.len(),
                forall|j: int| 0 <= j < i ==> rank(#[trigger] self.model()[j]) != r,
            decreases self.0@.len() - i,
        {
            if self.0[i].rank() == r {
                proof {
                    assert(rank(self.model()[i as int]) == r);
                }
                return true;
            }
            i = i + 1;
        }
        false
    }

    /// Takes the type `ty` in, without bringing the types to their normal
    /// form.
    pub fn add_i(&mut self, ty: Type)
        ensures
            final(self)@ == add_i(old(self)@, ty@),
            wf_types(old(self)@) && wf_type(ty@) ==> wf_types(final(self)@),
        decreases ty, 1nat,
    {
        proof {
            if wf_types(self@) && wf_type(ty@) {
                lemma_add_i_wf(self@, ty@);
            }
        }
        let (i, found) = self.slot(&ty);
        if found {
            let held = self.0.remove(i);
            let both = held.combine(ty);
            self.0.insert(i, both);
            proof {
                assert(self.model() =~= old(self).model().update(i as int, both@));
            }
        } else {
            self.0.insert(i, ty);
            proof {
                assert(self.model() =~= old(self).model().insert(i as int, ty@));
            }
        }
    }

    /// Brings the types to their normal form: whole numbers go where there
    /// are numbers with a sign or a fraction.
    pub fn normalize(&mut self)
        ensures
            final(self)@ == normalize(old(self)@),
            wf_types(old(self)@) ==> wf_types(final(self)@),
    {
        proof {
            if wf_types(self@) {
                lemma_normalize_wf(self@);
            }
        }
        let has_i64 = self.has_rank(3);
        let has_float = self.has_rank(4);
        let ghost m = self.model();
        let mut rest: Vec<Type> = Vec::new();
        std::mem::swap(&mut rest, &mut self.0);
        let mut out: Vec<Type> = Vec::new();
        let mut n: usize = 0;
        let len: usize = rest.len();
        proof {
            assert(models(rest@) =~= m);
            assert(models(out@) =~= kept(m, 0));
        }
        while rest.len() > 0
            invariant
                len == m.len(),
                n + rest@.len() == len,
                models(rest@) == m.subrange(n as int, len as int),
                models(out@) == kept(m, n as nat),
                has_i64 == has_rank(m, 3),
                has_float == has_rank(m, 4),
            decreases rest@.len(),
        {
            let ghost before = out@;
            let ghost old_rest = rest@;
            let t = rest.remove(0);
            proof {
                assert(t@ == models(old_rest)[0]);
                assert(t@ == m[n as int]);
                assert(models(rest@) =~= m.subrange(n as int + 1, len as int)) by {
                    assert forall|j: int| 0 <= j < rest@.len() implies models(rest@)[j]
                        == m.subrange(n as int + 1, len as int)[j] by {
                        assert(rest@[j] == old_rest[j + 1]);
                        assert(models(old_rest)[j + 1] == m.subrange(n as int, len as int)[j + 1]);
                    }
                }
            }
            let r = t.rank();
            let goes = (r == 2 && (has_i64 || has_float)) || (r == 3 && has_float);
            if !goes {
                out.push(t);
                proof {
                    assert(models(out@) =~= models(before).push(t@));
                }
            }
            n = n + 1;
        }
        self.0 = out;
        proof {
            assert(self.model() =~= models(out@));
        }
    }

    /// Takes the type `ty` in.
    pub fn add(&mut self, ty: Type)
        ensures
            final(self)@ == added(old(self)@, ty@),
            wf_types(old(self)@) && wf_type(ty@) ==> wf_types(final(self)@),
    {
        self.add_i(ty);
        self.normalize();
    }

    /// Tells whether the value can be `null`.
    pub fn is_nullable(&self) -> (r: bool)
        ensures
            r == has_rank(self@, 0),
    {
        self.has_rank(0)
    }

    /// The types, in the order of their keys.
    pub fn into_vec(self) -> (r: Vec<Type>)
        ensures
            models(r@) == self@,
    {
        proof {
            assert(models(self.0@) =~= self.model());
        }
        self.0
    }

    /// Takes in all types of `other`, and brings the types to their normal
    /// form.
    pub fn merge(&mut self, other: Types)
        ensures
            final(self)@ == merge(old(self)@, other@),
            wf_types(old(self)@) && wf_types(other@) ==> wf_types(final(self)@),
        decreases other, 0nat,
    {
        proof {
            if wf_types(self@) && wf_types(other@) {
                lemma_merge_wf(self@, other@);
            }
        }
        let ghost b = other.model();
        let ghost a = self.model();
        let ghost all = other.0@;
        let mut rest = other.0;
        let mut n: usize = 0;
        let len: usize = rest.len();
        proof {
            assert(models(all) =~= b);
        }
        while rest.len() > 0
            invariant
                len == b.len(),
                all.len() == len,
                all == other.0@,
                models(all) == b,
                n + rest@.len() == len,
                rest@ == all.subrange(n as int, len as int),
                self.model() == merge_i(a, b, n as nat),
            decreases rest@.len(),
        {
            let t = rest.remove(0);
            proof {
                assert(t == all[n as int]);
                assert(t@ == b[n as int]);
                assert(rest@ =~= all.subrange(n as int + 1, len as int));
            }
            self.add_i(t);
            n = n + 1;
        }
        self.normalize();
    }

    /// The number of types besides `null`.
    pub fn variants_count(&self) -> (r: usize)
        ensures
            r == if has_rank(self@, 0) {
                self@.len() - 1
            } else {
                self@.len() as int
            },
    {
        if self.is_nullable() {
            proof {
                let i = choose|i: int| 0 <= i < self@.len() && rank(#[trigger] self@[i]) == 0;
            }
            self.0.len() - 1
        } else {
            self.0.len()
        }
    }

    /// These types where the value can also be `null`.
    pub fn with_null(self) -> (r: Types)
        ensures
            r@ == with_null(self@),
            r@ == added(self@, TypeM::Null),
            wf_types(self@) ==> wf_types(r@),
    {
        proof {
            if wf_types(self@) {
                lemma_with_null_wf(self@);
            }
        }
        let mut r = self;
        proof {
            lemma_added_null(self.model());
        }
        if r.0.len() > 0 && r.0[0].rank() == 0 {
            r.0.set(0, Type::Null);
            proof {
                assert(r.model() =~= self.model().update(0, TypeM::Null));
            }
        } else {
            r.0.insert(0, Type::Null);
            proof {
                assert(r.model() =~= self.model().insert(0, TypeM::Null));
            }
        }
        r.normalize();
        r
    }

    /// The type `t` alone.
    pub fn from_type(t: Type) -> (r: Types)
        ensures
            r@ == add_i(Seq::<TypeM>::empty(), t@),
            wf_type(t@) ==> wf_types(r@),
    {
        let mut ts = Types::empty();
        ts.add_i(t);
        ts
    }

    /// The types of `list` taken in one after the other, without the normal
    /// form.
    pub fn from_vec(list: Vec<Type>) -> (r: Types)
        ensures
            r@ == merge_i(Seq::<TypeM>::empty(), models(list@), list@.len()),
            (forall|i: int| 0 <= i < list@.len() ==> wf_type(#[trigger] models(list@)[i]))
                ==> wf_types(r@),
    {
        proof {
            if forall|i: int| 0 <= i < list@.len() ==> wf_type(#[trigger] models(list@)[i]) {
                lemma_from_list_wf(models(list@), list@.len());
            }
        }
        let ghost all = list@;
        let ghost b = models(list@);
        let mut rest = list;
        let mut ts = Types::empty();
        let mut n: usize = 0;
        let len: usize = rest.len();
        while rest.len() > 0
            invariant
                len == all.len(),
                b == models(all),
                n + rest@.len() == len,
                rest@ == all.subrange(n as int, len as int),
                ts.model() == merge_i(Seq::<TypeM>::empty(), b, n as nat),
            decreases rest@.len(),
        {
            let t = rest.remove(0);
            proof {
                assert(t == all[n as int]);
                assert(rest@ =~= all.subrange(n as int + 1, len as int));
            }
            ts.add_i(t);
            n = n + 1;
        }
        ts
    }
}

impl Type {
    /// What this type and the type `t` of the same key become together.
    pub fn combine(self, t: Type) -> (r: Type)
        ensures
            r@ == combine(self@, t@),
            wf_type(self@) && wf_type(t@) ==> wf_type(r@),
        decreases t, 0nat,
    {
        proof {
            if wf_type(self@) && wf_type(t@) {
                crate::schema::order::lemma_combine_wf(self@, t@);
            }
        }
        match t {
            Type::Array(items) => match self {
                Type::Array(held) => {
                    let mut held = held;
                    held.merge(items);
                    Type::Array(held)
                },
                _ => Type::Array(items),
            },
            Type::Object(name, fields) => match self {
                Type::Object(kind, held) => {
                    let mut held = held;
                    held.merge(fields);
                    Type::Object(kind, held)
                },
                _ => Type::Object(name, fields),
            },
            other => other,
        }
    }

    /// The types of the items of an array.
    pub fn unwrap_arr(self) -> (r: Types)
        requires
            self is Array,
        ensures
            self@ == TypeM::Array(r@),
    {
        match self {
            Type::Array(ts) => ts,
            _ => Types::empty(),
        }
    }

    /// The name of the kind of an object, and its fields.
    pub fn unwrap_obj(self) -> (r: (String, ObjectScheme))
        requires
            self is Object,
        ensures
            self@ == TypeM::Object(r.0@, r.1@),
    {
        match self {
            Type::Object(name, fields) => (name, fields),
            _ => (String::new(), ObjectScheme { fields: Vec::new() }),
        }
    }
}

impl ObjectScheme {
    /// Tells whether there is a field of the name `key`.
    pub fn contains_key(&self, key: &str) -> (r: bool)
        ensures
            r == exists|i: int| 0 <= i < self@.len() && (#[trigger] self@[i]).0 == key@,
    {
        let mut i: usize = 0;
        while i < self.fields.len()
            invariant
                i <= self.fields@.len(),
                forall|j: int| 0 <= j < i ==> (#[trigger] self.model()[j]).0 != key@,
            decreases self.fields@.len() - i,
        {
            if str_eq(self.fields[i].0.as_str(), key) {
                proof {
                    assert(self@[i as int].0 == key@);
                }
                return true;
            }
            i = i + 1;
        }
        false
    }

    /// The place of the field `name`, and whether a field of that name
    /// stands there.
    pub fn field_slot(&self, name: &str) -> (r: (usize, bool))
        ensures
            r.0 == field_slot(self@, name@),
            r.1 == has_field(self@, name@),
            r.0 <= self@.len(),
    {
        let ghost m = self.model();
        let mut i: usize = 0;
        proof {
            assert(m.subrange(0, m.len() as int) =~= m);
        }
        while i < self.fields.len()
            invariant
                m == self.model(),
                i <= self.fields@.len(),
                field_slot(m, name@) == i + field_slot(m.subrange(i as int, m.len() as int), name@),
            decreases self.fields@.len() - i,
        {
            let ghost tail = m.subrange(i as int, m.len() as int);
            proof {
                assert(tail[0].0 == self.fields@[i as int].0@);
                assert(tail.drop_first() =~= m.subrange(i as int + 1, m.len() as int));
            }
            if str_eq(self.fields[i].0.as_str(), name) {
                return (i, true);
            }
            if str_lt(name, self.fields[i].0.as_str()) {
                return (i, false);
            }
            i = i + 1;
        }
        (i, false)
    }

    /// Merges the fields of `other` into these: a field of both has the
    /// types of both; a field of one only has its types there and can also
    /// be `null`.
    pub fn merge(&mut self, other: ObjectScheme)
        ensures
            final(self)@ == merge_obj(old(self)@, other@),
            wf_fields(old(self)@) && wf_fields(other@) ==> wf_fields(final(self)@),
        decreases other, 0nat,
    {
        proof {
            if wf_fields(self@) && wf_fields(other@) {
                lemma_merge_obj_wf(self@, other@);
            }
        }
        let ghost a = self.model();
        let ghost b = other.model();
        let ghost all = other.fields@;
        let count: usize = self.fields.len();
        let mut i: usize = 0;
        while i < count
            invariant
                i <= count,
                count == a.len(),
                self.fields@.len() == count,
                b == other.model(),
                forall|j: int| 0 <= j < i ==> self.model()[j] == pad(a, b)[j],
                forall|j: int| i <= j < count ==> self.model()[j] == a[j],
            decreases count - i,
        {
            let (_, found) = other.field_slot(self.fields[i].0.as_str());
            if !found {
                let ghost before = self.model();
                let (name, types) = self.fields.remove(i);
                let types = types.with_null();
                self.fields.insert(i, (name, types));
                proof {
                    assert(self.model() =~= before.update(i as int, (name@, types@)));
                }
            }
            i = i + 1;
        }
        proof {
            assert(self.model() =~= pad(a, b));
            assert(field_models(all) =~= b);
        }
        let mut rest = other.fields;
        let mut n: usize = 0;
        let len: usize = rest.len();
        while rest.len() > 0
            invariant
                len == b.len(),
                all.len() == len,
                all == other.fields@,
                field_models(all) == b,
                n + rest@.len() == len,
                rest@ == all.subrange(n as int, len as int),
                self.model() == join(pad(a, b), b, n as nat),
            decreases rest@.len(),
        {
            let (name, types) = rest.remove(0);
            proof {
                assert((name, types) == all[n as int]);
                assert(b[n as int] == (name@, types@));
                assert(rest@ =~= all.subrange(n as int + 1, len as int));
            }
            let ghost prev = self.model();
            let (at, found) = self.field_slot(name.as_str());
            if found {
                let (_, held) = self.fields.remove(at);
                let mut held = held;
                held.merge(types);
                self.fields.insert(at, (name, held));
                proof {
                    assert(self.model() =~= prev.update(at as int, (name@, held@)));
                }
            } else {
                let types = types.with_null();
                self.fields.insert(at, (name, types));
                proof {
                    assert(self.model() =~= prev.insert(at as int, (name@, types@)));
                }
            }
            n = n + 1;
        }
    }

    /// No field at all.
    pub fn new() -> (r: ObjectScheme)
        ensures
            r@ == Seq::<(Seq<char>, Seq<TypeM>)>::empty(),
            wf_fields(r@),
    {
        let r = ObjectScheme { fields: Vec::new() };
        proof {
            assert(r.model() =~= Seq::<(Seq<char>, Seq<TypeM>)>::empty());
        }
        r
    }

    /// Sets the field `name` to the types `types`.
    pub fn insert(&mut self, name: String, types: Types)
        ensures
            final(self)@ == obj_put(old(self)@, name@, types@),
            wf_fields(old(self)@) && wf_types(types@) ==> wf_fields(final(self)@),
    {
        proof {
            if wf_fields(self@) && wf_types(types@) {
                lemma_obj_put_wf(self@, name@, types@);
            }
        }
        let ghost prev = self.model();
        let (at, found) = self.field_slot(name.as_str());
        if found {
            self.fields.set(at, (name, types));
            proof {
                assert(self.model() =~= prev.update(at as int, (name@, types@)));
            }
        } else {
            self.fields.insert(at, (name, types));
            proof {
                assert(self.model() =~= prev.insert(at as int, (name@, types@)));
            }
        }
    }

    /// The fields of `list`, set one after the other.
    pub fn from_list(list: Vec<(&str, Types)>) -> (r: ObjectScheme)
        ensures
            r@ == obj_of(Seq::new(list@.len(), |i: int| (list@[i].0@, list@[i].1@)), list@.len()),
            (forall|i: int| 0 <= i < list@.len() ==> wf_types((#[trigger] list@[i]).1@))
                ==> wf_fields(r@),
    {
        let ghost all = list@;
        let ghost b = Seq::new(all.len(), |i: int| (all[i].0@, all[i].1@));
        let mut rest = list;
        let mut out = ObjectScheme::new();
        let mut n: usize = 0;
        let len: usize = rest.len();
        while rest.len() > 0
            invariant
                len == all.len(),
                b == Seq::new(all.len(), |i: int| (all[i].0@, all[i].1@)),
                n + rest@.len() == len,
                rest@ == all.subrange(n as int, len as int),
                out.model() == obj_of(b, n as nat),
                (forall|i: int| 0 <= i < all.len() ==> wf_types((#[trigger] all[i]).1@))
                    ==> wf_fields(out@),
            decreases rest@.len(),
        {
            let (name, types) = rest.remove(0);
            proof {
                assert((name, types) == all[n as int]);
                assert(rest@ =~= all.subrange(n as int + 1, len as int));
            }
            out.insert(name.to_owned(), types);
            n = n + 1;
        }
        out
    }

    /// The fields, in the order of their names.
    pub fn into_vec(self) -> (r: Vec<(String, Types)>)
        ensures
            field_models(r@) == self@,
    {
        proof {
            assert(field_models(self.fields@) =~= self.model());
        }
        self.fields
    }
}

/// Well-formed types taken in one after the other, from none, are well
/// formed.
pub proof fn lemma_from_list_wf(b: Seq<TypeM>, n: nat)
    requires
        forall|i: int| 0 <= i < b.len() ==> wf_type(#[trigger] b[i]),
    ensures
        wf_types(merge_i(Seq::<TypeM>::empty(), b, n)),
    decreases n,
{
    if n == 0 || n > b.len() {
    } else {
        lemma_from_list_wf(b, (n - 1) as nat);
        lemma_add_i_wf(merge_i(Seq::<TypeM>::empty(), b, (n - 1) as nat), b[n - 1]);
    }
}

} // verus!
