//! From a sample value to its type.

use vstd::prelude::*;
use vstd::string::StringExecFns;

use crate::schema::criteria::Criteria;
use crate::schema::order::{lemma_added_wf, lemma_obj_put_wf, wf_fields, wf_type, wf_types};
use crate::schema::types::{added, obj_put, ObjectScheme, Type, TypeM, Types};
use crate::schema::value::{lemma_value_model, named_values, values, Number, Value, ValueM};
use crate::text::str_eq;

verus! {

/// The value of the last of the first `n` fields that has the name `key`.
pub open spec fn last_named(es: Seq<(Seq<char>, ValueM)>, key: Seq<char>, n: nat) -> Option<ValueM>
    decreases n,
{
    if n == 0 || n > es.len() {
        None
    } else if es[n - 1].0 == key {
        Some(es[n - 1].1)
    } else {
        last_named(es, key, (n - 1) as nat)
    }
}

/// The name of the kind of an object with the fields `es`: the string in
/// its type field `key`; empty where no type field is set, or where the
/// object has none that holds a string.
pub open spec fn kind_of(es: Seq<(Seq<char>, ValueM)>, key: Option<Seq<char>>) -> Seq<char> {
    match key {
        Some(k) => match last_named(es, k, es.len()) {
            Some(ValueM::String(t)) => t,
            _ => Seq::empty(),
        },
        None => Seq::empty(),
    }
}

/// The type of the value `v` that stands at `path`. `split` names, for the
/// path of an object, the type field that tells its kinds apart: that field
/// gives the object the name of its kind and is no field of its type.
pub open spec fn type_of(split: Map<Seq<char>, Seq<char>>, path: Seq<char>, v: ValueM) -> TypeM
    decreases v, 0nat,
{
    match v {
        ValueM::Null => TypeM::Null,
        ValueM::Bool(_) => TypeM::Bool,
        ValueM::Number(Number::PosInt(_)) => TypeM::U64,
        ValueM::Number(Number::NegInt(_)) => TypeM::I64,
        ValueM::Number(Number::Float) => TypeM::Float,
        ValueM::String(_) => TypeM::String,
        ValueM::Array(items) => TypeM::Array(items_of(split, path + "[]"@, items, items.len())),
        ValueM::Object(es) => {
            let key = if split.contains_key(path) {
                Some(split[path])
            } else {
                None
            };
            TypeM::Object(kind_of(es, key), fields_of(split, path, key, es, es.len()))
        },
    }
}

/// The types of the first `n` items of an array whose items stand at
/// `path`.
pub open spec fn items_of(
    split: Map<Seq<char>, Seq<char>>,
    path: Seq<char>,
    items: Seq<ValueM>,
    n: nat,
) -> Seq<TypeM>
    decreases items, n,
{
    if n == 0 || n > items.len() {
        Seq::empty()
    } else {
        added(items_of(split, path, items, (n - 1) as nat), type_of(split, path, items[n - 1]))
    }
}

/// The fields that the first `n` fields of an object at `path` give its
/// type: each but the type field `key`, with the type of its value.
pub open spec fn fields_of(
    split: Map<Seq<char>, Seq<char>>,
    path: Seq<char>,
    key: Option<Seq<char>>,
    es: Seq<(Seq<char>, ValueM)>,
    n: nat,
) -> Seq<(Seq<char>, Seq<TypeM>)>
    decreases es, n,
{
    if n == 0 || n > es.len() {
        Seq::empty()
    } else {
        let prev = fields_of(split, path, key, es, (n - 1) as nat);
        let name = es[n - 1].0;
        if key == Some(name) {
            prev
        } else {
            obj_put(
                prev,
                name,
                added(Seq::empty(), type_of(split, path + "."@ + name, es[n - 1].1)),
            )
        }
    }
}

/// The type of a value is well formed, whatever the value.
pub proof fn lemma_type_of_wf(split: Map<Seq<char>, Seq<char>>, path: Seq<char>, v: ValueM)
    ensures
        wf_type(type_of(split, path, v)),
    decreases v, 0nat,
{
    match v {
        ValueM::Array(items) => {
            lemma_items_of_wf(split, path + "[]"@, items, items.len());
        },
        ValueM::Object(es) => {
            let key = if split.contains_key(path) {
                Some(split[path])
            } else {
                None
            };
            lemma_fields_of_wf(split, path, key, es, es.len());
        },
        _ => {},
    }
}

/// The types of the items of an array are well formed.
pub proof fn lemma_items_of_wf(
    split: Map<Seq<char>, Seq<char>>,
    path: Seq<char>,
    items: Seq<ValueM>,
    n: nat,
)
    ensures
        wf_types(items_of(split, path, items, n)),
    decreases items, n,
{
    if n == 0 || n > items.len() {
    } else {
        lemma_items_of_wf(split, path, items, (n - 1) as nat);
        lemma_type_of_wf(split, path, items[n - 1]);
        lemma_added_wf(
            items_of(split, path, items, (n - 1) as nat),
            type_of(split, path, items[n - 1]),
        );
    }
}

/// The fields of the type of an object are well formed.
pub proof fn lemma_fields_of_wf(
    split: Map<Seq<char>, Seq<char>>,
    path: Seq<char>,
    key: Option<Seq<char>>,
    es: Seq<(Seq<char>, ValueM)>,
    n: nat,
)
    ensures
        wf_fields(fields_of(split, path, key, es, n)),
    decreases es, n,
{
    if n == 0 || n > es.len() {
    } else {
        lemma_fields_of_wf(split, path, key, es, (n - 1) as nat);
        let prev = fields_of(split, path, key, es, (n - 1) as nat);
        let name = es[n - 1].0;
        if key != Some(name) {
            let t = type_of(split, path + "."@ + name, es[n - 1].1);
            lemma_type_of_wf(split, path + "."@ + name, es[n - 1].1);
            lemma_added_wf(Seq::empty(), t);
            lemma_obj_put_wf(prev, name, added(Seq::empty(), t));
        }
    }
}

/// The name of the kind of an object with the fields `fields`, told by its
/// type field `key`.
fn kind_name(fields: &Vec<(String, Value)>, key: Option<&str>) -> (r: String)
    ensures
        r@ == kind_of(
            named_values(fields@),
            match key {
                Some(k) => Some(k@),
                None => None,
            },
        ),
{
    let ghost es = named_values(fields@);
    match key {
        None => String::new(),
        Some(k) => {
            let mut n: usize = fields.len();
            while n > 0
                invariant
                    n <= fields@.len(),
                    es == named_values(fields@),
                    key == Some(k),
                    last_named(es, k@, es.len()) == last_named(es, k@, n as nat),
                decreases n,
            {
                if str_eq(fields[n - 1].0.as_str(), k) {
                    proof {
                        assert(es[n - 1] == (fields@[n - 1].0@, fields@[n - 1].1@));
                    }
                    let found = &fields[n - 1].1;
                    proof {
                        assert(last_named(es, k@, es.len()) == Some(found@));
                    }
                    let r = match found {
                        Value::String(t) => t.clone(),
                        _ => String::new(),
                    };
                    proof {
                        let goal = kind_of(es, Some(k@));
                        match found {
                            Value::String(t) => {
                                assert(found@ == ValueM::String(t@));
                                assert(goal == t@);
                            },
                            _ => {
                                assert(!(found@ is String));
                                assert(goal =~= Seq::<char>::empty());
                            },
                        }
                    }
                    return r;
                }
                proof {
                    assert(es[n - 1] == (fields@[n - 1].0@, fields@[n - 1].1@));
                }
                n = n - 1;
            }
            String::new()
        },
    }
}

impl Type {
    /// The type of the sample value `v`.
    pub fn from_value(criteria: &Criteria, v: Value) -> (r: Type)
        ensures
            r@ == type_of(criteria@.split, ""@, v@),
            wf_type(r@),
    {
        Type::from_value_path(criteria, "", v)
    }

    /// The type of the sample value `v` that stands at `path`.
    pub fn from_value_path(criteria: &Criteria, path: &str, v: Value) -> (r: Type)
        ensures
            r@ == type_of(criteria@.split, path@, v@),
            wf_type(r@),
        decreases v,
    {
        proof {
            lemma_type_of_wf(criteria@.split, path@, v@);
        }
        let ghost split = criteria@.split;
        match v {
            Value::Null => Type::Null,
            Value::Bool(_) => Type::Bool,
            Value::Number(Number::PosInt(_)) => Type::U64,
            Value::Number(Number::NegInt(_)) => Type::I64,
            Value::Number(Number::Float) => Type::Float,
            Value::String(_) => Type::String,
            Value::Array(items) => {
                let ghost all = items@;
                let ghost ms = values(all);
                proof {
                    lemma_value_model(v);
                }
                let mut ch_path = path.to_owned();
                ch_path.append("[]");
                let mut rest = items;
                let mut ts = Types::empty();
                let mut n: usize = 0;
                let len: usize = rest.len();
                while rest.len() > 0
                    invariant
                        len == all.len(),
                        all == items@,
                        v == Value::Array(items),
                        ms == values(all),
                        ch_path@ == path@ + "[]"@,
                        split == criteria@.split,
                        n + rest@.len() == len,
                        rest@ == all.subrange(n as int, len as int),
                        ts@ == items_of(split, ch_path@, ms, n as nat),
                    decreases rest@.len(),
                {
                    let x = rest.remove(0);
                    proof {
                        assert(x == all[n as int]);
                        assert(rest@ =~= all.subrange(n as int + 1, len as int));
                        assert(x == v->Array_0@[n as int]);
                    }
                    let t = Type::from_value_path(criteria, ch_path.as_str(), x);
                    ts.add(t);
                    n = n + 1;
                }
                Type::Array(ts)
            },
            Value::Object(fields) => {
                let ghost all = fields@;
                let ghost es = named_values(all);
                proof {
                    lemma_value_model(v);
                }
                let key = criteria.is_split_enum(path);
                let ghost key_m: Option<Seq<char>> = match key {
                    Some(k) => Some(k@),
                    None => None,
                };
                let kind = kind_name(&fields, key);
                let mut rest = fields;
                let mut out = ObjectScheme::new();
                let mut n: usize = 0;
                let len: usize = rest.len();
                while rest.len() > 0
                    invariant
                        len == all.len(),
                        all == fields@,
                        v == Value::Object(fields),
                        es == named_values(all),
                        split == criteria@.split,
                        key_m == match key {
                            Some(k) => Some(k@),
                            None => None,
                        },
                        n + rest@.len() == len,
                        rest@ == all.subrange(n as int, len as int),
                        out@ == fields_of(split, path@, key_m, es, n as nat),
                    decreases rest@.len(),
                {
                    let (name, x) = rest.remove(0);
                    proof {
                        assert((name, x) == all[n as int]);
                        assert(rest@ =~= all.subrange(n as int + 1, len as int));
                        assert(x == v->Object_0@[n as int].1);
                    }
                    let skip = match key {
                        Some(k) => str_eq(name.as_str(), k),
                        None => false,
                    };
                    if !skip {
                        let mut ch_path = path.to_owned();
                        ch_path.append(".");
                        ch_path.append(name.as_str());
                        let t = Type::from_value_path(criteria, ch_path.as_str(), x);
                        let mut ts = Types::empty();
                        ts.add(t);
                        out.insert(name, ts);
                    }
                    n = n + 1;
                }
                Type::Object(kind, out)
            },
        }
    }
}

impl Types {
    /// The types that the one sample value `v` at `path` shows: its type
    /// alone.
    pub fn from_value_path(criteria: &Criteria, path: &str, v: Value) -> (r: Types)
        ensures
            r@ == added(Seq::<TypeM>::empty(), type_of(criteria@.split, path@, v@)),
            wf_types(r@),
    {
        let mut ts = Types::empty();
        ts.add(Type::from_value_path(criteria, path, v));
        ts
    }
}

} // verus!
