//! The order of the keys, and that taking types in keeps it.

use vstd::prelude::*;

use crate::schema::types::{
    add_i, added, combine, field_slot, has_field, has_rank, join, kept, key_lt, merge, merge_i,
    merge_obj, normalize, obj_put, pad, rank, same_key, slot, stays, tag, text_lt, with_null,
    TypeM,
};

verus! {

/// No text stands before itself.
pub proof fn lemma_text_lt_irreflexive(a: Seq<char>)
    ensures
        !text_lt(a, a),
    decreases a.len(),
{
    if a.len() > 0 {
        lemma_text_lt_irreflexive(a.drop_first());
    }
}

/// Of two different texts one stands before the other.
pub proof fn lemma_text_lt_total(a: Seq<char>, b: Seq<char>)
    ensures
        a == b || text_lt(a, b) || text_lt(b, a),
        !(text_lt(a, b) && text_lt(b, a)),
    decreases a.len(),
{
    if a.len() > 0 && b.len() > 0 && a[0] == b[0] {
        lemma_text_lt_total(a.drop_first(), b.drop_first());
        if a.drop_first() == b.drop_first() {
            assert(a =~= seq![a[0]] + a.drop_first());
            assert(b =~= seq![b[0]] + b.drop_first());
        }
    } else if a.len() == 0 && b.len() == 0 {
        assert(a =~= b);
    }
}

/// What stands before a text that stands before a third stands before the
/// third.
pub proof fn lemma_text_lt_transitive(a: Seq<char>, b: Seq<char>, c: Seq<char>)
    requires
        text_lt(a, b),
        text_lt(b, c),
    ensures
        text_lt(a, c),
    decreases a.len(),
{
    if a.len() > 0 && a[0] == b[0] && b[0] == c[0] {
        lemma_text_lt_transitive(a.drop_first(), b.drop_first(), c.drop_first());
    }
}

/// The keys are in a strict order: of two types with different keys the key
/// of one stands before that of the other, and never both ways.
pub proof fn lemma_key_order(a: TypeM, b: TypeM)
    ensures
        same_key(a, b) || key_lt(a, b) || key_lt(b, a),
        !(key_lt(a, b) && key_lt(b, a)),
        !(same_key(a, b) && key_lt(a, b)),
{
    lemma_text_lt_total(tag(a), tag(b));
    lemma_text_lt_irreflexive(tag(a));
}

/// The order of the keys is transitive.
pub proof fn lemma_key_lt_transitive(a: TypeM, b: TypeM, c: TypeM)
    requires
        key_lt(a, b),
        key_lt(b, c),
    ensures
        key_lt(a, c),
{
    if rank(a) == rank(b) && rank(b) == rank(c) {
        lemma_text_lt_transitive(tag(a), tag(b), tag(c));
    }
}

/// The types stand in the order of their keys, each key once.
pub open spec fn sorted(ts: Seq<TypeM>) -> bool {
    forall|i: int, j: int| 0 <= i < j < ts.len() ==> key_lt(#[trigger] ts[i], #[trigger] ts[j])
}

/// The fields stand in the order of their names, each name once.
pub open spec fn fields_sorted<V>(fs: Seq<(Seq<char>, V)>) -> bool {
    forall|i: int, j: int|
        0 <= i < j < fs.len() ==> text_lt((#[trigger] fs[i]).0, (#[trigger] fs[j]).0)
}

/// The place of a key is behind all keys that stand before it.
pub proof fn lemma_slot(ts: Seq<TypeM>, t: TypeM)
    ensures
        slot(ts, t) <= ts.len(),
        forall|j: int| 0 <= j < slot(ts, t) ==> key_lt(#[trigger] ts[j], t),
        slot(ts, t) < ts.len() ==> same_key(ts[slot(ts, t) as int], t) || key_lt(
            t,
            ts[slot(ts, t) as int],
        ),
    decreases ts.len(),
{
    if ts.len() == 0 || same_key(ts[0], t) || key_lt(t, ts[0]) {
    } else {
        let rest = ts.drop_first();
        lemma_slot(rest, t);
        lemma_key_order(ts[0], t);
        assert forall|j: int| 0 <= j < slot(ts, t) implies key_lt(#[trigger] ts[j], t) by {
            if j > 0 {
                assert(ts[j] == rest[j - 1]);
            }
        }
        if slot(ts, t) < ts.len() {
            assert(ts[slot(ts, t) as int] == rest[slot(rest, t) as int]);
        }
    }
}

/// Two types that merge have the key of the one taken in.
pub proof fn lemma_combine_key(held: TypeM, t: TypeM)
    requires
        same_key(held, t),
    ensures
        same_key(combine(held, t), t),
{
}

/// Taking a type in keeps the order of the keys.
pub proof fn lemma_add_i_sorted(ts: Seq<TypeM>, t: TypeM)
    requires
        sorted(ts),
    ensures
        sorted(add_i(ts, t)),
{
    lemma_slot(ts, t);
    let i = slot(ts, t) as int;
    let out = add_i(ts, t);
    if i < ts.len() && same_key(ts[i], t) {
        let both = combine(ts[i], t);
        lemma_combine_key(ts[i], t);
        assert forall|a: int, b: int| 0 <= a < b < out.len() implies key_lt(
            #[trigger] out[a],
            #[trigger] out[b],
        ) by {
            assert(key_lt(ts[a], ts[b]));
        }
    } else {
        assert forall|a: int, b: int| 0 <= a < b < out.len() implies key_lt(
            #[trigger] out[a],
            #[trigger] out[b],
        ) by {
            if b == i {
                assert(out[a] == ts[a]);
            } else if a == i {
                assert(out[b] == ts[b - 1]);
                if b - 1 > i {
                    assert(key_lt(ts[i], ts[b - 1]));
                    lemma_key_lt_transitive(t, ts[i], ts[b - 1]);
                }
            } else {
                let a0 = if a < i {
                    a
                } else {
                    a - 1
                };
                let b0 = if b < i {
                    b
                } else {
                    b - 1
                };
                assert(out[a] == ts[a0] && out[b] == ts[b0]);
                assert(key_lt(ts[a0], ts[b0]));
            }
        }
    }
}

/// What stays of the first types in the normal form are types of them, in
/// their order.
pub proof fn lemma_kept(ts: Seq<TypeM>, n: nat)
    requires
        sorted(ts),
        n <= ts.len(),
    ensures
        sorted(kept(ts, n)),
        forall|i: int, m: int|
            0 <= i < kept(ts, n).len() && n <= m < ts.len() ==> key_lt(
                #[trigger] kept(ts, n)[i],
                #[trigger] ts[m],
            ),
        forall|i: int|
            0 <= i < kept(ts, n).len() ==> exists|j: int|
                0 <= j < n && ts[j] == #[trigger] kept(ts, n)[i],
    decreases n,
{
    if n > 0 {
        lemma_kept(ts, (n - 1) as nat);
        let prev = kept(ts, (n - 1) as nat);
        let cur = kept(ts, n);
        assert forall|i: int, m: int| 0 <= i < cur.len() && n <= m < ts.len() implies key_lt(
            #[trigger] cur[i],
            #[trigger] ts[m],
        ) by {
            if i < prev.len() {
                assert(cur[i] == prev[i]);
            } else {
                assert(cur[i] == ts[n - 1]);
            }
        }
        assert forall|i: int| 0 <= i < cur.len() implies exists|j: int|
            0 <= j < n && ts[j] == #[trigger] cur[i] by {
            if i < prev.len() {
                assert(cur[i] == prev[i]);
                let j = choose|j: int| 0 <= j < n - 1 && ts[j] == prev[i];
                assert(0 <= j < n && ts[j] == cur[i]);
            } else {
                assert(ts[n - 1] == cur[i]);
            }
        }
        assert forall|a: int, b: int| 0 <= a < b < cur.len() implies key_lt(
            #[trigger] cur[a],
            #[trigger] cur[b],
        ) by {
            if b < prev.len() {
                assert(cur[a] == prev[a] && cur[b] == prev[b]);
            } else {
                assert(cur[b] == ts[n - 1]);
                assert(cur[a] == prev[a]);
                assert(key_lt(prev[a], ts[n - 1]));
            }
        }
    }
}

/// The normal form keeps the order of the keys.
pub proof fn lemma_normalize_sorted(ts: Seq<TypeM>)
    requires
        sorted(ts),
    ensures
        sorted(normalize(ts)),
{
    lemma_kept(ts, ts.len());
}

/// In the normal form the whole numbers that are covered are gone: no `U64`
/// beside `I64` or `Float`, no `I64` beside `Float`.
pub proof fn lemma_normalize_covers(ts: Seq<TypeM>)
    requires
        sorted(ts),
    ensures
        has_rank(normalize(ts), 2) ==> !has_rank(normalize(ts), 3) && !has_rank(normalize(ts), 4),
        has_rank(normalize(ts), 3) ==> !has_rank(normalize(ts), 4),
{
    lemma_kept(ts, ts.len());
    let out = normalize(ts);
    lemma_kept_stays(ts, ts.len());
    assert forall|r: nat| has_rank(out, r) implies has_rank(ts, r) by {
        let i = choose|i: int| 0 <= i < out.len() && rank(#[trigger] out[i]) == r;
        let j = choose|j: int| 0 <= j < ts.len() && ts[j] == out[i];
        assert(rank(ts[j]) == r);
    }
    if has_rank(out, 2) {
        let i = choose|i: int| 0 <= i < out.len() && rank(#[trigger] out[i]) == 2;
        assert(stays(ts, out[i]));
        if has_rank(out, 3) {
            assert(has_rank(ts, 3));
        }
        if has_rank(out, 4) {
            assert(has_rank(ts, 4));
        }
    }
    if has_rank(out, 3) {
        let i = choose|i: int| 0 <= i < out.len() && rank(#[trigger] out[i]) == 3;
        assert(stays(ts, out[i]));
        if has_rank(out, 4) {
            assert(has_rank(ts, 4));
        }
    }
}

/// Every type of the normal form is one that stays.
pub proof fn lemma_kept_stays(ts: Seq<TypeM>, n: nat)
    requires
        n <= ts.len(),
    ensures
        forall|i: int| 0 <= i < kept(ts, n).len() ==> stays(ts, #[trigger] kept(ts, n)[i]),
    decreases n,
{
    if n > 0 {
        lemma_kept_stays(ts, (n - 1) as nat);
        let prev = kept(ts, (n - 1) as nat);
        let cur = kept(ts, n);
        assert forall|i: int| 0 <= i < cur.len() implies stays(ts, #[trigger] cur[i]) by {
            if i < prev.len() {
                assert(cur[i] == prev[i]);
            }
        }
    }
}

/// Taking types in one after the other keeps the order of the keys.
pub proof fn lemma_merge_i_sorted(a: Seq<TypeM>, b: Seq<TypeM>, n: nat)
    requires
        sorted(a),
    ensures
        sorted(merge_i(a, b, n)),
    decreases n,
{
    if n == 0 || n > b.len() {
    } else {
        lemma_merge_i_sorted(a, b, (n - 1) as nat);
        lemma_add_i_sorted(merge_i(a, b, (n - 1) as nat), b[n - 1]);
    }
}

/// Taking a type in, merging, and letting the value be `null` keep the order
/// of the keys.
pub proof fn lemma_sorted_kept(a: Seq<TypeM>, b: Seq<TypeM>, t: TypeM)
    requires
        sorted(a),
    ensures
        sorted(added(a, t)),
        sorted(merge(a, b)),
        sorted(with_null(a)),
{
    lemma_add_i_sorted(a, t);
    lemma_normalize_sorted(add_i(a, t));
    lemma_merge_i_sorted(a, b, b.len());
    lemma_normalize_sorted(merge_i(a, b, b.len()));
    crate::schema::types::lemma_added_null(a);
    lemma_add_i_sorted(a, TypeM::Null);
    lemma_normalize_sorted(add_i(a, TypeM::Null));
}

/// A type is well formed: the types of the items of an array are, and so
/// are the fields of an object.
pub open spec fn wf_type(t: TypeM) -> bool
    decreases t, 0nat,
{
    match t {
        TypeM::Array(items) => wf_types(items),
        TypeM::Object(_, fields) => wf_fields(fields),
        _ => true,
    }
}

/// Types are well formed: they stand in the order of their keys, each key
/// once, and each of them is well formed.
pub open spec fn wf_types(ts: Seq<TypeM>) -> bool
    decreases ts, 0nat,
{
    &&& sorted(ts)
    &&& forall|i: int| 0 <= i < ts.len() ==> wf_type(#[trigger] ts[i])
}

/// Fields are well formed: they stand in the order of their names, each name
/// once, and the types of each are well formed.
pub open spec fn wf_fields(fs: Seq<(Seq<char>, Seq<TypeM>)>) -> bool
    decreases fs, 0nat,
{
    &&& fields_sorted(fs)
    &&& forall|i: int| 0 <= i < fs.len() ==> wf_types((#[trigger] fs[i]).1)
}

/// The normal form of well-formed types is well formed.
pub proof fn lemma_normalize_wf(ts: Seq<TypeM>)
    requires
        wf_types(ts),
    ensures
        wf_types(normalize(ts)),
{
    lemma_kept(ts, ts.len());
    let out = normalize(ts);
    assert forall|i: int| 0 <= i < out.len() implies wf_type(#[trigger] out[i]) by {
        let j = choose|j: int| 0 <= j < ts.len() && ts[j] == out[i];
        assert(wf_type(ts[j]));
    }
}

/// Well-formed types that can also be `null` are well formed.
pub proof fn lemma_with_null_wf(ts: Seq<TypeM>)
    requires
        wf_types(ts),
    ensures
        wf_types(with_null(ts)),
{
    crate::schema::types::lemma_added_null(ts);
    lemma_add_i_sorted(ts, TypeM::Null);
    let mid = add_i(ts, TypeM::Null);
    lemma_slot(ts, TypeM::Null);
    let i = slot(ts, TypeM::Null) as int;
    assert forall|k: int| 0 <= k < mid.len() implies wf_type(#[trigger] mid[k]) by {
        if i < ts.len() && same_key(ts[i], TypeM::Null) {
            if k != i {
                assert(mid[k] == ts[k]);
            }
        } else {
            if k < i {
                assert(mid[k] == ts[k]);
            } else if k > i {
                assert(mid[k] == ts[k - 1]);
            }
        }
    }
    lemma_normalize_wf(mid);
}

/// The place of a name is behind all names that stand before it.
pub proof fn lemma_field_slot<V>(fs: Seq<(Seq<char>, V)>, name: Seq<char>)
    ensures
        field_slot(fs, name) <= fs.len(),
        forall|j: int| 0 <= j < field_slot(fs, name) ==> text_lt((#[trigger] fs[j]).0, name),
        field_slot(fs, name) < fs.len() ==> fs[field_slot(fs, name) as int].0 == name || text_lt(
            name,
            fs[field_slot(fs, name) as int].0,
        ),
    decreases fs.len(),
{
    if fs.len() == 0 || fs[0].0 == name || text_lt(name, fs[0].0) {
    } else {
        let rest = fs.drop_first();
        lemma_field_slot(rest, name);
        lemma_text_lt_total(fs[0].0, name);
        assert forall|j: int| 0 <= j < field_slot(fs, name) implies text_lt(
            (#[trigger] fs[j]).0,
            name,
        ) by {
            if j > 0 {
                assert(fs[j] == rest[j - 1]);
            }
        }
        if field_slot(fs, name) < fs.len() {
            assert(fs[field_slot(fs, name) as int] == rest[field_slot(rest, name) as int]);
        }
    }
}

/// Setting a field keeps the order of the names.
pub proof fn lemma_obj_put_sorted<V>(fs: Seq<(Seq<char>, V)>, name: Seq<char>, v: V)
    requires
        fields_sorted(fs),
    ensures
        fields_sorted(obj_put(fs, name, v)),
{
    lemma_field_slot(fs, name);
    let i = field_slot(fs, name) as int;
    let out = obj_put(fs, name, v);
    if has_field(fs, name) {
        assert forall|a: int, b: int| 0 <= a < b < out.len() implies text_lt(
            (#[trigger] out[a]).0,
            (#[trigger] out[b]).0,
        ) by {
            assert(text_lt(fs[a].0, fs[b].0));
        }
    } else {
        assert forall|a: int, b: int| 0 <= a < b < out.len() implies text_lt(
            (#[trigger] out[a]).0,
            (#[trigger] out[b]).0,
        ) by {
            if b == i {
                assert(out[a] == fs[a]);
            } else if a == i {
                assert(out[b] == fs[b - 1]);
                if b - 1 > i {
                    assert(text_lt(fs[i].0, fs[b - 1].0));
                    lemma_text_lt_transitive(name, fs[i].0, fs[b - 1].0);
                }
            } else {
                let a0 = if a < i {
                    a
                } else {
                    a - 1
                };
                let b0 = if b < i {
                    b
                } else {
                    b - 1
                };
                assert(out[a] == fs[a0] && out[b] == fs[b0]);
                assert(text_lt(fs[a0].0, fs[b0].0));
            }
        }
    }
}

/// Setting a field of well-formed fields to well-formed types gives
/// well-formed fields.
pub proof fn lemma_obj_put_wf(fs: Seq<(Seq<char>, Seq<TypeM>)>, name: Seq<char>, ts: Seq<TypeM>)
    requires
        wf_fields(fs),
        wf_types(ts),
    ensures
        wf_fields(obj_put(fs, name, ts)),
{
    lemma_field_slot(fs, name);
    lemma_obj_put_sorted(fs, name, ts);
    let i = field_slot(fs, name) as int;
    let out = obj_put(fs, name, ts);
    assert forall|k: int| 0 <= k < out.len() implies wf_types((#[trigger] out[k]).1) by {
        if has_field(fs, name) {
            if k != i {
                assert(out[k] == fs[k]);
            }
        } else {
            if k < i {
                assert(out[k] == fs[k]);
            } else if k > i {
                assert(out[k] == fs[k - 1]);
            }
        }
    }
}

/// Well-formed fields stay so where the fields that others lack can also be
/// `null`.
pub proof fn lemma_pad_wf(a: Seq<(Seq<char>, Seq<TypeM>)>, b: Seq<(Seq<char>, Seq<TypeM>)>)
    requires
        wf_fields(a),
    ensures
        wf_fields(pad(a, b)),
{
    let out = pad(a, b);
    assert forall|i: int, j: int| 0 <= i < j < out.len() implies text_lt(
        (#[trigger] out[i]).0,
        (#[trigger] out[j]).0,
    ) by {
        assert(text_lt(a[i].0, a[j].0));
    }
    assert forall|k: int| 0 <= k < out.len() implies wf_types((#[trigger] out[k]).1) by {
        assert(wf_types(a[k].1));
        lemma_with_null_wf(a[k].1);
    }
}

/// Two well-formed types of one key become a well-formed type together.
pub proof fn lemma_combine_wf(held: TypeM, t: TypeM)
    requires
        wf_type(held),
        wf_type(t),
    ensures
        wf_type(combine(held, t)),
    decreases t, 0nat,
{
    match t {
        TypeM::Array(items) => match held {
            TypeM::Array(h) => {
                lemma_merge_wf(h, items);
            },
            _ => {},
        },
        TypeM::Object(_, fields) => match held {
            TypeM::Object(name, h) => {
                lemma_merge_obj_wf(h, fields);
            },
            _ => {},
        },
        _ => {},
    }
}

/// Taking a well-formed type into well-formed types gives well-formed types.
pub proof fn lemma_add_i_wf(ts: Seq<TypeM>, t: TypeM)
    requires
        wf_types(ts),
        wf_type(t),
    ensures
        wf_types(add_i(ts, t)),
    decreases t, 1nat,
{
    lemma_add_i_sorted(ts, t);
    lemma_slot(ts, t);
    let i = slot(ts, t) as int;
    let out = add_i(ts, t);
    if i < ts.len() && same_key(ts[i], t) {
        assert(wf_type(ts[i]));
        lemma_combine_wf(ts[i], t);
        assert forall|k: int| 0 <= k < out.len() implies wf_type(#[trigger] out[k]) by {
            if k != i {
                assert(out[k] == ts[k]);
            }
        }
    } else {
        assert forall|k: int| 0 <= k < out.len() implies wf_type(#[trigger] out[k]) by {
            if k < i {
                assert(out[k] == ts[k]);
            } else if k > i {
                assert(out[k] == ts[k - 1]);
            }
        }
    }
}

/// Taking well-formed types in one after the other gives well-formed types.
pub proof fn lemma_merge_i_wf(a: Seq<TypeM>, b: Seq<TypeM>, n: nat)
    requires
        wf_types(a),
        wf_types(b),
    ensures
        wf_types(merge_i(a, b, n)),
    decreases b, n,
{
    if n == 0 || n > b.len() {
    } else {
        lemma_merge_i_wf(a, b, (n - 1) as nat);
        assert(wf_type(b[n - 1]));
        lemma_add_i_wf(merge_i(a, b, (n - 1) as nat), b[n - 1]);
    }
}

/// Well-formed types merge into well-formed types.
pub proof fn lemma_merge_wf(a: Seq<TypeM>, b: Seq<TypeM>)
    requires
        wf_types(a),
        wf_types(b),
    ensures
        wf_types(merge(a, b)),
    decreases b, b.len() + 1,
{
    lemma_merge_i_wf(a, b, b.len());
    lemma_normalize_wf(merge_i(a, b, b.len()));
}

/// Taking well-formed fields in one after the other gives well-formed
/// fields.
pub proof fn lemma_join_wf(a: Seq<(Seq<char>, Seq<TypeM>)>, b: Seq<(Seq<char>, Seq<TypeM>)>, n: nat)
    requires
        wf_fields(a),
        wf_fields(b),
    ensures
        wf_fields(join(a, b, n)),
    decreases b, n,
{
    if n == 0 || n > b.len() {
    } else {
        lemma_join_wf(a, b, (n - 1) as nat);
        let prev = join(a, b, (n - 1) as nat);
        let name = b[n - 1].0;
        let i = field_slot(prev, name) as int;
        assert(wf_types(b[n - 1].1));
        if has_field(prev, name) {
            assert(wf_types(prev[i].1));
            lemma_merge_wf(prev[i].1, b[n - 1].1);
            lemma_obj_put_wf(prev, name, merge(prev[i].1, b[n - 1].1));
        } else {
            lemma_with_null_wf(b[n - 1].1);
            lemma_obj_put_wf(prev, name, with_null(b[n - 1].1));
        }
    }
}

/// The well-formed fields of two objects merge into well-formed fields.
pub proof fn lemma_merge_obj_wf(a: Seq<(Seq<char>, Seq<TypeM>)>, b: Seq<(Seq<char>, Seq<TypeM>)>)
    requires
        wf_fields(a),
        wf_fields(b),
    ensures
        wf_fields(merge_obj(a, b)),
    decreases b, b.len() + 1,
{
    lemma_pad_wf(a, b);
    lemma_join_wf(pad(a, b), b, b.len());
}

/// Taking a well-formed type in, in normal form, gives well-formed types.
pub proof fn lemma_added_wf(ts: Seq<TypeM>, t: TypeM)
    requires
        wf_types(ts),
        wf_type(t),
    ensures
        wf_types(added(ts, t)),
{
    lemma_add_i_wf(ts, t);
    lemma_normalize_wf(add_i(ts, t));
}

} // verus!
