//! The repair of a line of the bodies dump before it is decoded: a body of
//! unknown kind is written with the type `null`, which the decoder takes
//! only as the string `"null"`.

use vstd::prelude::*;

verus! {

/// The pattern `p` stands in `s` at the place `i`.
pub open spec fn occurs_at(s: Seq<u8>, p: Seq<u8>, i: int) -> bool {
    0 <= i && i + p.len() <= s.len() && s.subrange(i, i + p.len()) == p
}

/// The first place from `i` on where `p` stands in `s`; `-1` where there is
/// none.
pub open spec fn first_from(s: Seq<u8>, p: Seq<u8>, i: nat) -> int
    decreases s.len() - i,
{
    if i + p.len() > s.len() {
        -1
    } else if occurs_at(s, p, i as int) {
        i as int
    } else if i + p.len() == s.len() {
        -1
    } else {
        first_from(s, p, i + 1)
    }
}

/// The first place where `p` stands in `s`; `-1` where there is none.
pub open spec fn first_of(s: Seq<u8>, p: Seq<u8>) -> int {
    first_from(s, p, 0)
}

/// `"type":null`, the type of a body of unknown kind as the dump writes it.
pub open spec fn null_type() -> Seq<u8> {
    seq![0x22u8, 0x74, 0x79, 0x70, 0x65, 0x22, 0x3a, 0x6e, 0x75, 0x6c, 0x6c]
}

/// `"type":"null"`, the same type as the decoder takes it.
pub open spec fn null_type_quoted() -> Seq<u8> {
    seq![0x22u8, 0x74, 0x79, 0x70, 0x65, 0x22, 0x3a, 0x22, 0x6e, 0x75, 0x6c, 0x6c, 0x22]
}

/// `:{`, the start of an object that is the value of a field.
pub open spec fn object_start() -> Seq<u8> {
    seq![0x3au8, 0x7b]
}

/// `[`, the start of an array.
pub open spec fn array_start() -> Seq<u8> {
    seq![0x5bu8]
}

/// The body of the line `s` is of unknown kind: the line holds the type
/// `null`, and holds it before the first object or array inside the body, so
/// that it is the type of the body itself.
pub open spec fn type_is_null(s: Seq<u8>) -> bool {
    let n = first_of(s, null_type());
    let o = first_of(s, object_start());
    let a = first_of(s, array_start());
    n >= 0 && (o < 0 || n < o) && (a < 0 || n < a)
}

/// The line `s` as the decoder takes it: with its first type `null` in
/// quotes where the body is of unknown kind, else as it is.
pub open spec fn filtered(s: Seq<u8>) -> Seq<u8> {
    if type_is_null(s) {
        let n = first_of(s, null_type());
        s.subrange(0, n) + null_type_quoted() + s.subrange(n + null_type().len(), s.len() as int)
    } else {
        s
    }
}

/// Tells whether `p` stands in `s` at the place `i`.
fn matches_at(s: &[u8], p: &[u8], i: usize) -> (r: bool)
    requires
        i + p@.len() <= s@.len(),
    ensures
        r == occurs_at(s@, p@, i as int),
{
    let len: usize = s.len();
    let mut k: usize = 0;
    while k < p.len()
        invariant
            k <= p@.len(),
            len == s@.len(),
            i + p@.len() <= s@.len(),
            forall|j: int| 0 <= j < k ==> s@[i + j] == p@[j],
        decreases p@.len() - k,
    {
        if s[i + k] != p[k] {
            proof {
                let w = s@.subrange(i as int, i + p@.len());
                assert(w[k as int] == s@[i + k]);
            }
            return false;
        }
        k = k + 1;
    }
    proof {
        assert(s@.subrange(i as int, i + p@.len()) =~= p@);
    }
    true
}

/// The first place where `p` stands in `s`.
pub fn find(s: &[u8], p: &[u8]) -> (r: Option<usize>)
    ensures
        match r {
            Some(i) => first_of(s@, p@) == i,
            None => first_of(s@, p@) == -1,
        },
{
    if p.len() > s.len() || s.len() == usize::MAX {
        return find_long(s, p);
    }
    let last: usize = s.len() - p.len();
    let mut i: usize = 0;
    while i <= last
        invariant
            last == s@.len() - p@.len(),
            i <= last + 1,
            last < usize::MAX,
            first_of(s@, p@) == first_from(s@, p@, i as nat),
        decreases last + 1 - i,
    {
        if matches_at(s, p, i) {
            return Some(i);
        }
        i = i + 1;
    }
    None
}

/// The first place where `p` stands in `s`, where `p` is longer than `s` or
/// `s` is as long as the machine can count.
fn find_long(s: &[u8], p: &[u8]) -> (r: Option<usize>)
    requires
        p@.len() > s@.len() || s@.len() == usize::MAX,
    ensures
        match r {
            Some(i) => first_of(s@, p@) == i,
            None => first_of(s@, p@) == -1,
        },
{
    if p.len() > s.len() {
        return None;
    }
    let last: usize = s.len() - p.len();
    let mut i: usize = 0;
    while i < last
        invariant
            last == s@.len() - p@.len(),
            i <= last,
            first_of(s@, p@) == first_from(s@, p@, i as nat),
        decreases last - i,
    {
        if matches_at(s, p, i) {
            return Some(i);
        }
        i = i + 1;
    }
    if matches_at(s, p, last) {
        Some(last)
    } else {
        None
    }
}

/// The bytes of `null_type`.
fn null_type_bytes() -> (r: Vec<u8>)
    ensures
        r@ == null_type(),
{
    let r = vec![0x22u8, 0x74, 0x79, 0x70, 0x65, 0x22, 0x3a, 0x6e, 0x75, 0x6c, 0x6c];
    proof {
        assert(r@ =~= null_type());
    }
    r
}

/// The bytes of `null_type_quoted`.
fn null_type_quoted_bytes() -> (r: Vec<u8>)
    ensures
        r@ == null_type_quoted(),
{
    let r = vec![0x22u8, 0x74, 0x79, 0x70, 0x65, 0x22, 0x3a, 0x22, 0x6e, 0x75, 0x6c, 0x6c, 0x22];
    proof {
        assert(r@ =~= null_type_quoted());
    }
    r
}

/// Repairs a line of the bodies dump: where the body is of unknown kind,
/// its type `null` is put in quotes.
pub fn pre_filter(s: &[u8]) -> (r: Vec<u8>)
    ensures
        r@ == filtered(s@),
{
    let old = null_type_bytes();
    let object = vec![0x3au8, 0x7b];
    let array = vec![0x5bu8];
    proof {
        assert(object@ =~= object_start());
        assert(array@ =~= array_start());
    }
    let null_pos = find(s, old.as_slice());
    let object_pos = find(s, object.as_slice());
    let array_pos = find(s, array.as_slice());
    let n: usize = match null_pos {
        Some(n) => n,
        None => {
            proof {
                assert(s@.subrange(0, s@.len() as int) =~= s@);
            }
            return vstd::slice::slice_to_vec(s);
        },
    };
    let before_object = match object_pos {
        Some(o) => n < o,
        None => true,
    };
    let before_array = match array_pos {
        Some(a) => n < a,
        None => true,
    };
    if !(before_object && before_array) {
        return vstd::slice::slice_to_vec(s);
    }
    proof {
        assert(first_from(s@, null_type(), 0) == n);
        lemma_first_from_in_range(s@, null_type(), 0);
        assert(occurs_at(s@, null_type(), n as int));
    }
    let len: usize = s.len();
    let new = null_type_quoted_bytes();
    let mut out: Vec<u8> = Vec::new();
    let mut i: usize = 0;
    while i < n
        invariant
            i <= n <= s@.len(),
            len == s@.len(),
            out@ == s@.subrange(0, i as int),
        decreases n - i,
    {
        out.push(s[i]);
        i = i + 1;
        proof {
            assert(out@ =~= s@.subrange(0, i as int));
        }
    }
    let mut j: usize = 0;
    while j < new.len()
        invariant
            j <= new@.len(),
            n <= s@.len(),
            out@ == s@.subrange(0, n as int) + new@.subrange(0, j as int),
        decreases new@.len() - j,
    {
        out.push(new[j]);
        j = j + 1;
        proof {
            assert(out@ =~= s@.subrange(0, n as int) + new@.subrange(0, j as int));
        }
    }
    let from: usize = n + old.len();
    let mut k: usize = from;
    proof {
        assert(new@.subrange(0, new@.len() as int) =~= new@);
        assert(out@ =~= s@.subrange(0, n as int) + new@ + s@.subrange(from as int, k as int));
    }
    while k < s.len()
        invariant
            n <= from <= k <= s@.len(),
            len == s@.len(),
            out@ == s@.subrange(0, n as int) + new@ + s@.subrange(from as int, k as int),
        decreases s@.len() - k,
    {
        out.push(s[k]);
        k = k + 1;
        proof {
            assert(out@ =~= s@.subrange(0, n as int) + new@ + s@.subrange(
                from as int,
                k as int,
            ));
        }
    }
    out
}

/// Where a pattern is found it stands.
pub proof fn lemma_first_from_in_range(s: Seq<u8>, p: Seq<u8>, i: nat)
    ensures
        first_from(s, p, i) == -1 || (i <= first_from(s, p, i) && occurs_at(
            s,
            p,
            first_from(s, p, i),
        )),
        forall|j: int| i <= j && (first_from(s, p, i) == -1 || j < first_from(s, p, i)) ==> !occurs_at(
            s,
            p,
            j,
        ),
    decreases s.len() - i,
{
    if i + p.len() > s.len() {
    } else if occurs_at(s, p, i as int) {
    } else if i + p.len() == s.len() {
    } else {
        lemma_first_from_in_range(s, p, i + 1);
    }
}

} // verus!
