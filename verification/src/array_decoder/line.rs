//! The line grammar of an array dump, stated on bytes.

use vstd::prelude::*;

verus! {

/// The bytes that count as blank space around a line.
pub open spec fn is_space(b: u8) -> bool {
    b == 0x20 || (0x09 <= b && b <= 0x0d)
}

/// `s` without its leading blank bytes.
pub open spec fn trim_start(s: Seq<u8>) -> Seq<u8>
    decreases s.len(),
{
    if s.len() > 0 && is_space(s[0]) {
        trim_start(s.drop_first())
    } else {
        s
    }
}

/// `s` without its trailing blank bytes.
pub open spec fn trim_end(s: Seq<u8>) -> Seq<u8>
    decreases s.len(),
{
    if s.len() > 0 && is_space(s.last()) {
        trim_end(s.drop_last())
    } else {
        s
    }
}

/// `s` without blank bytes at either end.
pub open spec fn trim(s: Seq<u8>) -> Seq<u8> {
    trim_end(trim_start(s))
}

/// Tells whether a byte is blank.
pub fn byte_is_space(b: u8) -> (r: bool)
    ensures
        r == is_space(b),
{
    b == 0x20 || (0x09 <= b && b <= 0x0d)
}

/// Trims the span `from..to` of `bs`: the span of what is left once the blank
/// bytes at both ends are gone.
pub fn trim_span(bs: &[u8], from: usize, to: usize) -> (r: (usize, usize))
    requires
        from <= to <= bs@.len(),
    ensures
        from <= r.0 <= r.1 <= to,
        bs@.subrange(r.0 as int, r.1 as int) == trim(bs@.subrange(from as int, to as int)),
{
    let mut a: usize = from;
    while a < to && byte_is_space(bs[a])
        invariant
            from <= a <= to <= bs@.len(),
            trim_start(bs@.subrange(from as int, to as int)) == trim_start(
                bs@.subrange(a as int, to as int),
            ),
        decreases to - a,
    {
        proof {
            assert(bs@.subrange(a as int, to as int).drop_first() =~= bs@.subrange(
                a as int + 1,
                to as int,
            ));
        }
        a = a + 1;
    }
    let mut b: usize = to;
    while a < b && byte_is_space(bs[b - 1])
        invariant
            a <= b <= to <= bs@.len(),
            trim_end(bs@.subrange(a as int, to as int)) == trim_end(
                bs@.subrange(a as int, b as int),
            ),
        decreases b - a,
    {
        proof {
            assert(bs@.subrange(a as int, b as int).drop_last() =~= bs@.subrange(
                a as int,
                b as int - 1,
            ));
        }
        b = b - 1;
    }
    (a, b)
}

/// What a line hands to the record decoder: the trimmed line without one
/// trailing comma. A blank line and a line that is only `[` or `]` hand over
/// nothing.
pub open spec fn payload(line: Seq<u8>) -> Option<Seq<u8>> {
    let t = trim(line);
    if t == seq![0x5bu8] || t == seq![0x5du8] {
        None
    } else {
        let u = if t.len() > 0 && t.last() == 0x2c {
            t.drop_last()
        } else {
            t
        };
        if u.len() == 0 {
            None
        } else {
            Some(u)
        }
    }
}

/// The span of the payload of the line `from..to` of `bs`, if it has one.
pub fn payload_span(bs: &[u8], from: usize, to: usize) -> (r: Option<(usize, usize)>)
    requires
        from <= to <= bs@.len(),
    ensures
        match r {
            Some(span) => from <= span.0 < span.1 <= to && payload(
                bs@.subrange(from as int, to as int),
            ) == Some(bs@.subrange(span.0 as int, span.1 as int)),
            None => payload(bs@.subrange(from as int, to as int)).is_none(),
        },
{
    let (a, b) = trim_span(bs, from, to);
    let ghost t = bs@.subrange(a as int, b as int);
    if b - a == 1 && (bs[a] == 0x5b || bs[a] == 0x5d) {
        proof {
            assert(t =~= seq![bs@[a as int]]);
        }
        return None;
    }
    proof {
        if t == seq![0x5bu8] || t == seq![0x5du8] {
            assert(t.len() == 1);
            assert(t[0] == bs@[a as int]);
        }
    }
    let end: usize = if a < b && bs[b - 1] == 0x2c {
        proof {
            assert(t.drop_last() =~= bs@.subrange(a as int, b as int - 1));
        }
        b - 1
    } else {
        b
    };
    if a == end {
        None
    } else {
        Some((a, end))
    }
}

/// The length of the first line of `s`: the number of bytes before its first
/// newline, or all of them where it has none.
pub open spec fn line_end(s: Seq<u8>) -> nat
    decreases s.len(),
{
    if s.len() == 0 || s[0] == 0x0a {
        0
    } else {
        1 + line_end(s.drop_first())
    }
}

/// `line_end` marks the first newline.
pub proof fn lemma_line_end(s: Seq<u8>)
    ensures
        line_end(s) <= s.len(),
        forall|k: int| 0 <= k < line_end(s) ==> s[k] != 0x0a,
        line_end(s) < s.len() ==> s[line_end(s) as int] == 0x0a,
    decreases s.len(),
{
    if s.len() == 0 || s[0] == 0x0a {
    } else {
        let t = s.drop_first();
        lemma_line_end(t);
        assert forall|k: int| 0 <= k < line_end(s) implies s[k] != 0x0a by {
            if k > 0 {
                assert(s[k] == t[k - 1]);
            }
        }
    }
}

/// A position with no newline before it, which is a newline or the end, is
/// where the first line ends.
pub proof fn lemma_line_end_is(s: Seq<u8>, n: int)
    requires
        0 <= n <= s.len(),
        forall|k: int| 0 <= k < n ==> s[k] != 0x0a,
        n < s.len() ==> s[n] == 0x0a,
    ensures
        line_end(s) == n,
    decreases s.len(),
{
    if s.len() == 0 || s[0] == 0x0a {
    } else {
        let t = s.drop_first();
        assert forall|k: int| 0 <= k < n - 1 implies t[k] != 0x0a by {
            assert(t[k] == s[k + 1]);
        }
        lemma_line_end_is(t, n - 1);
    }
}

/// The payloads of the lines of `s`, in the order of the lines.
pub open spec fn records(s: Seq<u8>) -> Seq<Seq<u8>>
    decreases s.len(),
{
    if s.len() == 0 {
        Seq::empty()
    } else {
        let n = line_end(s);
        let rest = if n < s.len() {
            records(s.subrange(n as int + 1, s.len() as int))
        } else {
            Seq::empty()
        };
        match payload(s.subrange(0, n as int)) {
            Some(p) => seq![p] + rest,
            None => rest,
        }
    }
}

/// The byte strings that `spans` cut out of `bs`.
pub open spec fn cut(bs: Seq<u8>, spans: Seq<(usize, usize)>) -> Seq<Seq<u8>> {
    Seq::new(spans.len(), |i: int| bs.subrange(spans[i].0 as int, spans[i].1 as int))
}

/// Every span of `spans` is non-empty, lies inside `len` bytes, and ends
/// before the next one starts.
pub open spec fn spans_ordered(spans: Seq<(usize, usize)>, len: nat) -> bool {
    &&& forall|i: int| 0 <= i < spans.len() ==> (#[trigger] spans[i]).0 < spans[i].1 <= len
    &&& forall|i: int, j: int|
        0 <= i < j < spans.len() ==> (#[trigger] spans[i]).1 <= (#[trigger] spans[j]).0
}

/// Finds the payload of every line of `bs`, in the order of the lines.
pub fn record_spans(bs: &[u8]) -> (spans: Vec<(usize, usize)>)
    ensures
        cut(bs@, spans@) == records(bs@),
        spans_ordered(spans@, bs@.len()),
{
    let len: usize = bs.len();
    let mut spans: Vec<(usize, usize)> = Vec::new();
    let mut pos: usize = 0;
    proof {
        assert(bs@.subrange(0, len as int) =~= bs@);
        assert(cut(bs@, spans@) =~= Seq::<Seq<u8>>::empty());
    }
    while pos < len
        invariant
            len == bs@.len(),
            pos <= len,
            records(bs@) == cut(bs@, spans@) + records(bs@.subrange(pos as int, len as int)),
            spans_ordered(spans@, pos as nat),
        decreases len - pos,
    {
        let ghost tail = bs@.subrange(pos as int, len as int);
        let mut i: usize = pos;
        while i < len && bs[i] != 0x0a
            invariant
                len == bs@.len(),
                pos <= i <= len,
                forall|k: int| pos <= k < i ==> bs@[k] != 0x0a,
            decreases len - i,
        {
            i = i + 1;
        }
        let found = payload_span(bs, pos, i);
        let ghost before = spans@;
        proof {
            lemma_line_end_is(tail, i - pos);
            assert(tail.subrange(0, i - pos) =~= bs@.subrange(pos as int, i as int));
            if i < len {
                assert(tail.subrange(i - pos + 1, tail.len() as int) =~= bs@.subrange(
                    i as int + 1,
                    len as int,
                ));
            }
        }
        match found {
            Some(span) => {
                spans.push(span);
                proof {
                    assert(cut(bs@, spans@) =~= cut(bs@, before) + seq![
                        bs@.subrange(span.0 as int, span.1 as int),
                    ]);
                }
            },
            None => {},
        }
        if i < len {
            pos = i + 1;
        } else {
            pos = len;
            proof {
                assert(records(bs@.subrange(len as int, len as int)) =~= Seq::<Seq<u8>>::empty());
            }
        }
        proof {
            let rest = records(bs@.subrange(pos as int, len as int));
            match found {
                Some(span) => {
                    let p = bs@.subrange(span.0 as int, span.1 as int);
                    assert(records(tail) == seq![p] + rest);
                    assert(cut(bs@, before) + (seq![p] + rest) =~= (cut(bs@, before) + seq![p])
                        + rest);
                },
                None => {
                    assert(records(tail) == rest);
                },
            }
        }
    }
    proof {
        assert(records(bs@.subrange(len as int, len as int)) =~= Seq::<Seq<u8>>::empty());
        assert(cut(bs@, spans@) + Seq::<Seq<u8>>::empty() =~= cut(bs@, spans@));
    }
    spans
}

/// `s` is empty or ends with a newline: no line of it is left open.
pub open spec fn ends_lines(s: Seq<u8>) -> bool {
    s.len() == 0 || s.last() == 0x0a
}

/// Cutting an input after a newline keeps its records: those of the two
/// parts, one after the other, are those of the whole.
pub proof fn lemma_records_concat(a: Seq<u8>, b: Seq<u8>)
    requires
        ends_lines(a),
    ensures
        records(a + b) == records(a) + records(b),
    decreases a.len(),
{
    if a.len() == 0 {
        assert(a + b =~= b);
        assert(records(a) + records(b) =~= records(b));
    } else {
        let n = line_end(a) as int;
        let w = a + b;
        lemma_line_end(a);
        assert(n < a.len()) by {
            if n >= a.len() {
                assert(a[a.len() - 1] != 0x0a);
            }
        }
        assert forall|k: int| 0 <= k < n implies w[k] != 0x0a by {
            assert(w[k] == a[k]);
        }
        assert(w[n] == a[n]);
        lemma_line_end_is(w, n);
        let a2 = a.subrange(n + 1, a.len() as int);
        assert(w.subrange(0, n) =~= a.subrange(0, n));
        assert(w.subrange(n + 1, w.len() as int) =~= a2 + b);
        assert(ends_lines(a2)) by {
            if a2.len() > 0 {
                assert(a2.last() == a.last());
            }
        }
        lemma_records_concat(a2, b);
        match payload(a.subrange(0, n)) {
            Some(p) => {
                assert(seq![p] + (records(a2) + records(b)) =~= (seq![p] + records(a2)) + records(
                    b,
                ));
            },
            None => {},
        }
    }
}

/// A line that holds only a bracket, with its newline, has no record.
pub proof fn lemma_bracket_line(c: u8)
    requires
        c == 0x5b || c == 0x5d,
    ensures
        records(seq![c, 0x0au8]) == Seq::<Seq<u8>>::empty(),
        ends_lines(seq![c, 0x0au8]),
{
    let s = seq![c, 0x0au8];
    lemma_line_end_is(s, 1);
    let l = s.subrange(0, 1);
    assert(l =~= seq![c]);
    assert(!is_space(c));
    assert(trim_start(l) == l);
    assert(trim_end(l) == l);
    assert(payload(l).is_none());
    assert(s.subrange(2, 2).len() == 0);
    assert(records(s.subrange(2, 2)) =~= Seq::<Seq<u8>>::empty());
}

/// The array brackets are transparent: an input whose lines all end, put
/// between a line `[` and a line `]`, has the records it has without them.
/// With no line in between, the wrapped form has no record at all.
pub proof fn lemma_wrapper_is_transparent(body: Seq<u8>)
    requires
        ends_lines(body),
    ensures
        records(seq![0x5bu8, 0x0au8] + body + seq![0x5du8, 0x0au8]) == records(body),
        records(seq![0x5bu8, 0x0au8] + seq![0x5du8, 0x0au8]) == Seq::<Seq<u8>>::empty(),
{
    let open = seq![0x5bu8, 0x0au8];
    let close = seq![0x5du8, 0x0au8];
    lemma_bracket_line(0x5b);
    lemma_bracket_line(0x5d);
    lemma_records_concat(open, close);
    lemma_records_concat(body, close);
    lemma_records_concat(open, body + close);
    assert(open + body + close =~= open + (body + close));
    assert(records(open) + (records(body) + records(close)) =~= records(body));
    assert(records(open) + records(close) =~= Seq::<Seq<u8>>::empty());
}

} // verus!
