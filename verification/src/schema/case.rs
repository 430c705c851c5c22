//! The words of a name, and the name written in snake, Pascal and camel case.

use vstd::prelude::*;
use vstd::string::StrSliceExecFns;
use vstd::string::StringExecFns;

use crate::text::numeric;

verus! {

/// `c` is one of the capital letters `A` to `Z`.
pub open spec fn is_upper(c: char) -> bool {
    'A' <= c && c <= 'Z'
}

/// `c` is one of the small letters `a` to `z`.
pub open spec fn is_lower(c: char) -> bool {
    'a' <= c && c <= 'z'
}

/// The small letter of a capital letter; any other character as it is.
pub open spec fn to_lower(c: char) -> char {
    if is_upper(c) {
        ((c as u8) + 32) as char
    } else {
        c
    }
}

/// The capital letter of a small letter; any other character as it is.
pub open spec fn to_upper(c: char) -> char {
    if is_lower(c) {
        ((c as u8) - 32) as char
    } else {
        c
    }
}

/// The small letter of a capital letter; any other character as it is.
pub fn lower_of(c: char) -> (r: char)
    ensures
        r == to_lower(c),
{
    if 'A' <= c && c <= 'Z' {
        let b: u8 = c as u8;
        (b + 32) as char
    } else {
        c
    }
}

/// The capital letter of a small letter; any other character as it is.
pub fn upper_of(c: char) -> (r: char)
    ensures
        r == to_upper(c),
{
    if 'a' <= c && c <= 'z' {
        let b: u8 = c as u8;
        (b - 32) as char
    } else {
        c
    }
}

/// Where the reading of a name stands: the words that are complete, the
/// word in the making, and whether its last character was a small letter or
/// a number.
pub struct Reading {
    /// The words that are complete.
    pub parts: Seq<Seq<char>>,
    /// The word in the making.
    pub current: Seq<char>,
    /// Whether the character before was a small letter or a number.
    pub prev_lower: bool,
}

/// Reads one more character. A capital letter after a small letter or a
/// number starts a new word, and joins its word as a small letter; a small
/// letter or a number joins the word in the making; any other character ends
/// it.
pub open spec fn read_char(r: Reading, c: char) -> Reading {
    if is_upper(c) {
        if r.prev_lower {
            Reading {
                parts: r.parts.push(r.current),
                current: seq![to_lower(c)],
                prev_lower: false,
            }
        } else {
            Reading { parts: r.parts, current: r.current.push(to_lower(c)), prev_lower: false }
        }
    } else if is_lower(c) || numeric(c) {
        Reading { parts: r.parts, current: r.current.push(c), prev_lower: true }
    } else if r.current.len() > 0 {
        Reading { parts: r.parts.push(r.current), current: Seq::empty(), prev_lower: false }
    } else {
        r
    }
}

/// Where the reading stands after all of `s`.
pub open spec fn read_all(s: Seq<char>) -> Reading
    decreases s.len(),
{
    if s.len() == 0 {
        Reading { parts: Seq::empty(), current: Seq::empty(), prev_lower: false }
    } else {
        read_char(read_all(s.drop_last()), s.last())
    }
}

/// The words of the name `s`, in small letters.
pub open spec fn parts_of(s: Seq<char>) -> Seq<Seq<char>> {
    let r = read_all(s);
    if r.current.len() > 0 {
        r.parts.push(r.current)
    } else {
        r.parts
    }
}

/// The word `s` with a capital first letter.
pub open spec fn first_cap_of(s: Seq<char>) -> Seq<char> {
    Seq::new(
        s.len(),
        |i: int|
            if i == 0 {
                to_upper(s[0])
            } else {
                s[i]
            },
    )
}

/// The words `parts` with `_` between them.
pub open spec fn snake_of(parts: Seq<Seq<char>>) -> Seq<char>
    decreases parts.len(),
{
    if parts.len() == 0 {
        Seq::empty()
    } else if parts.len() == 1 {
        parts[0]
    } else {
        snake_of(parts.drop_last()) + seq!['_'] + parts.last()
    }
}

/// The words `parts` one after the other, each with a capital first letter.
pub open spec fn pascal_of(parts: Seq<Seq<char>>) -> Seq<char>
    decreases parts.len(),
{
    if parts.len() == 0 {
        Seq::empty()
    } else {
        pascal_of(parts.drop_last()) + first_cap_of(parts.last())
    }
}

/// The words `parts` one after the other, each but the first with a capital
/// first letter.
pub open spec fn camel_of(parts: Seq<Seq<char>>) -> Seq<char>
    decreases parts.len(),
{
    if parts.len() == 0 {
        Seq::empty()
    } else if parts.len() == 1 {
        parts[0]
    } else {
        camel_of(parts.drop_last()) + first_cap_of(parts.last())
    }
}

/// The character strings that the strings of `v` hold.
pub open spec fn texts(v: Seq<String>) -> Seq<Seq<char>> {
    Seq::new(v.len(), |i: int| v[i]@)
}

/// The words of the name `s`, in small letters.
pub fn into_parts(s: &str) -> (parts: Vec<String>)
    ensures
        texts(parts@) == parts_of(s@),
{
    let len: usize = s.unicode_len();
    let mut parts: Vec<String> = Vec::new();
    let mut current = String::new();
    let mut prev_lower: bool = false;
    let mut i: usize = 0;
    proof {
        assert(texts(parts@) =~= Seq::<Seq<char>>::empty());
    }
    while i < len
        invariant
            i <= len,
            len == s@.len(),
            read_all(s@.subrange(0, i as int)) == (Reading {
                parts: texts(parts@),
                current: current@,
                prev_lower,
            }),
        decreases len - i,
    {
        let ch = s.get_char(i);
        let ghost before = read_all(s@.subrange(0, i as int));
        let ghost old_parts = parts@;
        proof {
            let next = s@.subrange(0, i as int + 1);
            assert(next.drop_last() =~= s@.subrange(0, i as int));
            assert(next.last() == ch);
        }
        if 'A' <= ch && ch <= 'Z' {
            if prev_lower {
                parts.push(current);
                current = String::new();
                proof {
                    assert(texts(parts@) =~= before.parts.push(before.current));
                }
            }
            current.push(lower_of(ch));
            prev_lower = false;
            proof {
                assert(current@ =~= read_char(before, ch).current);
            }
        } else if ('a' <= ch && ch <= 'z') || ch.is_numeric() {
            current.push(ch);
            prev_lower = true;
        } else if current.unicode_len() > 0 {
            parts.push(current);
            current = String::new();
            prev_lower = false;
            proof {
                assert(texts(parts@) =~= before.parts.push(before.current));
                assert(current@ =~= Seq::<char>::empty());
            }
        }
        i = i + 1;
    }
    proof {
        assert(s@.subrange(0, len as int) =~= s@);
    }
    if current.unicode_len() > 0 {
        let ghost done = texts(parts@);
        parts.push(current);
        proof {
            assert(texts(parts@) =~= done.push(current@));
        }
    }
    parts
}

/// The word `s` with a capital first letter.
pub fn first_cap(s: &str) -> (r: String)
    ensures
        r@ == first_cap_of(s@),
{
    let len: usize = s.unicode_len();
    let mut out = String::new();
    let mut i: usize = 0;
    while i < len
        invariant
            i <= len,
            len == s@.len(),
            out@ == first_cap_of(s@).subrange(0, i as int),
        decreases len - i,
    {
        let ch = s.get_char(i);
        if i == 0 {
            out.push(upper_of(ch));
        } else {
            out.push(ch);
        }
        i = i + 1;
        proof {
            assert(out@ =~= first_cap_of(s@).subrange(0, i as int));
        }
    }
    proof {
        assert(first_cap_of(s@).subrange(0, len as int) =~= first_cap_of(s@));
    }
    out
}

/// The name `s` in snake case: its words with `_` between them.
pub fn snake_case(s: &str) -> (r: String)
    ensures
        r@ == snake_of(parts_of(s@)),
{
    let parts = into_parts(s);
    let mut out = String::new();
    let mut i: usize = 0;
    while i < parts.len()
        invariant
            i <= parts@.len(),
            out@ == snake_of(texts(parts@).subrange(0, i as int)),
        decreases parts@.len() - i,
    {
        proof {
            let next = texts(parts@).subrange(0, i as int + 1);
            assert(next.drop_last() =~= texts(parts@).subrange(0, i as int));
            assert(next.last() == parts@[i as int]@);
            reveal_strlit("_");
            assert("_"@ =~= seq!['_']);
        }
        if i > 0 {
            out.append("_");
        }
        out.append(parts[i].as_str());
        proof {
            if i == 0 {
                assert(out@ =~= parts@[0]@);
            }
        }
        i = i + 1;
    }
    proof {
        assert(texts(parts@).subrange(0, parts@.len() as int) =~= texts(parts@));
    }
    out
}

/// The name `s` in Pascal case: its words one after the other, each with a
/// capital first letter.
pub fn pascal_case(s: &str) -> (r: String)
    ensures
        r@ == pascal_of(parts_of(s@)),
{
    let parts = into_parts(s);
    let mut out = String::new();
    let mut i: usize = 0;
    while i < parts.len()
        invariant
            i <= parts@.len(),
            out@ == pascal_of(texts(parts@).subrange(0, i as int)),
        decreases parts@.len() - i,
    {
        proof {
            let next = texts(parts@).subrange(0, i as int + 1);
            assert(next.drop_last() =~= texts(parts@).subrange(0, i as int));
            assert(next.last() == parts@[i as int]@);
        }
        let word = first_cap(parts[i].as_str());
        out.append(word.as_str());
        i = i + 1;
    }
    proof {
        assert(texts(parts@).subrange(0, parts@.len() as int) =~= texts(parts@));
    }
    out
}

/// The name `s` in camel case: its words one after the other, each but the
/// first with a capital first letter.
pub fn camel_case(s: &str) -> (r: String)
    ensures
        r@ == camel_of(parts_of(s@)),
{
    let parts = into_parts(s);
    let mut out = String::new();
    let mut i: usize = 0;
    while i < parts.len()
        invariant
            i <= parts@.len(),
            out@ == camel_of(texts(parts@).subrange(0, i as int)),
        decreases parts@.len() - i,
    {
        proof {
            let next = texts(parts@).subrange(0, i as int + 1);
            assert(next.drop_last() =~= texts(parts@).subrange(0, i as int));
            assert(next.last() == parts@[i as int]@);
        }
        if i == 0 {
            out.append(parts[i].as_str());
            proof {
                assert(out@ =~= parts@[0]@);
            }
        } else {
            let word = first_cap(parts[i].as_str());
            out.append(word.as_str());
        }
        i = i + 1;
    }
    proof {
        assert(texts(parts@).subrange(0, parts@.len() as int) =~= texts(parts@));
    }
    out
}

} // verus!
