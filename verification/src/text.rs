//! Helpers for text: what the verified code needs of `String` and `char`.

use vstd::prelude::*;

verus! {

/// `String::push` appends the character to the end of the string.
pub assume_specification[ std::string::String::push ](s: &mut std::string::String, ch: char)
    ensures
        final(s)@ == old(s)@.push(ch),
;

/// What `str::trim` makes of a string: the string without the white space at
/// its ends, where white space is what Unicode calls so.
pub uninterp spec fn trimmed(s: Seq<char>) -> Seq<char>;

/// `str::trim` gives the part of the string between its leading and its
/// trailing white space.
pub assume_specification[ str::trim ](s: &str) -> (r: &str)
    ensures
        r@ == trimmed(s@),
;

/// What `str::to_lowercase` makes of a string: its lower case by the rules
/// of Unicode.
pub uninterp spec fn lowercase(s: Seq<char>) -> Seq<char>;

/// `str::to_lowercase` gives the lower case of the string as a new string.
pub assume_specification[ str::to_lowercase ](s: &str) -> (r: std::string::String)
    ensures
        r@ == lowercase(s@),
;

/// Whether `char::is_numeric` holds of a character: whether Unicode counts
/// it among the numbers.
pub uninterp spec fn numeric(c: char) -> bool;

/// `char::is_numeric` tells whether the character is one of the numeric
/// characters of Unicode.
pub assume_specification[ char::is_numeric ](c: char) -> (r: bool)
    ensures
        r == numeric(c),
;

/// Tells whether two strings hold the same characters.
pub fn str_eq(a: &str, b: &str) -> (r: bool)
    ensures
        r == (a@ == b@),
{
    let x = a.to_owned();
    let y = b.to_owned();
    x == y
}

} // verus!
