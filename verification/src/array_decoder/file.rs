//! How an input file is opened: by its name, as gzip or as plain text.

use vstd::prelude::*;
use vstd::string::StringSliceAdditionalSpecFns;

verus! {

/// The bytes of the suffix that marks a gzip file: `.gz`.
pub open spec fn gz_suffix() -> Seq<u8> {
    seq![0x2eu8, 0x67u8, 0x7au8]
}

/// `name` ends with `suffix`.
pub open spec fn ends_with(name: Seq<u8>, suffix: Seq<u8>) -> bool {
    name.len() >= suffix.len() && name.subrange(name.len() - suffix.len(), name.len() as int)
        == suffix
}

/// Tells whether a file of this name is read through a gzip decoder: it is
/// where the name ends with `.gz`.
pub fn is_gzip(file_name: &str) -> (r: bool)
    ensures
        r == ends_with(file_name.spec_bytes(), gz_suffix()),
{
    let bs = file_name.as_bytes();
    let n: usize = bs.len();
    if n < 3 {
        return false;
    }
    let r = bs[n - 3] == 0x2e && bs[n - 2] == 0x67 && bs[n - 1] == 0x7a;
    proof {
        let tail = bs@.subrange(n - 3, n as int);
        if r {
            assert(tail =~= gz_suffix());
        } else {
            if tail == gz_suffix() {
                assert(tail[0] == 0x2e && tail[1] == 0x67 && tail[2] == 0x7a);
            }
        }
    }
    r
}

} // verus!
