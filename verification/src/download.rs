//! What the downloader fetches, and where it keeps what it knows of it.

use vstd::prelude::*;
use vstd::string::StrSliceExecFns;

use crate::err::Fail;

verus! {

/// The place behind the last `/` of `s`: where the name of a file starts in
/// its address. Zero where `s` holds no `/`.
pub open spec fn name_start(s: Seq<char>) -> nat
    decreases s.len(),
{
    if s.len() == 0 {
        0
    } else if s.last() == '/' {
        s.len()
    } else {
        name_start(s.drop_last())
    }
}

/// The name of the file at the address `url`: what follows its last `/`,
/// all of it where it holds none.
pub open spec fn name_of(url: Seq<char>) -> Seq<char> {
    url.subrange(name_start(url) as int, url.len() as int)
}

/// `name_start` is behind the last `/`.
pub proof fn lemma_name_start(s: Seq<char>, n: int)
    requires
        0 <= n <= s.len(),
        n > 0 ==> s[n - 1] == '/',
        forall|k: int| n <= k < s.len() ==> s[k] != '/',
    ensures
        name_start(s) == n,
    decreases s.len(),
{
    if s.len() == 0 || s.last() == '/' {
    } else {
        let v = s.drop_last();
        assert forall|k: int| n <= k < v.len() implies v[k] != '/' by {
            assert(v[k] == s[k]);
        }
        if n > 0 {
            assert(v[n - 1] == s[n - 1]);
        }
        lemma_name_start(v, n);
    }
}

/// The part of `url` behind its last `/`.
pub fn file_name(url: &str) -> (name: &str)
    ensures
        name@ == name_of(url@),
{
    let len: usize = url.unicode_len();
    let mut at: usize = len;
    while at > 0 && url.get_char(at - 1) != '/'
        invariant
            at <= len,
            len == url@.len(),
            forall|k: int| at <= k < len ==> url@[k] != '/',
        decreases at,
    {
        at = at - 1;
    }
    proof {
        lemma_name_start(url@, at as int);
    }
    url.substring_char(at, len)
}

/// A file to download.
pub struct Target {
    url: String,
}

impl View for Target {
    type V = Seq<char>;

    closed spec fn view(&self) -> Seq<char> {
        self.url@
    }
}

impl Target {
    /// The file at the address `url`.
    pub fn new(url: String) -> (r: Target)
        ensures
            r@ == url@,
    {
        Target { url }
    }

    /// The address of the file.
    pub fn url(&self) -> (r: &str)
        ensures
            r@ == self@,
    {
        self.url.as_str()
    }

    /// The name under which the file is kept: what follows the last `/` of
    /// its address. An address always has such a part, be it empty.
    pub fn name(&self) -> (r: Result<&str, Fail>)
        ensures
            r.is_ok(),
            r->Ok_0@ == name_of(self@),
    {
        Ok(file_name(self.url.as_str()))
    }
}

/// The file that remembers the entity tag of each download.
pub struct EtagStoreage {
    path: String,
}

impl View for EtagStoreage {
    type V = Seq<char>;

    closed spec fn view(&self) -> Seq<char> {
        self.path@
    }
}

impl EtagStoreage {
    /// The store kept in the file at `path`.
    pub fn new(path: &str) -> (r: EtagStoreage)
        ensures
            r@ == path@,
    {
        EtagStoreage { path: path.to_owned() }
    }

    /// The path of the file.
    pub fn path(&self) -> (r: &str)
        ensures
            r@ == self@,
    {
        self.path.as_str()
    }
}

} // verus!
