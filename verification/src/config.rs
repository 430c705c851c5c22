//! The settings of the tools.

use vstd::prelude::*;

verus! {

/// Where the tools find what they work on.
pub struct Config {
    dumps_dir: Option<String>,
}

impl View for Config {
    type V = Option<Seq<char>>;

    closed spec fn view(&self) -> Option<Seq<char>> {
        match self.dumps_dir {
            Some(d) => Some(d@),
            None => None,
        }
    }
}

impl Config {
    /// Settings with the given directory of the dumps, or with none.
    pub fn new(dumps_dir: Option<String>) -> (r: Config)
        ensures
            r@ == match dumps_dir {
                Some(d) => Some(d@),
                None => None,
            },
    {
        Config { dumps_dir }
    }

    /// The directory that holds the dumps: the one that was set, else the
    /// current directory, `.`.
    pub fn dumps_dir(&self) -> (r: String)
        ensures
            r@ == match self@ {
                Some(d) => d,
                None => "."@,
            },
    {
        match &self.dumps_dir {
            Some(d) => d.clone(),
            None => ".".to_owned(),
        }
    }
}

} // verus!
