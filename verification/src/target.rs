//! The list of the dumps to download, and how much of it a run takes.

use vstd::prelude::*;
use vstd::string::StringExecFns;

use crate::download::{file_name, name_of};
use crate::err::{text, Fail, FailView};
use crate::text::{lowercase, str_eq, trimmed};

verus! {

/// How much a run downloads: each mode takes the files of its own size and
/// of the smaller ones.
#[derive(Debug, Clone, Copy, PartialEq, Eq, PartialOrd, Ord, Structural)]
pub enum Mode {
    /// Only the small files.
    Small,
    /// The small files and those of usual size.
    Normal,
    /// All files.
    Full,
}

/// The mode that the word `w` names, if it names one: a mode is named by its
/// name or by the first letter of it, and no word at all names the small one.
pub open spec fn mode_of(w: Seq<char>) -> Option<Mode> {
    if w == ""@ || w == "s"@ || w == "small"@ {
        Some(Mode::Small)
    } else if w == "n"@ || w == "normal"@ {
        Some(Mode::Normal)
    } else if w == "f"@ || w == "full"@ {
        Some(Mode::Full)
    } else {
        None
    }
}

impl Mode {
    /// The place of the mode among the modes, from the smallest.
    pub open spec fn rank(self) -> nat {
        match self {
            Mode::Small => 0,
            Mode::Normal => 1,
            Mode::Full => 2,
        }
    }

    /// Tells whether a run in this mode takes a file of the mode `of`: it
    /// does where the file's mode is not larger than its own.
    pub fn takes(self, of: Mode) -> (r: bool)
        ensures
            r == (of.rank() <= self.rank()),
    {
        match (self, of) {
            (Mode::Full, _) => true,
            (Mode::Normal, Mode::Full) => false,
            (Mode::Normal, _) => true,
            (Mode::Small, Mode::Small) => true,
            (Mode::Small, _) => false,
        }
    }

    /// The mode that the word `word` names. A word that names none is an
    /// error, whose message holds the word.
    pub fn from_word(word: &str) -> (r: Result<Mode, Fail>)
        ensures
            match mode_of(word@) {
                Some(m) => r == Ok::<Mode, Fail>(m),
                None => r.is_err() && r->Err_0@ == FailView::Message("unknown mode: "@ + word@),
            },
    {
        if str_eq(word, "") || str_eq(word, "s") || str_eq(word, "small") {
            Ok(Mode::Small)
        } else if str_eq(word, "n") || str_eq(word, "normal") {
            Ok(Mode::Normal)
        } else if str_eq(word, "f") || str_eq(word, "full") {
            Ok(Mode::Full)
        } else {
            let mut message = "unknown mode: ".to_owned();
            message.append(word);
            Err(Fail::new(message.as_str()))
        }
    }

    /// The mode that the text `s` names, whatever the case of its letters
    /// and the white space around it.
    pub fn parse(s: &str) -> (r: Result<Mode, Fail>)
        ensures
            match mode_of(lowercase(trimmed(s@))) {
                Some(m) => r == Ok::<Mode, Fail>(m),
                None => r.is_err() && r->Err_0@ == FailView::Message(
                    "unknown mode: "@ + lowercase(trimmed(s@)),
                ),
            },
    {
        let word = s.trim().to_lowercase();
        Mode::from_word(word.as_str())
    }
}

/// A dump to download.
pub struct Target {
    url: String,
    mode: Mode,
}

/// A target as plain mathematics.
pub struct TargetView {
    /// The address of the dump.
    pub url: Seq<char>,
    /// The smallest mode that takes the dump.
    pub mode: Mode,
}

impl View for Target {
    type V = TargetView;

    closed spec fn view(&self) -> TargetView {
        TargetView { url: self.url@, mode: self.mode }
    }
}

impl Target {
    /// The dump at the address `url`, taken by the runs of mode `mode` and
    /// larger.
    pub fn new(url: String, mode: Mode) -> (r: Target)
        ensures
            r@ == (TargetView { url: url@, mode }),
    {
        Target { url, mode }
    }

    /// The address of the dump.
    pub fn url(&self) -> (r: &str)
        ensures
            r@ == self@.url,
    {
        self.url.as_str()
    }

    /// The name under which the dump is kept: what follows the last `/` of
    /// its address. An address always has such a part, be it empty.
    pub fn name(&self) -> (r: Result<&str, Fail>)
        ensures
            r.is_ok(),
            r->Ok_0@ == name_of(self@.url),
    {
        Ok(file_name(self.url.as_str()))
    }

    /// The smallest mode that takes the dump.
    pub fn mode(&self) -> (r: Mode)
        ensures
            r == self@.mode,
    {
        self.mode
    }
}

/// The file that remembers the entity tag of each download.
#[derive(Debug)]
pub struct EtagStoreage {
    path: String,
}

impl View for EtagStoreage {
    type V = Seq<char>;

    closed spec fn view(&self) -> Seq<char> {
        self.path@
    }
}

impl EtagStoreage {
    /// The store kept in the file at `path`.
    pub fn new(path: &str) -> (r: EtagStoreage)
        ensures
            r@ == path@,
    {
        EtagStoreage { path: path.to_owned() }
    }

    /// The path of the file.
    pub fn path(&self) -> (r: &str)
        ensures
            r@ == self@,
    {
        self.path.as_str()
    }
}

} // verus!
