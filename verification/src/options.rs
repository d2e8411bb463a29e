//! The configuration of a watch: what to run and which changes count.

use vstd::prelude::*;

verus! {

/// What to run and what to watch. Built once by the caller and never changed
/// by the library.
#[derive(Debug, Clone, PartialEq, Eq)]
pub struct WatchOptions {
    /// The path handed to the program as its argument. A change of this very
    /// path always counts.
    pub script: String,
    /// A comma-separated list of file extensions. Where it is present, only
    /// changes of files with one of these extensions count.
    pub ext: Option<String>,
    /// Path patterns to leave out. The field is carried for the caller; the
    /// restart rules do not consult it.
    pub ignore: Option<Vec<String>>,
    /// The program that runs `script`; `node` where absent.
    pub executable: Option<String>,
    /// The least time between two restarts, in milliseconds.
    pub delay: Option<u64>,
}

/// The mathematical content of a `WatchOptions`.
pub struct OptionsView {
    pub script: Seq<char>,
    pub ext: Option<Seq<char>>,
    pub ignore: Option<Seq<Seq<char>>>,
    pub executable: Option<Seq<char>>,
    pub delay: Option<u64>,
}

/// The text of an optional string.
pub open spec fn text_of(s: Option<String>) -> Option<Seq<char>> {
    match s {
        Some(t) => Some(t@),
        None => None,
    }
}

/// The texts of a sequence of strings.
pub open spec fn texts_of(v: Seq<String>) -> Seq<Seq<char>> {
    v.map_values(|s: String| s@)
}

impl View for WatchOptions {
    type V = OptionsView;

    open spec fn view(&self) -> OptionsView {
        OptionsView {
            script: self.script@,
            ext: text_of(self.ext),
            ignore: match self.ignore {
                Some(v) => Some(texts_of(v@)),
                None => None,
            },
            executable: text_of(self.executable),
            delay: self.delay,
        }
    }
}

impl OptionsView {
    /// The program to launch: the configured one, or `node`.
    pub open spec fn program(self) -> Seq<char> {
        match self.executable {
            Some(p) => p,
            None => "node"@,
        }
    }
}

impl WatchOptions {
    /// The program to launch: the configured one, or `node`.
    pub fn program(&self) -> (p: &str)
        ensures
            p@ == self@.program(),
    {
        match &self.executable {
            Some(p) => p.as_str(),
            None => "node",
        }
    }
}

} // verus!
