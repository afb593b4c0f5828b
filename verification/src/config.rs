//! Where a linker works: the source directory that holds the packages, and
//! the target directory that they are projected into.
use crate::protocol::option_text;
use crate::utils::{parent, path_parent};
use vstd::prelude::*;

verus! {

/// The two directories of a linker, as text.
pub trait LinkerConfig {
    spec fn dir_text(&self) -> Seq<char>;

    spec fn target_text(&self) -> Seq<char>;

    /// The directory that holds the packages.
    fn dir(&self) -> (dir: &str)
        ensures
            dir@ == self.dir_text(),
    ;

    /// The directory that the packages are linked into.
    fn target(&self) -> (target: &str)
        ensures
            target@ == self.target_text(),
    ;
}

#[derive(Debug)]
pub struct LinkerConfigImpl {
    pub dir: String,
    pub target: String,
}

/// The text of a target directory as the caller resolved it: `None` where
/// none was given, `Some(None)` where the one given could not be resolved.
pub open spec fn given_text(target: Option<Option<String>>) -> Option<Option<Seq<char>>> {
    match target {
        Some(found) => Some(option_text(found)),
        None => None,
    }
}

/// The target directory to use: the one that was given, if it could be
/// resolved, and the parent of `dir` where none was given.
pub open spec fn chosen_target(dir: Seq<char>, target: Option<Option<Seq<char>>>) -> Option<
    Seq<char>,
> {
    match target {
        Some(found) => found,
        None => path_parent(dir),
    }
}

impl LinkerConfigImpl {
    /// Builds the configuration from what the caller resolved on disk.
    ///
    /// `dir` is the source directory in canonical form (the one given, or the
    /// current directory), `None` where it could not be resolved. `target` is
    /// `None` where no target was given, and else the target in canonical
    /// form, `None` where that could not be resolved. A configuration exists
    /// only where both directories are known.
    pub fn new(dir: Option<String>, target: Option<Option<String>>) -> (config: Self)
        requires
            dir is Some,
            chosen_target(dir.unwrap()@, given_text(target)) is Some,
        ensures
            config.dir@ == dir.unwrap()@,
            Some(config.target@) == chosen_target(dir.unwrap()@, given_text(target)),
    {
        let dir = dir.unwrap();
        let target = match target {
            Some(found) => found.unwrap(),
            None => parent(dir.as_str()).unwrap(),
        };
        Self { dir, target }
    }
}

} // verus!
