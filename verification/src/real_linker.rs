//! The linker that changes the filesystem.
use crate::config::{LinkerConfig, LinkerConfigImpl};
use crate::link::{LinkCreator, LinkCreatorExt};
use crate::protocol::Request;
use crate::unlink::{LinkRemover, LinkRemoverExt};
use vstd::prelude::*;

verus! {

#[derive(Debug)]
pub struct RealLinker {
    dir: String,
    target: String,
}

impl RealLinker {
    pub fn new(config: LinkerConfigImpl) -> (linker: Self)
        ensures
            linker.dir_text() == config.dir@,
            linker.target_text() == config.target@,
    {
        Self { dir: config.dir, target: config.target }
    }
}

impl LinkerConfig for RealLinker {
    closed spec fn dir_text(&self) -> Seq<char> {
        self.dir@
    }

    closed spec fn target_text(&self) -> Seq<char> {
        self.target@
    }

    fn dir(&self) -> (dir: &str) {
        self.dir.as_str()
    }

    fn target(&self) -> (target: &str) {
        self.target.as_str()
    }
}

impl LinkCreator for RealLinker {
    /// Whatever exists at the destination blocks the link.
    open spec fn skips(&self, link: Seq<char>, link_exists: bool) -> bool {
        link_exists
    }

    open spec fn reverts(&self, link: Seq<char>) -> bool {
        false
    }

    open spec fn creates(&self) -> bool {
        true
    }

    fn skip_create_link(&self, link: &str, link_exists: bool) -> (skip: bool) {
        link_exists
    }

    fn reverts_removal(&self, link: &str) -> (reverts: bool) {
        false
    }

    fn handle_link_creation(&self, original_relative: &str, link: &str) -> (request: Option<
        Request,
    >) {
        Some(Request::Symlink { original: original_relative.to_owned(), link: link.to_owned() })
    }
}

impl LinkCreatorExt for RealLinker {

}

impl LinkRemover for RealLinker {
    open spec fn removes(&self) -> bool {
        true
    }

    /// Nothing is recorded: the linker stays as it is.
    open spec fn recorded(&self, link: Seq<char>, after: &Self) -> bool {
        *after == *self
    }

    fn handle_link_removal(&mut self, link: &str) -> (request: Option<Request>) {
        Some(Request::Remove { link: link.to_owned() })
    }
}

impl LinkRemoverExt for RealLinker {

}

} // verus!
