//! The link reconciler: merges a package tree into the target, creating a
//! symlink at each leaf or reporting what stands in its way.
use crate::config::LinkerConfig;
use crate::protocol::{
    option_request, Notice, NoticeView, Outcome, OutcomeView, Pass, Request, RequestView, Work,
    WorkView,
};
use crate::utils::{join, parent, path_joined, path_parent, path_relative, relative};
use vstd::prelude::*;

verus! {

/// The text that a symlink in `link_parent` stores to point at `original`:
/// the path that leads there from `link_parent`, and `original` itself where
/// no relative path can be built. Whether the stored path exists on disk is
/// never looked up.
pub open spec fn stored_target(original: Seq<char>, link_parent: Seq<char>) -> Seq<char> {
    match path_relative(original, link_parent) {
        Some(diff) => diff,
        None => original,
    }
}

/// The request by which a symlink is created, where the creator changes the
/// filesystem at all.
pub open spec fn creation_request(creates: bool, stored: Seq<char>, link: Seq<char>) -> Option<
    RequestView,
> {
    if creates {
        Some(RequestView::Symlink { original: stored, link })
    } else {
        None
    }
}

/// The decision at a leaf. A destination that the creator skips gives the
/// conflict notice and nothing else; one without a parent directory gives
/// that notice; any other gives the notice of the link and, where the creator
/// changes the filesystem, the request to create it.
pub open spec fn link_leaf(
    skips: bool,
    reverts: bool,
    creates: bool,
    original: Seq<char>,
    link: Seq<char>,
) -> OutcomeView {
    if skips {
        OutcomeView { notice: Some(NoticeView::FileExists { link }), request: None }
    } else {
        match path_parent(link) {
            None => OutcomeView { notice: Some(NoticeView::NoParent { link }), request: None },
            Some(link_parent) => {
                let stored = stored_target(original, link_parent);
                OutcomeView {
                    notice: Some(NoticeView::Link { link, original: stored, reverts }),
                    request: creation_request(creates, stored, link),
                }
            },
        }
    }
}

/// The decision on one pair of paths. The pair is a leaf where the
/// destination does not exist or the source is a regular file. A destination
/// that the dry run has removed counts as one that does not exist, though it
/// is still on disk: the dry run decides as the real run would. Otherwise
/// both are directories, and the source is to be listed so that its children
/// can be merged into the destination.
pub open spec fn link_step(
    skips: bool,
    reverts: bool,
    creates: bool,
    original: Seq<char>,
    link: Seq<char>,
    link_exists: bool,
    original_is_file: bool,
) -> OutcomeView {
    if !link_exists || reverts || original_is_file {
        link_leaf(skips, reverts, creates, original, link)
    } else {
        OutcomeView {
            notice: None,
            request: Some(RequestView::ReadDir { pass: Pass::Link, original, link }),
        }
    }
}

/// The first work on a package that is to be linked: the walk from the
/// package's directory into the target, or the notice that there is no such
/// package.
pub open spec fn package_link(
    dir: Seq<char>,
    target: Seq<char>,
    package: Seq<char>,
    exists: bool,
) -> WorkView {
    if exists {
        WorkView::Link { original: path_joined(dir, package), link: target }
    } else {
        WorkView::Report { notice: NoticeView::PackageNotFound { package } }
    }
}

/// How a linker treats a destination at which a symlink should be created.
pub trait LinkCreator: LinkerConfig {
    /// Whether the destination blocks the link.
    spec fn skips(&self, link: Seq<char>, link_exists: bool) -> bool;

    /// Whether a link at the destination undoes a removal recorded earlier.
    spec fn reverts(&self, link: Seq<char>) -> bool;

    /// Whether the creator changes the filesystem.
    spec fn creates(&self) -> bool;

    /// Decides whether the destination `link`, which exists on disk or not as
    /// `link_exists` says, is to be left alone.
    fn skip_create_link(&self, link: &str, link_exists: bool) -> (skip: bool)
        ensures
            skip == self.skips(link@, link_exists),
    ;

    /// Tells whether a link at `link` undoes a removal recorded earlier in
    /// the same run.
    fn reverts_removal(&self, link: &str) -> (reverts: bool)
        ensures
            reverts == self.reverts(link@),
    ;

    /// Names the change of the filesystem that puts a symlink storing
    /// `original_relative` at `link`, if the creator makes any.
    fn handle_link_creation(&self, original_relative: &str, link: &str) -> (request: Option<
        Request,
    >)
        ensures
            option_request(request) == creation_request(
                self.creates(),
                original_relative@,
                link@,
            ),
    ;
}

/// The link reconciler itself, the same for every creator.
pub trait LinkCreatorExt: LinkCreator + Sized {
    /// Starts linking `package`, given whether its directory exists.
    fn _link(&self, package: &str, exists: bool) -> (work: Work)
        ensures
            work@ == package_link(self.dir_text(), self.target_text(), package@, exists),
    {
        if !exists {
            return Work::Report { notice: Notice::PackageNotFound { package: package.to_owned() } };
        }
        let package_path = join(self.dir(), package);
        Work::Link { original: package_path, link: self.target().to_owned() }
    }

    /// Decides on the pair `original`, `link`, given whether anything stands
    /// at `link` and whether `original` is a regular file. A destination
    /// whose removal is on record is taken for absent.
    fn link_tree(
        &self,
        original: &str,
        link: &str,
        link_exists: bool,
        original_is_file: bool,
    ) -> (outcome: Outcome)
        ensures
            outcome@ == link_step(
                self.skips(link@, link_exists),
                self.reverts(link@),
                self.creates(),
                original@,
                link@,
                link_exists,
                original_is_file,
            ),
    {
        if !link_exists || original_is_file || self.reverts_removal(link) {
            return common_create_symlink(self, original, link, link_exists);
        }
        Outcome {
            notice: None,
            request: Some(
                Request::ReadDir {
                    pass: Pass::Link,
                    original: original.to_owned(),
                    link: link.to_owned(),
                },
            ),
        }
    }
}

/// The leaf operation of the link reconciler: decides whether a symlink to
/// `original` is created at `link`, and what it stores.
pub fn common_create_symlink<C: LinkCreator>(
    creator: &C,
    original: &str,
    link: &str,
    link_exists: bool,
) -> (outcome: Outcome)
    ensures
        outcome@ == link_leaf(
            creator.skips(link@, link_exists),
            creator.reverts(link@),
            creator.creates(),
            original@,
            link@,
        ),
{
    if creator.skip_create_link(link, link_exists) {
        return Outcome { notice: Some(Notice::FileExists { link: link.to_owned() }), request: None };
    }
    let link_parent = match parent(link) {
        Some(link_parent) => link_parent,
        None => {
            return Outcome {
                notice: Some(Notice::NoParent { link: link.to_owned() }),
                request: None,
            };
        },
    };
    let original_relative = match relative(original, link_parent.as_str()) {
        Some(diff) => diff,
        None => original.to_owned(),
    };
    let reverts = creator.reverts_removal(link);
    let request = creator.handle_link_creation(original_relative.as_str(), link);
    Outcome {
        notice: Some(Notice::Link { link: link.to_owned(), original: original_relative, reverts }),
        request,
    }
}

} // verus!
