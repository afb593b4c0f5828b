//! The unlink reconciler: walks the target along a package tree and removes
//! the symlinks that point back into the package, and no others.
use crate::config::LinkerConfig;
use crate::protocol::{
    option_request, option_text, Notice, NoticeView, Outcome, OutcomeView, Pass, Request,
    RequestView, Work, WorkView,
};
use crate::utils::{absolute, join, parent, path_joined, path_parent, path_same, resolved, same};
use vstd::prelude::*;

verus! {

/// The request by which a symlink is removed, where the remover changes the
/// filesystem at all.
pub open spec fn removal_request(removes: bool, link: Seq<char>) -> Option<RequestView> {
    if removes {
        Some(RequestView::Remove { link })
    } else {
        None
    }
}

/// The ownership test. The symlink at `link`, which stores `stored`, belongs
/// to the package exactly where the stored path, resolved against the
/// directory of `link`, is the path `original`. The test is path arithmetic
/// alone, so a dangling link is judged like any other.
pub open spec fn owned(original: Seq<char>, link: Seq<char>, stored: Option<Seq<char>>) -> bool {
    stored is Some && path_parent(link) is Some && path_same(
        resolved(stored.unwrap(), path_parent(link).unwrap()),
        original,
    )
}

/// The decision at a symlink. One whose target cannot be read, or that is
/// not owned, is passed over in silence; one without a parent directory
/// gives that notice; an owned one gives the notice of its removal and, where
/// the remover changes the filesystem, the request to remove it.
pub open spec fn unlink_leaf(
    removes: bool,
    original: Seq<char>,
    link: Seq<char>,
    stored: Option<Seq<char>>,
) -> OutcomeView {
    if stored is None {
        OutcomeView { notice: None, request: None }
    } else if path_parent(link) is None {
        OutcomeView { notice: Some(NoticeView::NoParent { link }), request: None }
    } else if owned(original, link, stored) {
        OutcomeView {
            notice: Some(NoticeView::Unlink { link }),
            request: removal_request(removes, link),
        }
    } else {
        OutcomeView { notice: None, request: None }
    }
}

/// The decision on one pair of paths. A destination that is a symlink is a
/// leaf; at any other the source is to be listed, so that the walk goes on
/// along the package tree.
pub open spec fn unlink_step(
    removes: bool,
    original: Seq<char>,
    link: Seq<char>,
    is_symlink: bool,
    stored: Option<Seq<char>>,
) -> OutcomeView {
    if is_symlink {
        unlink_leaf(removes, original, link, stored)
    } else {
        OutcomeView {
            notice: None,
            request: Some(RequestView::ReadDir { pass: Pass::Unlink, original, link }),
        }
    }
}

/// Whether the decision on the pair removes the symlink at `link`.
pub open spec fn unlinks(
    original: Seq<char>,
    link: Seq<char>,
    is_symlink: bool,
    stored: Option<Seq<char>>,
) -> bool {
    is_symlink && owned(original, link, stored)
}

/// How a linker removes a symlink that it owns.
pub trait LinkRemover: LinkerConfig {
    /// Whether the remover changes the filesystem.
    spec fn removes(&self) -> bool;

    /// How the remover itself differs after the removal of `link`.
    spec fn recorded(&self, link: Seq<char>, after: &Self) -> bool;

    /// Names the change of the filesystem that removes the symlink at
    /// `link`, if the remover makes any, and takes note of the removal.
    fn handle_link_removal(&mut self, link: &str) -> (request: Option<Request>)
        ensures
            option_request(request) == removal_request(old(self).removes(), link@),
            old(self).recorded(link@, final(self)),
    ;
}

/// The unlink reconciler itself, the same for every remover.
pub trait LinkRemoverExt: LinkRemover + Sized {
    /// Starts unlinking `package`: the walk from the package's directory
    /// into the target. A package that does not exist needs no notice, since
    /// no link can be owned by it.
    fn _unlink(&self, package: &str) -> (work: Work)
        ensures
            work@ == (WorkView::Unlink {
                original: path_joined(self.dir_text(), package@),
                link: self.target_text(),
            }),
    {
        let package_path = join(self.dir(), package);
        Work::Unlink { original: package_path, link: self.target().to_owned() }
    }

    /// Decides on the pair `original`, `link`, given whether `link` is a
    /// symlink and what it stores.
    fn unlink_tree(
        &mut self,
        original: &str,
        link: &str,
        is_symlink: bool,
        stored: &Option<String>,
    ) -> (outcome: Outcome)
        ensures
            outcome@ == unlink_step(
                old(self).removes(),
                original@,
                link@,
                is_symlink,
                option_text(*stored),
            ),
            if unlinks(original@, link@, is_symlink, option_text(*stored)) {
                old(self).recorded(link@, final(self))
            } else {
                *final(self) == *old(self)
            },
    {
        if is_symlink {
            return common_remove_symlink(self, original, link, stored);
        }
        Outcome {
            notice: None,
            request: Some(
                Request::ReadDir {
                    pass: Pass::Unlink,
                    original: original.to_owned(),
                    link: link.to_owned(),
                },
            ),
        }
    }
}

/// The leaf operation of the unlink reconciler: decides whether the symlink
/// at `link`, which stores `stored`, is removed on behalf of `original`.
pub fn common_remove_symlink<R: LinkRemover>(
    remover: &mut R,
    original: &str,
    link: &str,
    stored: &Option<String>,
) -> (outcome: Outcome)
    ensures
        outcome@ == unlink_leaf(old(remover).removes(), original@, link@, option_text(*stored)),
        if owned(original@, link@, option_text(*stored)) {
            old(remover).recorded(link@, final(remover))
        } else {
            *final(remover) == *old(remover)
        },
{
    let link_target = match stored {
        Some(link_target) => link_target,
        None => {
            return Outcome { notice: None, request: None };
        },
    };
    let link_parent = match parent(link) {
        Some(link_parent) => link_parent,
        None => {
            return Outcome {
                notice: Some(Notice::NoParent { link: link.to_owned() }),
                request: None,
            };
        },
    };
    let link_target = absolute(link_target.as_str(), link_parent.as_str());
    if !same(link_target.as_str(), original) {
        return Outcome { notice: None, request: None };
    }
    let request = remover.handle_link_removal(link);
    Outcome { notice: Some(Notice::Unlink { link: link.to_owned() }), request }
}

} // verus!
