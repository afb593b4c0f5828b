//! The linker of a dry run: it decides as the real one would and changes
//! nothing, keeping track of the symlinks that it would have removed.
use crate::config::{LinkerConfig, LinkerConfigImpl};
use crate::link::{LinkCreator, LinkCreatorExt};
use crate::protocol::{texts, Request};
use crate::unlink::{LinkRemover, LinkRemoverExt};
use crate::utils::{path_same, same};
use vstd::prelude::*;

verus! {

/// Whether two texts name the same destination: they are equal as paths,
/// as equal texts always are.
pub open spec fn same_destination(a: Seq<char>, b: Seq<char>) -> bool {
    a == b || path_same(a, b)
}

/// Whether `link` is among the destinations recorded as removed.
pub open spec fn virtually_removed(removed: Seq<Seq<char>>, link: Seq<char>) -> bool {
    exists|i: int| 0 <= i < removed.len() && same_destination(#[trigger] removed[i], link)
}

/// Whether no destination stands twice on the record: no entry names the
/// destination of an earlier one.
pub open spec fn each_once(removed: Seq<Seq<char>>) -> bool {
    forall|i: int, j: int|
        #![trigger removed[i], removed[j]]
        0 <= i < j < removed.len() ==> !same_destination(removed[i], removed[j])
}

/// The record after the removal of `link`: a destination that is on record
/// already is not recorded again.
pub open spec fn with_removal(removed: Seq<Seq<char>>, link: Seq<char>) -> Seq<Seq<char>> {
    if virtually_removed(removed, link) {
        removed
    } else {
        removed.push(link)
    }
}

/// Recording a removal keeps what was on record, puts the destination on
/// record, and lets no destination stand twice.
pub proof fn lemma_removal_keeps_once(removed: Seq<Seq<char>>, link: Seq<char>)
    ensures
        virtually_removed(with_removal(removed, link), link),
        forall|other: Seq<char>|
            virtually_removed(removed, other) ==> virtually_removed(
                with_removal(removed, link),
                other,
            ),
        each_once(removed) ==> each_once(with_removal(removed, link)),
{
    let next = with_removal(removed, link);
    if !virtually_removed(removed, link) {
        assert(same_destination(next[removed.len() as int], link));
    }
    assert forall|other: Seq<char>| virtually_removed(removed, other) implies virtually_removed(
        next,
        other,
    ) by {
        let i = choose|i: int| 0 <= i < removed.len() && same_destination(removed[i], other);
        assert(same_destination(next[i], other));
    }
    if each_once(removed) {
        assert forall|i: int, j: int| 0 <= i < j < next.len() implies !same_destination(
            #[trigger] next[i],
            #[trigger] next[j],
        ) by {
            if j < removed.len() {
                assert(!same_destination(removed[i], removed[j]));
            }
        }
    }
}

#[derive(Debug)]
pub struct SimulateLinker {
    dir: String,
    target: String,
    /// The record of removals: a set of destinations, kept as a list in
    /// which none stands twice.
    removed: Vec<String>,
}

impl SimulateLinker {
    /// No destination stands twice on the record.
    #[verifier::type_invariant]
    closed spec fn recorded_once(self) -> bool {
        each_once(texts(self.removed@))
    }

    /// A linker for one dry run; nothing is recorded as removed yet.
    pub fn new(config: LinkerConfigImpl) -> (linker: Self)
        ensures
            linker.dir_text() == config.dir@,
            linker.target_text() == config.target@,
            linker.removed() == Seq::<Seq<char>>::empty(),
    {
        Self { dir: config.dir, target: config.target, removed: Vec::new() }
    }

    /// The destinations recorded as removed, oldest first and each once.
    pub closed spec fn removed(&self) -> Seq<Seq<char>> {
        texts(self.removed@)
    }

    /// Whether `link` is recorded as removed. The record holds no
    /// destination twice.
    pub fn is_removed(&self, link: &str) -> (found: bool)
        ensures
            found == virtually_removed(self.removed(), link@),
            each_once(self.removed()),
    {
        proof {
            use_type_invariant(self);
        }
        let mut i: usize = 0;
        while i < self.removed.len()
            invariant
                i <= self.removed.len(),
                each_once(self.removed()),
                forall|j: int| 0 <= j < i ==> !same_destination(#[trigger] self.removed()[j], link@),
            decreases self.removed.len() - i,
        {
            if same(self.removed[i].as_str(), link) {
                assert(same_destination(self.removed()[i as int], link@));
                return true;
            }
            i += 1;
        }
        false
    }
}

impl LinkerConfig for SimulateLinker {
    closed spec fn dir_text(&self) -> Seq<char> {
        self.dir@
    }

    closed spec fn target_text(&self) -> Seq<char> {
        self.target@
    }

    fn dir(&self) -> (dir: &str) {
        self.dir.as_str()
    }

    fn target(&self) -> (target: &str) {
        self.target.as_str()
    }
}

impl LinkCreator for SimulateLinker {
    /// What exists at the destination blocks the link, unless the dry run
    /// has removed it.
    open spec fn skips(&self, link: Seq<char>, link_exists: bool) -> bool {
        link_exists && !virtually_removed(self.removed(), link)
    }

    open spec fn reverts(&self, link: Seq<char>) -> bool {
        virtually_removed(self.removed(), link)
    }

    open spec fn creates(&self) -> bool {
        false
    }

    fn skip_create_link(&self, link: &str, link_exists: bool) -> (skip: bool) {
        link_exists && !self.is_removed(link)
    }

    fn reverts_removal(&self, link: &str) -> (reverts: bool) {
        self.is_removed(link)
    }

    fn handle_link_creation(&self, original_relative: &str, link: &str) -> (request: Option<
        Request,
    >) {
        None
    }
}

impl LinkCreatorExt for SimulateLinker {

}

impl LinkRemover for SimulateLinker {
    open spec fn removes(&self) -> bool {
        false
    }

    /// The destination is recorded, and the directories stay.
    open spec fn recorded(&self, link: Seq<char>, after: &Self) -> bool {
        &&& after.removed() == with_removal(self.removed(), link)
        &&& after.dir_text() == self.dir_text()
        &&& after.target_text() == self.target_text()
    }

    fn handle_link_removal(&mut self, link: &str) -> (request: Option<Request>) {
        proof {
            use_type_invariant(&*self);
        }
        if !self.is_removed(link) {
            let link = link.to_owned();
            let mut removed = Vec::new();
            std::mem::swap(&mut self.removed, &mut removed);
            proof {
                assert(texts(removed@.push(link)) =~= texts(removed@).push(link@));
                lemma_removal_keeps_once(texts(removed@), link@);
            }
            removed.push(link);
            std::mem::swap(&mut self.removed, &mut removed);
        }
        None
    }
}

impl LinkRemoverExt for SimulateLinker {

}

} // verus!
