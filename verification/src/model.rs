//! The linker as a state machine over plain values: what a command puts on
//! the agenda, what each event leads to, and how the agenda is taken up.
//!
//! Everything here is specification. The executable linker is proved to move
//! exactly as `LinkerView::begun` and `LinkerView::stepped` say.
use crate::link::{link_step, package_link};
use crate::protocol::{EventView, Mode, NoticeView, RequestView, WorkView};
use crate::simulate::{virtually_removed, with_removal};
use crate::unlink::{unlink_step, unlinks};
use crate::utils::{path_joined, walked};
use vstd::prelude::*;

verus! {

/// The work on one package, in the order in which it is done: a relink is
/// the unlink followed at once by the link.
pub open spec fn package_work(
    mode: Mode,
    dir: Seq<char>,
    target: Seq<char>,
    package: Seq<char>,
) -> Seq<WorkView> {
    let path = path_joined(dir, package);
    let unlink = WorkView::Unlink { original: path, link: target };
    let link = WorkView::Package { package, path };
    match mode {
        Mode::Link => seq![link],
        Mode::Unlink => seq![unlink],
        Mode::Relink => seq![unlink, link],
    }
}

/// The work on a batch of packages: that of each package, in the order of
/// the batch.
pub open spec fn batch_work(
    mode: Mode,
    dir: Seq<char>,
    target: Seq<char>,
    packages: Seq<Seq<char>>,
) -> Seq<WorkView>
    decreases packages.len(),
{
    if packages.len() == 0 {
        Seq::empty()
    } else {
        package_work(mode, dir, target, packages.first()) + batch_work(
            mode,
            dir,
            target,
            packages.drop_first(),
        )
    }
}

/// What ends a run: in a dry run the one notice that nothing was changed.
pub open spec fn closing(simulate: bool) -> Seq<WorkView> {
    if simulate {
        seq![WorkView::Report { notice: NoticeView::Simulation }]
    } else {
        Seq::empty()
    }
}

/// The notices that a decision gives: its one notice, or none.
pub open spec fn announced(notice: Option<NoticeView>) -> Seq<NoticeView> {
    match notice {
        Some(n) => seq![n],
        None => Seq::empty(),
    }
}

/// The request that a decision leaves pending; `Finished` where it asks for
/// nothing, so that the agenda is taken up again.
pub open spec fn awaited(request: Option<RequestView>) -> RequestView {
    match request {
        Some(r) => r,
        None => RequestView::Finished,
    }
}

/// The state of a linker.
pub ghost struct LinkerView {
    /// The directory that holds the packages.
    pub dir: Seq<char>,
    /// The directory that the packages are linked into.
    pub target: Seq<char>,
    /// Whether this is a dry run.
    pub simulate: bool,
    /// The destinations that the dry run has removed so far.
    pub removed: Seq<Seq<char>>,
    /// What is still to be done, next first.
    pub agenda: Seq<WorkView>,
    /// The request that the caller is to perform and answer; `Finished`
    /// where none is outstanding.
    pub pending: RequestView,
}

impl LinkerView {
    /// Whether the destination blocks a link: it exists on disk, and the dry
    /// run, if this is one, has not removed it.
    pub open spec fn skips(self, link: Seq<char>, link_exists: bool) -> bool {
        link_exists && !(self.simulate && virtually_removed(self.removed, link))
    }

    /// Whether a link at the destination undoes a removal of the dry run.
    pub open spec fn reverts(self, link: Seq<char>) -> bool {
        self.simulate && virtually_removed(self.removed, link)
    }

    /// The state in which a command on `packages` starts, before the agenda
    /// is taken up. An empty batch stands for every package under the source
    /// directory, which is listed first. Work left from an earlier command is
    /// dropped; what the dry run has removed stays.
    pub open spec fn started(self, mode: Mode, packages: Seq<Seq<char>>) -> LinkerView {
        if packages.len() == 0 {
            LinkerView {
                agenda: closing(self.simulate),
                pending: RequestView::ListPackages { dir: self.dir, mode },
                ..self
            }
        } else {
            LinkerView {
                agenda: batch_work(mode, self.dir, self.target, packages) + closing(self.simulate),
                pending: RequestView::Finished,
                ..self
            }
        }
    }

    /// The state after `event`, and the notices that the event gives, before
    /// the agenda is taken up again. An event that does not answer the
    /// pending request changes nothing.
    pub open spec fn answered(self, event: EventView) -> (LinkerView, Seq<NoticeView>) {
        match (self.pending, event) {
            (RequestView::ListPackages { dir, mode }, EventView::Packages { names }) => (
                LinkerView {
                    agenda: batch_work(mode, self.dir, self.target, names) + self.agenda,
                    pending: RequestView::Finished,
                    ..self
                },
                Seq::empty(),
            ),
            (RequestView::PackageExists { package, path }, EventView::Exists { exists }) => (
                LinkerView {
                    agenda: seq![package_link(self.dir, self.target, package, exists)]
                        + self.agenda,
                    pending: RequestView::Finished,
                    ..self
                },
                Seq::empty(),
            ),
            (
                RequestView::ProbeLink { original, link },
                EventView::LinkProbe { link_exists, original_is_file },
            ) => {
                let outcome = link_step(
                    self.skips(link, link_exists),
                    self.reverts(link),
                    !self.simulate,
                    original,
                    link,
                    link_exists,
                    original_is_file,
                );
                (
                    LinkerView { pending: awaited(outcome.request), ..self },
                    announced(outcome.notice),
                )
            },
            (
                RequestView::ProbeUnlink { original, link },
                EventView::UnlinkProbe { is_symlink, target },
            ) => {
                let outcome = unlink_step(!self.simulate, original, link, is_symlink, target);
                let removed = if self.simulate && unlinks(original, link, is_symlink, target) {
                    with_removal(self.removed, link)
                } else {
                    self.removed
                };
                (
                    LinkerView { removed, pending: awaited(outcome.request), ..self },
                    announced(outcome.notice),
                )
            },
            (RequestView::ReadDir { pass, original, link }, EventView::Entries { entries }) => (
                LinkerView {
                    agenda: walked(original, link, entries, pass) + self.agenda,
                    pending: RequestView::Finished,
                    ..self
                },
                Seq::empty(),
            ),
            (RequestView::Symlink { original, link }, EventView::Performed { error }) => (
                LinkerView { pending: RequestView::Finished, ..self },
                match error {
                    Some(message) => seq![NoticeView::LinkError { message }],
                    None => Seq::empty(),
                },
            ),
            (RequestView::Remove { link }, EventView::Performed { error }) => (
                LinkerView { pending: RequestView::Finished, ..self },
                match error {
                    Some(message) => seq![NoticeView::UnlinkError { message }],
                    None => Seq::empty(),
                },
            ),
            _ => (self, Seq::empty()),
        }
    }

    /// The state after the agenda was taken up, and the notices emitted on
    /// the way. While a request is pending nothing moves. Otherwise the
    /// notices at the head of the agenda are emitted, up to the first pair of
    /// paths, whose probe becomes the pending request; with the agenda empty
    /// the run is finished.
    pub open spec fn advanced(self) -> (LinkerView, Seq<NoticeView>)
        decreases self.agenda.len(),
    {
        if !(self.pending is Finished) || self.agenda.len() == 0 {
            (self, Seq::empty())
        } else {
            let rest = LinkerView { agenda: self.agenda.drop_first(), ..self };
            match self.agenda.first() {
                WorkView::Report { notice } => {
                    let (end, emitted) = rest.advanced();
                    (end, seq![notice] + emitted)
                },
                WorkView::Package { package, path } => (
                    LinkerView { pending: RequestView::PackageExists { package, path }, ..rest },
                    Seq::empty(),
                ),
                WorkView::Link { original, link } => (
                    LinkerView { pending: RequestView::ProbeLink { original, link }, ..rest },
                    Seq::empty(),
                ),
                WorkView::Unlink { original, link } => (
                    LinkerView { pending: RequestView::ProbeUnlink { original, link }, ..rest },
                    Seq::empty(),
                ),
            }
        }
    }

    /// The state in which a command on `packages` leaves the linker, and the
    /// notices that it gives at once.
    pub open spec fn begun(self, mode: Mode, packages: Seq<Seq<char>>) -> (
        LinkerView,
        Seq<NoticeView>,
    ) {
        self.started(mode, packages).advanced()
    }

    /// One step of the linker: the state after `event`, with the agenda
    /// taken up again, and the notices in the order in which they are
    /// emitted.
    pub open spec fn stepped(self, event: EventView) -> (LinkerView, Seq<NoticeView>) {
        let (answered, first) = self.answered(event);
        let (end, then) = answered.advanced();
        (end, first + then)
    }

    /// A run: the state after one step for each of `events`, in their order,
    /// and all the notices of those steps.
    pub open spec fn ran(self, events: Seq<EventView>) -> (LinkerView, Seq<NoticeView>)
        decreases events.len(),
    {
        if events.len() == 0 {
            (self, Seq::empty())
        } else {
            let (before, told) = self.ran(events.drop_last());
            let (end, more) = before.stepped(events.last());
            (end, told + more)
        }
    }

    /// A command and the run that follows it: the state after the command on
    /// `packages` and one step for each of `events`, and everything that was
    /// reported on the way.
    pub open spec fn commanded(
        self,
        mode: Mode,
        packages: Seq<Seq<char>>,
        events: Seq<EventView>,
    ) -> (LinkerView, Seq<NoticeView>) {
        let (start, first) = self.begun(mode, packages);
        let (end, rest) = start.ran(events);
        (end, first + rest)
    }
}

} // verus!
