//! What holds of every linker, proved from the state machine of `model`.
use crate::link::stored_target;
use crate::model::{batch_work, package_work, LinkerView};
use crate::protocol::{EventView, Mode, NoticeView, Pass, RequestView, WorkView};
use crate::simulate::{each_once, lemma_removal_keeps_once, virtually_removed, with_removal};
use crate::unlink::owned;
use crate::utils::{path_parent, path_same, resolved};
use vstd::prelude::*;

verus! {

/// Whether none of the notices reports a conflict.
pub open spec fn no_conflict(emitted: Seq<NoticeView>) -> bool {
    forall|i: int| 0 <= i < emitted.len() ==> !(#[trigger] emitted[i] is FileExists)
}

/// Whether none of the notices reports the removal of a symlink.
pub open spec fn no_removal(emitted: Seq<NoticeView>) -> bool {
    forall|i: int| 0 <= i < emitted.len() ==> !(#[trigger] emitted[i] is Unlink)
}

/// Whether no conflict is reported for a destination whose removal was
/// reported before.
pub open spec fn no_false_conflict(trace: Seq<NoticeView>) -> bool {
    forall|i: int, j: int|
        #![trigger trace[i], trace[j]]
        0 <= i < j < trace.len() && trace[i] is Unlink && trace[j] is FileExists
            ==> trace[i]->Unlink_link != trace[j]->FileExists_link
}

/// Whether an item of the agenda reports neither a conflict nor a removal:
/// those two are only ever reported as the answer to a probe.
spec fn asks(work: WorkView) -> bool {
    work is Report ==> !(work->notice is FileExists) && !(work->notice is Unlink)
}

/// Whether every item of the agenda is of that kind.
spec fn asking(agenda: Seq<WorkView>) -> bool {
    forall|i: int| 0 <= i < agenda.len() ==> asks(#[trigger] agenda[i])
}

/// The invariant of a dry run: every removal that was reported is on
/// record, and no conflict was reported for a destination after its removal.
spec fn recording(state: LinkerView, trace: Seq<NoticeView>) -> bool {
    &&& state.simulate
    &&& asking(state.agenda)
    &&& forall|i: int|
        0 <= i < trace.len() && (#[trigger] trace[i]) is Unlink ==> virtually_removed(
            state.removed,
            trace[i]->Unlink_link,
        )
    &&& no_false_conflict(trace)
}

/// Whether every probe of a destination among the events found it
/// occupied, as the probes of a package do that was linked before.
pub open spec fn all_occupied(events: Seq<EventView>) -> bool {
    forall|k: int|
        0 <= k < events.len() && (#[trigger] events[k]) is LinkProbe ==> events[k]->link_exists
}

/// Whether a notice goes with no change of the filesystem: it reports a
/// conflict, a package that is missing, or an entry that could not be paired.
pub open spec fn reports_no_change(notice: NoticeView) -> bool {
    notice is FileExists || notice is PackageNotFound || notice is WalkError || notice is NotUnder
}

/// Whether every notice is of that kind.
pub open spec fn report_no_change(trace: Seq<NoticeView>) -> bool {
    forall|i: int| 0 <= i < trace.len() ==> reports_no_change(#[trigger] trace[i])
}

/// Whether an item of the agenda belongs to a real run that links.
spec fn links(work: WorkView) -> bool {
    match work {
        WorkView::Report { notice } => reports_no_change(notice),
        WorkView::Package { .. } => true,
        WorkView::Link { .. } => true,
        WorkView::Unlink { .. } => false,
    }
}

/// The invariant of a real run that links and finds every destination
/// occupied: nothing on the agenda unlinks, the pending request only reads,
/// and no notice so far tells of a change.
spec fn relinking(state: LinkerView, trace: Seq<NoticeView>) -> bool {
    &&& !state.simulate
    &&& forall|i: int| 0 <= i < state.agenda.len() ==> links(#[trigger] state.agenda[i])
    &&& match state.pending {
        RequestView::Finished => true,
        RequestView::ListPackages { mode, .. } => mode == Mode::Link,
        RequestView::PackageExists { .. } => true,
        RequestView::ProbeLink { .. } => true,
        RequestView::ReadDir { pass, .. } => pass == Pass::Link,
        _ => false,
    }
    &&& report_no_change(trace)
}

impl LinkerView {
    /// Taking up the agenda changes neither the directories nor the mode nor
    /// what the dry run has removed, and it never leaves a request pending
    /// that changes the filesystem, unless one was pending before.
    pub proof fn advanced_reads(self)
        ensures
            self.advanced().0.dir == self.dir,
            self.advanced().0.target == self.target,
            self.advanced().0.simulate == self.simulate,
            self.advanced().0.removed == self.removed,
            self.advanced().0.pending.mutates() ==> self.pending.mutates(),
        decreases self.agenda.len(),
    {
        if self.pending is Finished && self.agenda.len() > 0 {
            if self.agenda.first() is Report {
                let rest = LinkerView { agenda: self.agenda.drop_first(), ..self };
                rest.advanced_reads();
            }
        }
    }

    /// A dry run changes nothing. If the pending request of a dry run only
    /// reads, then so does the request that is pending after a step, whatever
    /// the event; and the run is still a dry run.
    pub proof fn dry_run_never_mutates(self, event: EventView)
        requires
            self.simulate,
            !self.pending.mutates(),
        ensures
            self.stepped(event).0.simulate,
            !self.stepped(event).0.pending.mutates(),
    {
        self.answered(event).0.advanced_reads();
    }

    /// A command in a dry run starts with a request that only reads,
    /// whatever state an earlier command left.
    pub proof fn dry_run_starts_reading(self, mode: Mode, packages: Seq<Seq<char>>)
        requires
            self.simulate,
        ensures
            self.begun(mode, packages).0.simulate,
            !self.begun(mode, packages).0.pending.mutates(),
    {
        self.started(mode, packages).advanced_reads();
    }

    /// An occupied destination is never replaced. A step leaves the request
    /// to create a symlink pending only as its answer to a probe that found
    /// nothing at the destination, and never in a dry run. So a package that
    /// is linked again creates nothing where the first run put its links.
    pub proof fn creation_needs_free_destination(self, event: EventView)
        requires
            !(self.pending is Symlink),
            self.stepped(event).0.pending is Symlink,
        ensures
            !self.simulate,
            self.pending is ProbeLink,
            event is LinkProbe,
            !event->link_exists,
            path_parent(self.pending->ProbeLink_link) is Some,
            self.stepped(event).0.pending == (RequestView::Symlink {
                original: stored_target(
                    self.pending->ProbeLink_original,
                    path_parent(self.pending->ProbeLink_link).unwrap(),
                ),
                link: self.pending->ProbeLink_link,
            }),
    {
        self.answered(event).0.advanced_reads();
    }

    /// In real mode a destination that exists is left as it is: the probe
    /// that finds it leads to no request that changes the filesystem, and a
    /// leaf is met with the conflict notice.
    pub proof fn occupied_destination_is_kept(
        self,
        original: Seq<char>,
        link: Seq<char>,
        original_is_file: bool,
    )
        requires
            !self.simulate,
            self.pending == (RequestView::ProbeLink { original, link }),
        ensures
            ({
                let event = EventView::LinkProbe { link_exists: true, original_is_file };
                &&& !self.stepped(event).0.pending.mutates()
                &&& original_is_file ==> self.answered(event).1 == seq![
                    NoticeView::FileExists { link },
                ]
                &&& !original_is_file ==> self.answered(event).0.pending == (RequestView::ReadDir {
                    pass: Pass::Link,
                    original,
                    link,
                })
            }),
    {
        let event = EventView::LinkProbe { link_exists: true, original_is_file };
        self.answered(event).0.advanced_reads();
    }

    /// Foreign symlinks are never touched. A step leaves the request to
    /// remove a symlink pending only as its answer to a probe that showed a
    /// symlink whose stored target resolves to the very source path that the
    /// walk paired with it; and a dry run records a removal on no other
    /// occasion.
    pub proof fn removal_needs_ownership(self, event: EventView)
        requires
            !(self.pending is Remove),
            self.stepped(event).0.pending is Remove || self.stepped(event).0.removed
                != self.removed,
        ensures
            self.pending is ProbeUnlink,
            event is UnlinkProbe,
            event->is_symlink,
            owned(
                self.pending->ProbeUnlink_original,
                self.pending->ProbeUnlink_link,
                event->target,
            ),
            if self.simulate {
                &&& self.stepped(event).0.removed == with_removal(
                    self.removed,
                    self.pending->ProbeUnlink_link,
                )
                &&& !self.stepped(event).0.pending.mutates()
            } else {
                &&& self.stepped(event).0.removed == self.removed
                &&& self.stepped(event).0.pending == (RequestView::Remove {
                    link: self.pending->ProbeUnlink_link,
                })
            },
    {
        self.answered(event).0.advanced_reads();
    }

    /// A symlink that is not owned stays: where the stored target of the
    /// symlink at the destination does not resolve to the source path, the
    /// step gives no request that changes the filesystem and no notice of a
    /// removal, records nothing, and goes on with the agenda.
    pub proof fn foreign_link_is_kept(
        self,
        original: Seq<char>,
        link: Seq<char>,
        target: Option<Seq<char>>,
    )
        requires
            self.pending == (RequestView::ProbeUnlink { original, link }),
            !owned(original, link, target),
        ensures
            ({
                let event = EventView::UnlinkProbe { is_symlink: true, target };
                &&& !self.stepped(event).0.pending.mutates()
                &&& self.stepped(event).0.removed == self.removed
                &&& self.answered(event).0.pending is Finished
                &&& no_removal(self.answered(event).1)
            }),
    {
        let event = EventView::UnlinkProbe { is_symlink: true, target };
        self.answered(event).0.advanced_reads();
    }

    /// What the link reconciler creates, the unlink reconciler removes.
    /// Take a pair of paths for which a real run creates a symlink, and let
    /// the path that the symlink stores lead back to the source when it is
    /// resolved against the directory of the destination. Then a later probe
    /// of the same pair that shows this symlink is answered by the notice of
    /// its removal and the request to remove it.
    pub proof fn created_link_is_removed(
        self,
        later: LinkerView,
        original: Seq<char>,
        link: Seq<char>,
        original_is_file: bool,
    )
        requires
            !self.simulate,
            !later.simulate,
            self.pending == (RequestView::ProbeLink { original, link }),
            later.pending == (RequestView::ProbeUnlink { original, link }),
            path_parent(link) is Some,
            path_same(
                resolved(
                    stored_target(original, path_parent(link).unwrap()),
                    path_parent(link).unwrap(),
                ),
                original,
            ),
        ensures
            ({
                let stored = stored_target(original, path_parent(link).unwrap());
                let found = EventView::LinkProbe { link_exists: false, original_is_file };
                let shown = EventView::UnlinkProbe { is_symlink: true, target: Some(stored) };
                &&& self.answered(found).0.pending == (RequestView::Symlink {
                    original: stored,
                    link,
                })
                &&& later.answered(shown) == (
                    LinkerView { pending: RequestView::Remove { link }, ..later },
                    seq![NoticeView::Unlink { link }],
                )
            }),
    {
    }

    /// What a dry run has removed stays removed for the rest of the
    /// command, whatever happens.
    pub proof fn virtual_removal_persists(self, event: EventView, link: Seq<char>)
        requires
            virtually_removed(self.removed, link),
        ensures
            virtually_removed(self.stepped(event).0.removed, link),
    {
        self.answered(event).0.advanced_reads();
        if self.answered(event).0.removed != self.removed {
            lemma_removal_keeps_once(self.removed, self.pending->ProbeUnlink_link);
        }
    }

    /// No destination ever stands twice on the record of a dry run.
    pub proof fn record_holds_each_destination_once(self, event: EventView)
        requires
            each_once(self.removed),
        ensures
            each_once(self.stepped(event).0.removed),
    {
        self.answered(event).0.advanced_reads();
        if self.answered(event).0.removed != self.removed {
            lemma_removal_keeps_once(self.removed, self.pending->ProbeUnlink_link);
        }
    }

    /// The removal of an owned symlink in a dry run is recorded at once.
    pub proof fn dry_run_records_removal(
        self,
        original: Seq<char>,
        link: Seq<char>,
        target: Option<Seq<char>>,
    )
        requires
            self.simulate,
            self.pending == (RequestView::ProbeUnlink { original, link }),
            owned(original, link, target),
        ensures
            ({
                let event = EventView::UnlinkProbe { is_symlink: true, target };
                &&& self.answered(event).1 == seq![NoticeView::Unlink { link }]
                &&& virtually_removed(self.stepped(event).0.removed, link)
            }),
    {
        let event = EventView::UnlinkProbe { is_symlink: true, target };
        self.answered(event).0.advanced_reads();
        lemma_removal_keeps_once(self.removed, link);
    }

    /// A dry run treats what it has removed as absent. Where the destination
    /// of a link was removed earlier in the same dry run, the decision on it
    /// is the one that a real run takes on a destination that is gone,
    /// whatever the disk still shows there and whether the source is a file
    /// or a directory: the pair is a leaf, the link is announced and marked
    /// as undoing the removal, no conflict is reported, and the source is not
    /// listed, so that nothing beneath the destination is looked at.
    pub proof fn removed_destination_never_conflicts(
        self,
        original: Seq<char>,
        link: Seq<char>,
        link_exists: bool,
        original_is_file: bool,
    )
        requires
            self.simulate,
            self.pending == (RequestView::ProbeLink { original, link }),
            virtually_removed(self.removed, link),
        ensures
            ({
                let event = EventView::LinkProbe { link_exists, original_is_file };
                &&& self.answered(event).0 == (LinkerView {
                    pending: RequestView::Finished,
                    ..self
                })
                &&& self.answered(event).1 == seq![
                    match path_parent(link) {
                        Some(parent) => NoticeView::Link {
                            link,
                            original: stored_target(original, parent),
                            reverts: true,
                        },
                        None => NoticeView::NoParent { link },
                    },
                ]
                &&& no_conflict(self.answered(event).1)
            }),
    {
    }

    /// A dry run of a relink decides on a removed destination as the real
    /// run does. Take the probe of a destination that the dry run has
    /// removed, and the same probe in a real run, where the removal took
    /// place and the destination is gone. Both leave the same agenda, and
    /// the notice of the dry run differs from that of the real run in the
    /// mark of the undone removal alone.
    pub proof fn removed_destination_is_linked_as_in_real_run(
        self,
        original: Seq<char>,
        link: Seq<char>,
        link_exists: bool,
        original_is_file: bool,
    )
        requires
            self.simulate,
            self.pending == (RequestView::ProbeLink { original, link }),
            virtually_removed(self.removed, link),
        ensures
            ({
                let real_run = LinkerView { simulate: false, ..self };
                let seen = EventView::LinkProbe { link_exists, original_is_file };
                let gone = EventView::LinkProbe { link_exists: false, original_is_file };
                let (dry, told) = self.answered(seen);
                let (wet, shown) = real_run.answered(gone);
                &&& dry.agenda == wet.agenda
                &&& dry.pending is Finished
                &&& !(wet.pending is ReadDir)
                &&& told.len() == 1 && shown.len() == 1
                &&& told[0] == match shown[0] {
                    NoticeView::Link { link, original, reverts } => NoticeView::Link {
                        link,
                        original,
                        reverts: true,
                    },
                    other => other,
                }
            }),
    {
    }

    /// A dry run decides as a real run does. On the same pending request
    /// and the same event, a dry run that has not removed the destination in
    /// question gives the notices of the real run and the same agenda; it
    /// differs only in that a request which would change the filesystem is
    /// left out, so that the agenda is taken up at once.
    pub proof fn dry_run_decides_as_real_run(self, event: EventView)
        requires
            self.simulate,
            !self.pending.mutates(),
            self.pending is ProbeLink ==> !virtually_removed(
                self.removed,
                self.pending->ProbeLink_link,
            ),
        ensures
            ({
                let real_run = LinkerView { simulate: false, ..self };
                let (dry, told) = self.answered(event);
                let (wet, shown) = real_run.answered(event);
                &&& told == shown
                &&& dry.agenda == wet.agenda
                &&& dry.pending == if wet.pending.mutates() {
                    RequestView::Finished
                } else {
                    wet.pending
                }
            }),
    {
    }

    /// A dry run changes nothing, from the command to its end: whatever the
    /// events, the request that is pending after a command and any number of
    /// steps only reads.
    pub proof fn dry_run_only_reads(
        self,
        mode: Mode,
        packages: Seq<Seq<char>>,
        events: Seq<EventView>,
    )
        requires
            self.simulate,
        ensures
            self.commanded(mode, packages, events).0.simulate,
            !self.commanded(mode, packages, events).0.pending.mutates(),
        decreases events.len(),
    {
        if events.len() == 0 {
            self.dry_run_starts_reading(mode, packages);
        } else {
            self.dry_run_only_reads(mode, packages, events.drop_last());
            let before = self.begun(mode, packages).0.ran(events.drop_last()).0;
            before.dry_run_never_mutates(events.last());
        }
    }

    /// A dry run reports no false conflict, from the command to its end.
    /// Among all the notices of a command in a dry run and of the steps that
    /// follow it, whatever the events, no conflict is reported for a
    /// destination whose removal was reported before.
    pub proof fn dry_run_reports_no_false_conflict(
        self,
        mode: Mode,
        packages: Seq<Seq<char>>,
        events: Seq<EventView>,
    )
        requires
            self.simulate,
        ensures
            no_false_conflict(self.commanded(mode, packages, events).1),
    {
        self.dry_run_keeps_record(mode, packages, events);
    }

    /// Linking again changes nothing. Take a real run of `link`, on any
    /// packages and from any state, in which every probe of a destination
    /// finds it occupied, as it is where an earlier run has put its links.
    /// Then, whatever else the events show, the run never asks for a change
    /// of the filesystem and announces no link: every notice is a conflict
    /// or a warning. Since the hypothesis holds of every prefix of the
    /// events, this holds at every step of the run.
    pub proof fn linking_again_changes_nothing(
        self,
        packages: Seq<Seq<char>>,
        events: Seq<EventView>,
    )
        requires
            !self.simulate,
            all_occupied(events),
        ensures
            !self.commanded(Mode::Link, packages, events).0.pending.mutates(),
            report_no_change(self.commanded(Mode::Link, packages, events).1),
    {
        self.linking_again_keeps_reading(packages, events);
    }

    /// The invariant of a real run that links again.
    proof fn linking_again_keeps_reading(self, packages: Seq<Seq<char>>, events: Seq<EventView>)
        requires
            !self.simulate,
            all_occupied(events),
        ensures
            relinking(
                self.commanded(Mode::Link, packages, events).0,
                self.commanded(Mode::Link, packages, events).1,
            ),
        decreases events.len(),
    {
        if events.len() == 0 {
            lemma_batch_links(self.dir, self.target, packages);
            self.started(Mode::Link, packages).taking_up_keeps_reading(Seq::empty());
        } else {
            self.linking_again_keeps_reading(packages, events.drop_last());
            let (begun, first) = self.begun(Mode::Link, packages);
            let (before, told) = begun.ran(events.drop_last());
            before.step_keeps_reading(first + told, events.last());
        }
    }

    /// Taking up the agenda keeps the invariant of a real run that links
    /// again.
    proof fn taking_up_keeps_reading(self, trace: Seq<NoticeView>)
        requires
            relinking(self, trace),
        ensures
            relinking(self.advanced().0, trace + self.advanced().1),
        decreases self.agenda.len(),
    {
        if self.pending is Finished && self.agenda.len() > 0 {
            let rest = LinkerView { agenda: self.agenda.drop_first(), ..self };
            assert(links(self.agenda[0]));
            assert forall|i: int| 0 <= i < rest.agenda.len() implies links(
                #[trigger] rest.agenda[i],
            ) by {
                assert(rest.agenda[i] == self.agenda[i + 1]);
            }
            match self.agenda.first() {
                WorkView::Report { notice } => {
                    let longer = trace.push(notice);
                    assert(relinking(rest, longer));
                    rest.taking_up_keeps_reading(longer);
                    assert(longer + rest.advanced().1 =~= trace + self.advanced().1);
                },
                _ => {
                    assert(trace + self.advanced().1 =~= trace);
                },
            }
        } else {
            assert(trace + self.advanced().1 =~= trace);
        }
    }

    /// A step that finds the destination occupied keeps the invariant of a
    /// real run that links again.
    proof fn step_keeps_reading(self, trace: Seq<NoticeView>, event: EventView)
        requires
            relinking(self, trace),
            event is LinkProbe ==> event->link_exists,
        ensures
            relinking(self.stepped(event).0, trace + self.stepped(event).1),
    {
        let (next, told) = self.answered(event);
        let longer = trace + told;
        assert(relinking(next, longer)) by {
            match (self.pending, event) {
                (RequestView::ListPackages { dir, mode }, EventView::Packages { names }) => {
                    lemma_batch_links(self.dir, self.target, names);
                },
                _ => {},
            }
            assert forall|i: int| 0 <= i < next.agenda.len() implies links(
                #[trigger] next.agenda[i],
            ) by {
                let added = next.agenda.len() - self.agenda.len();
                if i >= added {
                    assert(next.agenda[i] == self.agenda[i - added]);
                }
            }
            assert forall|i: int| 0 <= i < longer.len() implies reports_no_change(
                #[trigger] longer[i],
            ) by {
                if i < trace.len() {
                    assert(longer[i] == trace[i]);
                } else {
                    assert(longer[i] == told[i - trace.len()]);
                }
            }
        }
        next.taking_up_keeps_reading(longer);
        assert(longer + next.advanced().1 =~= trace + self.stepped(event).1);
    }

    /// The invariant of a dry run, from which the absence of false
    /// conflicts follows.
    proof fn dry_run_keeps_record(
        self,
        mode: Mode,
        packages: Seq<Seq<char>>,
        events: Seq<EventView>,
    )
        requires
            self.simulate,
        ensures
            recording(
                self.commanded(mode, packages, events).0,
                self.commanded(mode, packages, events).1,
            ),
        decreases events.len(),
    {
        if events.len() == 0 {
            lemma_batch_asks(mode, self.dir, self.target, packages);
            self.started(mode, packages).taking_up_keeps_record(Seq::empty());
        } else {
            self.dry_run_keeps_record(mode, packages, events.drop_last());
            let (begun, first) = self.begun(mode, packages);
            let (before, told) = begun.ran(events.drop_last());
            before.step_keeps_record(first + told, events.last());
        }
    }

    /// Taking up the agenda keeps the invariant of a dry run.
    proof fn taking_up_keeps_record(self, trace: Seq<NoticeView>)
        requires
            recording(self, trace),
        ensures
            recording(self.advanced().0, trace + self.advanced().1),
        decreases self.agenda.len(),
    {
        if self.pending is Finished && self.agenda.len() > 0 {
            let rest = LinkerView { agenda: self.agenda.drop_first(), ..self };
            assert(asking(rest.agenda));
            match self.agenda.first() {
                WorkView::Report { notice } => {
                    let longer = trace.push(notice);
                    assert(recording(rest, longer));
                    rest.taking_up_keeps_record(longer);
                    assert(longer + rest.advanced().1 =~= trace + self.advanced().1);
                },
                _ => {},
            }
        }
    }

    /// A step keeps the invariant of a dry run.
    proof fn step_keeps_record(self, trace: Seq<NoticeView>, event: EventView)
        requires
            recording(self, trace),
        ensures
            recording(self.stepped(event).0, trace + self.stepped(event).1),
    {
        let (next, told) = self.answered(event);
        let longer = trace + told;
        assert(recording(next, longer)) by {
            match (self.pending, event) {
                (RequestView::ListPackages { dir, mode }, EventView::Packages { names }) => {
                    lemma_batch_asks(mode, self.dir, self.target, names);
                },
                _ => {},
            }
            assert(asking(next.agenda));
            if next.removed != self.removed {
                lemma_removal_keeps_once(self.removed, self.pending->ProbeUnlink_link);
            }
            assert forall|i: int| 0 <= i < longer.len() && longer[i] is Unlink implies virtually_removed(
            next.removed, longer[i]->Unlink_link) by {
                if i < trace.len() {
                    assert(longer[i] == trace[i]);
                }
            }
            assert(no_false_conflict(longer));
        }
        next.taking_up_keeps_record(longer);
        assert(longer + next.advanced().1 =~= trace + self.stepped(event).1);
    }
}

/// The work on a batch of packages holds no notice at all.
proof fn lemma_batch_asks(mode: Mode, dir: Seq<char>, target: Seq<char>, packages: Seq<Seq<char>>)
    ensures
        asking(batch_work(mode, dir, target, packages)),
    decreases packages.len(),
{
    if packages.len() > 0 {
        lemma_batch_asks(mode, dir, target, packages.drop_first());
        let first = package_work(mode, dir, target, packages.first());
        let rest = batch_work(mode, dir, target, packages.drop_first());
        assert(asking(first + rest));
    }
}

/// The work on a batch of packages that are linked holds nothing that
/// unlinks.
proof fn lemma_batch_links(dir: Seq<char>, target: Seq<char>, packages: Seq<Seq<char>>)
    ensures
        forall|i: int|
            0 <= i < batch_work(Mode::Link, dir, target, packages).len() ==> links(
                #[trigger] batch_work(Mode::Link, dir, target, packages)[i],
            ),
    decreases packages.len(),
{
    if packages.len() > 0 {
        lemma_batch_links(dir, target, packages.drop_first());
        let first = package_work(Mode::Link, dir, target, packages.first());
        let rest = batch_work(Mode::Link, dir, target, packages.drop_first());
        assert forall|i: int| 0 <= i < (first + rest).len() implies links(
            #[trigger] (first + rest)[i],
        ) by {
            if i >= first.len() {
                assert((first + rest)[i] == rest[i - first.len()]);
            }
        }
    }
}

} // verus!
