//! The orchestrator: links, unlinks or relinks a batch of packages, one
//! filesystem operation at a time.
//!
//! A `Linker` never touches the filesystem. It keeps an agenda of the pairs
//! of paths that are still to be looked at, names the next operation as its
//! pending request, and decides how to go on when `step` hands it what the
//! operation showed. The walk is depth first, package by package.
use crate::config::{chosen_target, given_text, LinkerConfig, LinkerConfigImpl};
use crate::link::LinkCreatorExt;
use crate::model::{announced, awaited, batch_work, closing, package_work, LinkerView};
use crate::protocol::{
    notices, texts, works, Event, Mode, Notice, NoticeView, Outcome, Request, RequestView, Work,
    WorkView,
};
use crate::real_linker::RealLinker;
use crate::simulate::SimulateLinker;
use crate::unlink::LinkRemoverExt;
use crate::utils::{join, parent, path_joined, walkdir};
use vstd::prelude::*;

verus! {

/// The two ways of treating the filesystem, chosen once when the linker is
/// built.
#[derive(Debug)]
enum Strategy {
    Real(RealLinker),
    Simulate(SimulateLinker),
}

/// The linker's state: the strategy, the agenda and the pending request.
#[derive(Debug)]
struct Machine {
    strategy: Strategy,
    /// The agenda as a stack: what is next lies on top.
    agenda: Vec<Work>,
    pending: Request,
}

/// The agenda that a stack of work stands for.
spec fn agenda_of(stack: Seq<Work>) -> Seq<WorkView> {
    Seq::new(stack.len(), |i: int| stack[stack.len() - 1 - i]@)
}

impl View for Machine {
    type V = LinkerView;

    closed spec fn view(&self) -> LinkerView {
        LinkerView {
            dir: match self.strategy {
                Strategy::Real(l) => l.dir_text(),
                Strategy::Simulate(l) => l.dir_text(),
            },
            target: match self.strategy {
                Strategy::Real(l) => l.target_text(),
                Strategy::Simulate(l) => l.target_text(),
            },
            simulate: self.strategy is Simulate,
            removed: match self.strategy {
                Strategy::Real(l) => Seq::empty(),
                Strategy::Simulate(l) => l.removed(),
            },
            agenda: agenda_of(self.agenda@),
            pending: self.pending@,
        }
    }
}

impl Machine {
    /// A machine with nothing to do.
    fn new(config: LinkerConfigImpl, simulate: bool) -> (machine: Self)
        ensures
            machine@ == (LinkerView {
                dir: config.dir@,
                target: config.target@,
                simulate,
                removed: Seq::empty(),
                agenda: Seq::empty(),
                pending: RequestView::Finished,
            }),
    {
        let strategy = if simulate {
            Strategy::Simulate(SimulateLinker::new(config))
        } else {
            Strategy::Real(RealLinker::new(config))
        };
        let machine = Self { strategy, agenda: Vec::new(), pending: Request::Finished };
        assert(machine@.agenda =~= Seq::<WorkView>::empty());
        machine
    }

    /// A machine that stands in while the linker's own is worked on.
    fn idle() -> (machine: Self)
        ensures
            !machine@.simulate,
            machine@.pending is Finished,
    {
        Machine::new(LinkerConfigImpl { dir: String::new(), target: String::new() }, false)
    }

    /// Whether this linker makes a dry run.
    fn simulate(&self) -> (simulate: bool)
        ensures
            simulate == self@.simulate,
    {
        match &self.strategy {
            Strategy::Real(_) => false,
            Strategy::Simulate(_) => true,
        }
    }

    /// The directory that holds the packages.
    fn dir(&self) -> (dir: &str)
        ensures
            dir@ == self@.dir,
    {
        match &self.strategy {
            Strategy::Real(l) => l.dir(),
            Strategy::Simulate(l) => l.dir(),
        }
    }

    /// The directory that the packages are linked into.
    fn target(&self) -> (target: &str)
        ensures
            target@ == self@.target,
    {
        match &self.strategy {
            Strategy::Real(l) => l.target(),
            Strategy::Simulate(l) => l.target(),
        }
    }

    /// Whether nothing is left to do.
    fn finished(&self) -> (finished: bool)
        ensures
            finished == (self@.pending is Finished),
    {
        match &self.pending {
            Request::Finished => true,
            _ => false,
        }
    }

    /// Starts the command that `mode` names.
    fn run(&mut self, mode: Mode, packages: &[String]) -> (emitted: Vec<Notice>)
        ensures
            final(self)@ == old(self)@.begun(mode, texts(packages@)).0,
            notices(emitted@) == old(self)@.begun(mode, texts(packages@)).1,
    {
        self.agenda = Vec::new();
        if self.simulate() {
            self.agenda.push(Work::Report { notice: Notice::Simulation });
        }
        assert(self@.agenda =~= closing(self@.simulate));
        if packages.len() == 0 {
            self.pending = Request::ListPackages { dir: self.dir().to_owned(), mode };
        } else {
            self.pending = Request::Finished;
            self.schedule_packages(mode, packages);
        }
        let mut emitted: Vec<Notice> = Vec::new();
        self.advance(&mut emitted);
        emitted
    }

    /// Takes `event` as the answer to the pending request and takes up the
    /// agenda again.
    fn step(&mut self, event: Event) -> (emitted: Vec<Notice>)
        ensures
            final(self)@ == old(self)@.stepped(event@).0,
            notices(emitted@) == old(self)@.stepped(event@).1,
    {
        let mut emitted: Vec<Notice> = Vec::new();
        self.answer(event, &mut emitted);
        self.advance(&mut emitted);
        emitted
    }

    /// Puts the work on `packages` on top of the agenda.
    fn schedule_packages(&mut self, mode: Mode, packages: &[String])
        ensures
            final(self)@ == (LinkerView {
                agenda: batch_work(
                    mode,
                    old(self)@.dir,
                    old(self)@.target,
                    texts(packages@),
                ) + old(self)@.agenda,
                ..old(self)@
            }),
    {
        let ghost names = texts(packages@);
        let ghost dir = self@.dir;
        let ghost target = self@.target;
        let mut i: usize = packages.len();
        while i > 0
            invariant
                i <= packages.len(),
                names == texts(packages@),
                dir == old(self)@.dir,
                target == old(self)@.target,
                self@ == (LinkerView {
                    agenda: batch_work(mode, dir, target, names.skip(i as int)) + old(
                        self,
                    )@.agenda,
                    ..old(self)@
                }),
            decreases i,
        {
            i -= 1;
            let package = &packages[i];
            match mode {
                Mode::Link => {
                    self.push_package(package);
                },
                Mode::Unlink => {
                    self.push_unlink(package);
                },
                Mode::Relink => {
                    self.push_package(package);
                    self.push_unlink(package);
                },
            }
            proof {
                let rest = names.skip(i as int);
                assert(rest.drop_first() =~= names.skip(i + 1));
                assert(self@.agenda =~= batch_work(mode, dir, target, rest) + old(self)@.agenda);
            }
        }
        assert(names.skip(0) =~= names);
    }

    /// Puts the link of `package` on top of the agenda.
    fn push_package(&mut self, package: &String)
        ensures
            final(self)@ == (LinkerView {
                agenda: seq![
                    WorkView::Package {
                        package: package@,
                        path: path_joined(old(self)@.dir, package@),
                    },
                ] + old(self)@.agenda,
                ..old(self)@
            }),
    {
        let path = join(self.dir(), package.as_str());
        self.push(Work::Package { package: package.clone(), path });
    }

    /// Puts the unlink of `package` on top of the agenda.
    fn push_unlink(&mut self, package: &String)
        ensures
            final(self)@ == (LinkerView {
                agenda: seq![
                    WorkView::Unlink {
                        original: path_joined(old(self)@.dir, package@),
                        link: old(self)@.target,
                    },
                ] + old(self)@.agenda,
                ..old(self)@
            }),
    {
        let work = match &self.strategy {
            Strategy::Real(l) => l._unlink(package.as_str()),
            Strategy::Simulate(l) => l._unlink(package.as_str()),
        };
        self.push(work);
    }

    /// Puts one item on top of the agenda.
    fn push(&mut self, work: Work)
        ensures
            final(self)@ == (LinkerView {
                agenda: seq![work@] + old(self)@.agenda,
                ..old(self)@
            }),
    {
        self.agenda.push(work);
        assert(self@.agenda =~= seq![work@] + old(self)@.agenda);
    }

    /// Puts `items` on top of the agenda, the first of them uppermost.
    fn schedule(&mut self, items: Vec<Work>)
        ensures
            final(self)@ == (LinkerView { agenda: works(items@) + old(self)@.agenda, ..old(self)@ }),
    {
        let mut items = items;
        let ghost all = works(items@);
        while items.len() > 0
            invariant
                self@ == (LinkerView { agenda: self@.agenda, ..old(self)@ }),
                works(items@) + self@.agenda == all + old(self)@.agenda,
            decreases items.len(),
        {
            let work = items.pop().unwrap();
            self.push(work);
        }
    }

    /// Takes up a decision: its notice is emitted and its request, if it has
    /// one, becomes the pending request.
    fn settle(&mut self, outcome: Outcome, emitted: &mut Vec<Notice>)
        requires
            old(self)@.pending is Finished,
        ensures
            final(self)@ == (LinkerView { pending: awaited(outcome@.request), ..old(self)@ }),
            notices(final(emitted)@) == notices(old(emitted)@) + announced(outcome@.notice),
    {
        let Outcome { notice, request } = outcome;
        match notice {
            Some(notice) => {
                emitted.push(notice);
            },
            None => {},
        }
        match request {
            Some(request) => {
                self.pending = request;
            },
            None => {},
        }
    }

    /// Takes `event` as the answer to the pending request.
    fn answer(&mut self, event: Event, emitted: &mut Vec<Notice>)
        requires
            old(emitted)@.len() == 0,
        ensures
            final(self)@ == old(self)@.answered(event@).0,
            notices(final(emitted)@) == old(self)@.answered(event@).1,
    {
        let mut pending = Request::Finished;
        std::mem::swap(&mut self.pending, &mut pending);
        match (pending, event) {
            (Request::ListPackages { mode, .. }, Event::Packages { names }) => {
                self.schedule_packages(mode, names.as_slice());
            },
            (Request::PackageExists { package, .. }, Event::Exists { exists }) => {
                let work = match &self.strategy {
                    Strategy::Real(l) => l._link(package.as_str(), exists),
                    Strategy::Simulate(l) => l._link(package.as_str(), exists),
                };
                self.push(work);
            },
            (
                Request::ProbeLink { original, link },
                Event::LinkProbe { link_exists, original_is_file },
            ) => {
                let outcome = match &self.strategy {
                    Strategy::Real(l) => l.link_tree(
                        original.as_str(),
                        link.as_str(),
                        link_exists,
                        original_is_file,
                    ),
                    Strategy::Simulate(l) => l.link_tree(
                        original.as_str(),
                        link.as_str(),
                        link_exists,
                        original_is_file,
                    ),
                };
                self.settle(outcome, emitted);
            },
            (
                Request::ProbeUnlink { original, link },
                Event::UnlinkProbe { is_symlink, target },
            ) => {
                let outcome = match &mut self.strategy {
                    Strategy::Real(l) => l.unlink_tree(
                        original.as_str(),
                        link.as_str(),
                        is_symlink,
                        &target,
                    ),
                    Strategy::Simulate(l) => l.unlink_tree(
                        original.as_str(),
                        link.as_str(),
                        is_symlink,
                        &target,
                    ),
                };
                self.settle(outcome, emitted);
            },
            (Request::ReadDir { pass, original, link }, Event::Entries { entries }) => {
                let pairs = walkdir(original.as_str(), link.as_str(), &entries, pass);
                self.schedule(pairs);
            },
            (Request::Symlink { .. }, Event::Performed { error }) => {
                match error {
                    Some(message) => {
                        emitted.push(Notice::LinkError { message });
                    },
                    None => {},
                }
            },
            (Request::Remove { .. }, Event::Performed { error }) => {
                match error {
                    Some(message) => {
                        emitted.push(Notice::UnlinkError { message });
                    },
                    None => {},
                }
            },
            (pending, _) => {
                self.pending = pending;
            },
        }
    }

    /// Takes up the agenda until a request is pending or nothing is left.
    fn advance(&mut self, emitted: &mut Vec<Notice>)
        ensures
            final(self)@ == old(self)@.advanced().0,
            notices(final(emitted)@) == notices(old(emitted)@) + old(self)@.advanced().1,
    {
        loop
            invariant
                self@.advanced().0 == old(self)@.advanced().0,
                notices(emitted@) + self@.advanced().1 == notices(old(emitted)@) + old(
                    self,
                )@.advanced().1,
            ensures
                self@ == old(self)@.advanced().0,
                notices(emitted@) == notices(old(emitted)@) + old(self)@.advanced().1,
            decreases self.agenda.len(),
        {
            if !self.finished() {
                break;
            }
            let ghost before = self@;
            let work = match self.agenda.pop() {
                Some(work) => work,
                None => {
                    break;
                },
            };
            assert(self@.agenda =~= before.agenda.drop_first());
            match work {
                Work::Report { notice } => {
                    emitted.push(notice);
                },
                Work::Package { package, path } => {
                    self.pending = Request::PackageExists { package, path };
                    break;
                },
                Work::Link { original, link } => {
                    self.pending = Request::ProbeLink { original, link };
                    break;
                },
                Work::Unlink { original, link } => {
                    self.pending = Request::ProbeUnlink { original, link };
                    break;
                },
            }
        }
    }
}

/// The orchestrator of one command. It is built once for the command, and
/// with it the record of what a dry run has removed.
#[derive(Debug)]
pub struct Linker {
    machine: Machine,
}

impl View for Linker {
    type V = LinkerView;

    closed spec fn view(&self) -> LinkerView {
        self.machine@
    }
}

impl Linker {
    /// In a dry run the pending request never changes the filesystem.
    #[verifier::type_invariant]
    closed spec fn dry_run_reads(self) -> bool {
        self.machine@.simulate ==> !self.machine@.pending.mutates()
    }

    /// Builds a linker from what the caller resolved on disk.
    ///
    /// `dir` is the source directory in canonical form (the one given, or the
    /// current directory), `None` where it could not be resolved. `target` is
    /// `None` where no target was given, which selects the parent of the
    /// source directory, and else the target in canonical form, `None` where
    /// that could not be resolved.
    pub fn build(dir: Option<String>, target: Option<Option<String>>, simulate: bool) -> (built:
        Result<Self, String>)
        ensures
            match built {
                Ok(linker) => {
                    &&& dir is Some
                    &&& chosen_target(dir.unwrap()@, given_text(target)) is Some
                    &&& linker@ == (LinkerView {
                        dir: dir.unwrap()@,
                        target: chosen_target(dir.unwrap()@, given_text(target)).unwrap(),
                        simulate,
                        removed: Seq::empty(),
                        agenda: Seq::empty(),
                        pending: RequestView::Finished,
                    })
                },
                Err(message) => if dir is None {
                    message@ == "Failed to get DIR"@
                } else {
                    &&& chosen_target(dir.unwrap()@, given_text(target)) is None
                    &&& message@ == "Failed to get TARGET"@
                },
            },
    {
        let known = match &dir {
            None => {
                return Err("Failed to get DIR".to_owned());
            },
            Some(dir) => match &target {
                Some(found) => found.is_some(),
                None => parent(dir.as_str()).is_some(),
            },
        };
        if !known {
            return Err("Failed to get TARGET".to_owned());
        }
        let config = LinkerConfigImpl::new(dir, target);
        Ok(Self { machine: Machine::new(config, simulate) })
    }

    /// Whether this linker makes a dry run.
    pub fn simulate(&self) -> (simulate: bool)
        ensures
            simulate == self@.simulate,
    {
        self.machine.simulate()
    }

    /// The directory that holds the packages.
    pub fn dir(&self) -> (dir: &str)
        ensures
            dir@ == self@.dir,
    {
        self.machine.dir()
    }

    /// The directory that the packages are linked into.
    pub fn target(&self) -> (target: &str)
        ensures
            target@ == self@.target,
    {
        self.machine.target()
    }

    /// The filesystem operation that the caller is to perform next, and to
    /// answer by a call of `step`. In a dry run it never changes the
    /// filesystem.
    pub fn request(&self) -> (request: &Request)
        ensures
            request@ == self@.pending,
            self@.simulate ==> !request@.mutates(),
    {
        proof {
            use_type_invariant(self);
        }
        &self.machine.pending
    }

    /// Whether nothing is left to do.
    pub fn finished(&self) -> (finished: bool)
        ensures
            finished == (self@.pending is Finished),
    {
        self.machine.finished()
    }

    /// Starts linking `packages`, or every package where the batch is empty.
    pub fn link(&mut self, packages: &[String]) -> (emitted: Vec<Notice>)
        ensures
            final(self)@ == old(self)@.begun(Mode::Link, texts(packages@)).0,
            notices(emitted@) == old(self)@.begun(Mode::Link, texts(packages@)).1,
    {
        self.run(Mode::Link, packages)
    }

    /// Starts unlinking `packages`, or every package where the batch is
    /// empty.
    pub fn unlink(&mut self, packages: &[String]) -> (emitted: Vec<Notice>)
        ensures
            final(self)@ == old(self)@.begun(Mode::Unlink, texts(packages@)).0,
            notices(emitted@) == old(self)@.begun(Mode::Unlink, texts(packages@)).1,
    {
        self.run(Mode::Unlink, packages)
    }

    /// Starts relinking `packages`, or every package where the batch is
    /// empty: each package is unlinked and then linked before the next one
    /// is taken up.
    pub fn relink(&mut self, packages: &[String]) -> (emitted: Vec<Notice>)
        ensures
            final(self)@ == old(self)@.begun(Mode::Relink, texts(packages@)).0,
            notices(emitted@) == old(self)@.begun(Mode::Relink, texts(packages@)).1,
    {
        self.run(Mode::Relink, packages)
    }

    /// Starts the command that `mode` names. The notices that come back are
    /// to be printed, and the pending request performed and answered by
    /// `step`, until the linker is finished.
    pub fn run(&mut self, mode: Mode, packages: &[String]) -> (emitted: Vec<Notice>)
        ensures
            final(self)@ == old(self)@.begun(mode, texts(packages@)).0,
            notices(emitted@) == old(self)@.begun(mode, texts(packages@)).1,
    {
        let mut machine = Machine::idle();
        std::mem::swap(&mut self.machine, &mut machine);
        let emitted = machine.run(mode, packages);
        proof {
            if old(self)@.simulate {
                old(self)@.dry_run_starts_reading(mode, texts(packages@));
            } else {
                old(self)@.started(mode, texts(packages@)).advanced_reads();
            }
        }
        std::mem::swap(&mut self.machine, &mut machine);
        emitted
    }

    /// Takes `event` as the answer to the pending request, decides how the
    /// walk goes on, and returns the notices to print. Afterwards the
    /// pending request is the next operation to perform.
    pub fn step(&mut self, event: Event) -> (emitted: Vec<Notice>)
        ensures
            final(self)@ == old(self)@.stepped(event@).0,
            notices(emitted@) == old(self)@.stepped(event@).1,
    {
        proof {
            use_type_invariant(&*self);
        }
        let mut machine = Machine::idle();
        std::mem::swap(&mut self.machine, &mut machine);
        let emitted = machine.step(event);
        proof {
            if old(self)@.simulate {
                old(self)@.dry_run_never_mutates(event@);
            } else {
                old(self)@.answered(event@).0.advanced_reads();
            }
        }
        std::mem::swap(&mut self.machine, &mut machine);
        emitted
    }
}

} // verus!
