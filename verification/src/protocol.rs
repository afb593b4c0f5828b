//! The values that pass between a linker and the code that drives it:
//! requests for filesystem operations, the events that answer them, and the
//! notices to print.
//!
//! Each type that holds text has a view in which the text is a `Seq<char>`;
//! the contracts of the library are stated over those views.
use vstd::prelude::*;

verus! {

/// What a command does with each package.
#[derive(Clone, Copy, Debug, PartialEq, Eq)]
pub enum Mode {
    /// Link packages.
    Link,
    /// Unlink packages.
    Unlink,
    /// Relink packages: unlink, then link, package by package.
    Relink,
}

/// Which of the two reconcilers walks a tree.
#[derive(Clone, Copy, Debug, PartialEq, Eq)]
pub enum Pass {
    Link,
    Unlink,
}

/// One line of output. The wording is left to the caller; the set of notices
/// and their order are the library's.
#[derive(Clone, Debug, PartialEq, Eq)]
pub enum Notice {
    /// A named package has no directory under the source directory.
    PackageNotFound { package: String },
    /// The destination is occupied and will not be symlinked.
    FileExists { link: String },
    /// The destination has no parent directory.
    NoParent { link: String },
    /// A symlink at `link` that stores `original` is created; `reverts` marks
    /// one that undoes a removal recorded earlier in the same dry run.
    Link { link: String, original: String, reverts: bool },
    /// The symlink at `link` is removed.
    Unlink { link: String },
    /// Creating a symlink failed.
    LinkError { message: String },
    /// Removing a symlink failed.
    UnlinkError { message: String },
    /// A directory entry could not be read.
    WalkError { message: String },
    /// A directory entry does not lie under the directory it was listed in.
    NotUnder { path: String },
    /// The run was a dry run: the filesystem was not modified.
    Simulation,
}

pub ghost enum NoticeView {
    PackageNotFound { package: Seq<char> },
    FileExists { link: Seq<char> },
    NoParent { link: Seq<char> },
    Link { link: Seq<char>, original: Seq<char>, reverts: bool },
    Unlink { link: Seq<char> },
    LinkError { message: Seq<char> },
    UnlinkError { message: Seq<char> },
    WalkError { message: Seq<char> },
    NotUnder { path: Seq<char> },
    Simulation,
}

impl View for Notice {
    type V = NoticeView;

    open spec fn view(&self) -> NoticeView {
        match self {
            Notice::PackageNotFound { package } => NoticeView::PackageNotFound { package: package@ },
            Notice::FileExists { link } => NoticeView::FileExists { link: link@ },
            Notice::NoParent { link } => NoticeView::NoParent { link: link@ },
            Notice::Link { link, original, reverts } => NoticeView::Link {
                link: link@,
                original: original@,
                reverts: *reverts,
            },
            Notice::Unlink { link } => NoticeView::Unlink { link: link@ },
            Notice::LinkError { message } => NoticeView::LinkError { message: message@ },
            Notice::UnlinkError { message } => NoticeView::UnlinkError { message: message@ },
            Notice::WalkError { message } => NoticeView::WalkError { message: message@ },
            Notice::NotUnder { path } => NoticeView::NotUnder { path: path@ },
            Notice::Simulation => NoticeView::Simulation,
        }
    }
}

/// The next filesystem operation that the caller is to perform. Every
/// variant but `Symlink` and `Remove` only reads.
#[derive(Clone, Debug, PartialEq, Eq)]
pub enum Request {
    /// Nothing is left to do.
    Finished,
    /// List the names of the immediate subdirectories of `dir`; answered by
    /// `Event::Packages`.
    ListPackages { dir: String, mode: Mode },
    /// Does `path` exist? Answered by `Event::Exists`.
    PackageExists { package: String, path: String },
    /// Does anything stand at `link`, be it a symlink that leads nowhere,
    /// and is `original` a regular file? Answered by `Event::LinkProbe`.
    ProbeLink { original: String, link: String },
    /// Is `link` a symlink, and what does it store? Answered by
    /// `Event::UnlinkProbe`.
    ProbeUnlink { original: String, link: String },
    /// List the entries of the directory `original`; answered by
    /// `Event::Entries`.
    ReadDir { pass: Pass, original: String, link: String },
    /// Create a symlink at `link` that stores `original`; answered by
    /// `Event::Performed`.
    Symlink { original: String, link: String },
    /// Remove the symlink at `link`; answered by `Event::Performed`.
    Remove { link: String },
}

pub ghost enum RequestView {
    Finished,
    ListPackages { dir: Seq<char>, mode: Mode },
    PackageExists { package: Seq<char>, path: Seq<char> },
    ProbeLink { original: Seq<char>, link: Seq<char> },
    ProbeUnlink { original: Seq<char>, link: Seq<char> },
    ReadDir { pass: Pass, original: Seq<char>, link: Seq<char> },
    Symlink { original: Seq<char>, link: Seq<char> },
    Remove { link: Seq<char> },
}

impl RequestView {
    /// Whether performing the request changes the filesystem.
    pub open spec fn mutates(self) -> bool {
        self is Symlink || self is Remove
    }
}

impl View for Request {
    type V = RequestView;

    open spec fn view(&self) -> RequestView {
        match self {
            Request::Finished => RequestView::Finished,
            Request::ListPackages { dir, mode } => RequestView::ListPackages { dir: dir@, mode: *mode },
            Request::PackageExists { package, path } => RequestView::PackageExists {
                package: package@,
                path: path@,
            },
            Request::ProbeLink { original, link } => RequestView::ProbeLink {
                original: original@,
                link: link@,
            },
            Request::ProbeUnlink { original, link } => RequestView::ProbeUnlink {
                original: original@,
                link: link@,
            },
            Request::ReadDir { pass, original, link } => RequestView::ReadDir {
                pass: *pass,
                original: original@,
                link: link@,
            },
            Request::Symlink { original, link } => RequestView::Symlink {
                original: original@,
                link: link@,
            },
            Request::Remove { link } => RequestView::Remove { link: link@ },
        }
    }
}

impl Request {
    /// Whether performing the request changes the filesystem.
    pub fn is_mutation(&self) -> (mutation: bool)
        ensures
            mutation == self@.mutates(),
    {
        match self {
            Request::Symlink { .. } => true,
            Request::Remove { .. } => true,
            _ => false,
        }
    }
}

/// One entry of a directory listing: the path of the entry, or the error
/// that reading it gave.
#[derive(Clone, Debug, PartialEq, Eq)]
pub enum Entry {
    Found { path: String },
    Failed { message: String },
}

pub ghost enum EntryView {
    Found { path: Seq<char> },
    Failed { message: Seq<char> },
}

impl View for Entry {
    type V = EntryView;

    open spec fn view(&self) -> EntryView {
        match self {
            Entry::Found { path } => EntryView::Found { path: path@ },
            Entry::Failed { message } => EntryView::Failed { message: message@ },
        }
    }
}

/// What the caller observed when it performed a request.
#[derive(Clone, Debug, PartialEq, Eq)]
pub enum Event {
    /// The package names found under the source directory.
    Packages { names: Vec<String> },
    /// Whether the path exists.
    Exists { exists: bool },
    /// Whether anything stands at the destination, a symlink that leads
    /// nowhere included, and whether the source is a regular file.
    LinkProbe { link_exists: bool, original_is_file: bool },
    /// Whether the destination is a symlink and, where it could be read, what
    /// it stores.
    UnlinkProbe { is_symlink: bool, target: Option<String> },
    /// The entries of the directory, `None` where it could not be read.
    Entries { entries: Option<Vec<Entry>> },
    /// The outcome of a `Symlink` or `Remove` request: the error, if any.
    Performed { error: Option<String> },
}

pub ghost enum EventView {
    Packages { names: Seq<Seq<char>> },
    Exists { exists: bool },
    LinkProbe { link_exists: bool, original_is_file: bool },
    UnlinkProbe { is_symlink: bool, target: Option<Seq<char>> },
    Entries { entries: Option<Seq<EntryView>> },
    Performed { error: Option<Seq<char>> },
}

impl View for Event {
    type V = EventView;

    open spec fn view(&self) -> EventView {
        match self {
            Event::Packages { names } => EventView::Packages { names: texts(names@) },
            Event::Exists { exists } => EventView::Exists { exists: *exists },
            Event::LinkProbe { link_exists, original_is_file } => EventView::LinkProbe {
                link_exists: *link_exists,
                original_is_file: *original_is_file,
            },
            Event::UnlinkProbe { is_symlink, target } => EventView::UnlinkProbe {
                is_symlink: *is_symlink,
                target: option_text(*target),
            },
            Event::Entries { entries } => EventView::Entries { entries: option_entries(*entries) },
            Event::Performed { error } => EventView::Performed { error: option_text(*error) },
        }
    }
}

/// One item of a linker's agenda: a notice to emit when its turn comes, or a
/// pair of paths still to be looked at. No item stands for a change of the
/// filesystem.
#[derive(Clone, Debug, PartialEq, Eq)]
pub enum Work {
    Report { notice: Notice },
    /// Link the package at `path` if it exists.
    Package { package: String, path: String },
    /// Reconcile `original` into `link`.
    Link { original: String, link: String },
    /// Remove from `link` what points back into `original`.
    Unlink { original: String, link: String },
}

pub ghost enum WorkView {
    Report { notice: NoticeView },
    Package { package: Seq<char>, path: Seq<char> },
    Link { original: Seq<char>, link: Seq<char> },
    Unlink { original: Seq<char>, link: Seq<char> },
}

impl View for Work {
    type V = WorkView;

    open spec fn view(&self) -> WorkView {
        match self {
            Work::Report { notice } => WorkView::Report { notice: notice@ },
            Work::Package { package, path } => WorkView::Package { package: package@, path: path@ },
            Work::Link { original, link } => WorkView::Link { original: original@, link: link@ },
            Work::Unlink { original, link } => WorkView::Unlink { original: original@, link: link@ },
        }
    }
}

/// What a decision on one pair of paths comes to: at most one notice, and at
/// most one request that must be answered before the walk goes on.
#[derive(Clone, Debug, PartialEq, Eq)]
pub struct Outcome {
    pub notice: Option<Notice>,
    pub request: Option<Request>,
}

pub ghost struct OutcomeView {
    pub notice: Option<NoticeView>,
    pub request: Option<RequestView>,
}

impl View for Outcome {
    type V = OutcomeView;

    open spec fn view(&self) -> OutcomeView {
        OutcomeView { notice: option_notice(self.notice), request: option_request(self.request) }
    }
}

/// The text of each string of a list.
pub open spec fn texts(list: Seq<String>) -> Seq<Seq<char>> {
    list.map_values(|s: String| s@)
}

/// The view of each notice of a list.
pub open spec fn notices(list: Seq<Notice>) -> Seq<NoticeView> {
    list.map_values(|n: Notice| n@)
}

/// The view of each entry of a listing.
pub open spec fn entries(list: Seq<Entry>) -> Seq<EntryView> {
    list.map_values(|e: Entry| e@)
}

/// The view of each item of a list of work.
pub open spec fn works(list: Seq<Work>) -> Seq<WorkView> {
    list.map_values(|w: Work| w@)
}

pub open spec fn option_text(text: Option<String>) -> Option<Seq<char>> {
    match text {
        Some(t) => Some(t@),
        None => None,
    }
}

pub open spec fn option_notice(notice: Option<Notice>) -> Option<NoticeView> {
    match notice {
        Some(n) => Some(n@),
        None => None,
    }
}

pub open spec fn option_request(request: Option<Request>) -> Option<RequestView> {
    match request {
        Some(r) => Some(r@),
        None => None,
    }
}

pub open spec fn option_entries(listing: Option<Vec<Entry>>) -> Option<Seq<EntryView>> {
    match listing {
        Some(l) => Some(entries(l@)),
        None => None,
    }
}

} // verus!
