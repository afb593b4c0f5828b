//! Lexical path arithmetic and the tree walker.
//!
//! Paths are held as text. What `std::path`, `path_clean` and `pathdiff`
//! compute from them is not proved here: each of their results has a name,
//! and the contracts of the library speak of those names.
use crate::protocol::{
    entries, option_entries, option_text, works, Entry, EntryView, Notice, NoticeView, Pass, Work,
    WorkView,
};
use vstd::prelude::*;

verus! {

/// The text of `Path::new(base).join(path)`.
pub uninterp spec fn path_joined(base: Seq<char>, path: Seq<char>) -> Seq<char>;

/// The text of `Path::new(path).parent()`, `None` where the path ends in a
/// root or is empty.
pub uninterp spec fn path_parent(path: Seq<char>) -> Option<Seq<char>>;

/// The text of `Path::new(path).strip_prefix(base)`, `None` where `base` is
/// not a prefix of `path`.
pub uninterp spec fn path_stripped(path: Seq<char>, base: Seq<char>) -> Option<Seq<char>>;

/// Whether `Path::new(a) == Path::new(b)`: the two texts name the same
/// sequence of path components.
pub uninterp spec fn path_same(a: Seq<char>, b: Seq<char>) -> bool;

/// The text of `path_clean::clean(path)`: the shortest lexically equivalent
/// path, with `.` and inner `..` elements removed.
pub uninterp spec fn path_cleaned(path: Seq<char>) -> Seq<char>;

/// The text of `pathdiff::diff_paths(path, base)`: a path that leads from
/// `base` to `path`, `None` where no such relative path can be built.
pub uninterp spec fn path_relative(path: Seq<char>, base: Seq<char>) -> Option<Seq<char>>;

/// Calls `std::path::Path::join`. The contract only names the result: the
/// same two texts always give the same joined text.
#[verifier::external_body]
pub(crate) fn join(base: &str, path: &str) -> (joined: String)
    ensures
        joined@ == path_joined(base@, path@),
{
    std::path::Path::new(base).join(path).to_string_lossy().into_owned()
}

/// Calls `std::path::Path::parent`. The contract only names the result.
#[verifier::external_body]
pub(crate) fn parent(path: &str) -> (parent: Option<String>)
    ensures
        option_text(parent) == path_parent(path@),
{
    match std::path::Path::new(path).parent() {
        Some(p) => Some(p.to_string_lossy().into_owned()),
        None => None,
    }
}

/// Calls `std::path::Path::strip_prefix`, keeping the remainder and dropping
/// the error, which carries no information. The contract only names the
/// result.
#[verifier::external_body]
pub(crate) fn strip_prefix(path: &str, base: &str) -> (rest: Option<String>)
    ensures
        option_text(rest) == path_stripped(path@, base@),
{
    match std::path::Path::new(path).strip_prefix(base) {
        Ok(p) => Some(p.to_string_lossy().into_owned()),
        Err(_) => None,
    }
}

/// Calls `==` of `std::path::Path`, which compares component by component.
/// The contract names the result and adds that the comparison is reflexive,
/// as `Path`'s `Eq` promises.
#[verifier::external_body]
pub(crate) fn same(a: &str, b: &str) -> (same: bool)
    ensures
        same == path_same(a@, b@),
        a@ == b@ ==> same,
{
    std::path::Path::new(a) == std::path::Path::new(b)
}

/// Calls `path_clean::clean`. The contract only names the result.
#[verifier::external_body]
pub(crate) fn clean(path: &str) -> (cleaned: String)
    ensures
        cleaned@ == path_cleaned(path@),
{
    path_clean::clean(path).to_string_lossy().into_owned()
}

/// Calls `pathdiff::diff_paths`. The contract only names the result.
#[verifier::external_body]
pub(crate) fn relative(path: &str, base: &str) -> (diff: Option<String>)
    ensures
        option_text(diff) == path_relative(path@, base@),
{
    match pathdiff::diff_paths(path, base) {
        Some(p) => Some(p.to_string_lossy().into_owned()),
        None => None,
    }
}

/// The absolute form of `relative` as seen from `base`.
pub open spec fn resolved(relative: Seq<char>, base: Seq<char>) -> Seq<char> {
    path_cleaned(path_joined(base, relative))
}

/// Resolves `relative` against `base` and normalises the result. This is
/// pure path arithmetic: nothing is looked up on disk, so it also resolves
/// the target of a dangling link.
pub fn absolute(relative: &str, base: &str) -> (abs: String)
    ensures
        abs@ == resolved(relative@, base@),
{
    let joined = join(base, relative);
    clean(joined.as_str())
}

/// What the walker makes of one directory entry. An entry that was read
/// gives a pair of paths: the entry itself, and the destination with the
/// entry's name, taken relative to `source`, appended. The suffix below the
/// package root is thus the same on both sides.
pub open spec fn paired(
    source: Seq<char>,
    destination: Seq<char>,
    entry: EntryView,
    pass: Pass,
) -> WorkView {
    match entry {
        EntryView::Failed { message } => WorkView::Report {
            notice: NoticeView::WalkError { message },
        },
        EntryView::Found { path } => match path_stripped(path, source) {
            None => WorkView::Report { notice: NoticeView::NotUnder { path } },
            Some(name) => match pass {
                Pass::Link => WorkView::Link { original: path, link: path_joined(destination, name) },
                Pass::Unlink => WorkView::Unlink {
                    original: path,
                    link: path_joined(destination, name),
                },
            },
        },
    }
}

/// What the walker makes of a directory listing: one item for each entry, in
/// the listing's order, and nothing at all for a directory that could not be
/// read.
pub open spec fn walked(
    source: Seq<char>,
    destination: Seq<char>,
    listing: Option<Seq<EntryView>>,
    pass: Pass,
) -> Seq<WorkView> {
    match listing {
        None => Seq::empty(),
        Some(list) => list.map_values(|e: EntryView| paired(source, destination, e, pass)),
    }
}

/// Pairs each direct child of `source_path` with the path of the same name
/// under `destination_path`. The walker does not descend: each pair comes
/// back as work for `pass`, and whoever takes it up decides whether to walk
/// further. An entry that could not be read, or that does not lie under
/// `source_path`, becomes a notice in its place, and its siblings are still
/// paired.
pub fn walkdir(
    source_path: &str,
    destination_path: &str,
    listing: &Option<Vec<Entry>>,
    pass: Pass,
) -> (pairs: Vec<Work>)
    ensures
        works(pairs@) == walked(source_path@, destination_path@, option_entries(*listing), pass),
{
    let mut pairs: Vec<Work> = Vec::new();
    let list = match listing {
        None => {
            return pairs;
        },
        Some(list) => list,
    };
    let ghost all = walked(source_path@, destination_path@, Some(entries(list@)), pass);
    let mut i: usize = 0;
    while i < list.len()
        invariant
            i <= list.len(),
            all == walked(source_path@, destination_path@, Some(entries(list@)), pass),
            works(pairs@) =~= all.take(i as int),
        decreases list.len() - i,
    {
        let work = match &list[i] {
            Entry::Failed { message } => Work::Report {
                notice: Notice::WalkError { message: message.clone() },
            },
            Entry::Found { path } => match strip_prefix(path.as_str(), source_path) {
                None => Work::Report { notice: Notice::NotUnder { path: path.clone() } },
                Some(name) => {
                    let link = join(destination_path, name.as_str());
                    match pass {
                        Pass::Link => Work::Link { original: path.clone(), link },
                        Pass::Unlink => Work::Unlink { original: path.clone(), link },
                    }
                },
            },
        };
        proof {
            assert(all.take(i + 1) =~= all.take(i as int).push(all[i as int]));
        }
        pairs.push(work);
        i += 1;
    }
    pairs
}

} // verus!
