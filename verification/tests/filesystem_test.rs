use linker::{absolute, Entry, Event, Linker, Notice, Request};
use std::collections::BTreeMap;

const FIXTURES_DIR: &str = "/dotfiles";

/// What a path holds on the disk of a test.
#[derive(Clone, Debug, PartialEq, Eq)]
enum Node {
    File,
    Dir,
    Symlink(String),
}

/// A disk in memory, with symlinks that are followed as the operating
/// system follows them.
#[derive(Clone, Debug, PartialEq, Eq)]
struct Disk {
    nodes: BTreeMap<String, Node>,
}

fn child(dir: &str, name: &str) -> String {
    if dir == "/" {
        format!("/{name}")
    } else {
        format!("{dir}/{name}")
    }
}

fn upper(path: &str) -> String {
    match path.rfind('/') {
        Some(0) | None => "/".to_string(),
        Some(i) => path[..i].to_string(),
    }
}

impl Disk {
    fn new() -> Disk {
        let mut nodes = BTreeMap::new();
        nodes.insert("/".to_string(), Node::Dir);
        Disk { nodes }
    }

    /// The place that `path` leads to, with every symlink on the way
    /// followed, and the last one too where `follow` is set.
    fn place_of(&self, path: &str, follow: bool, depth: u32) -> Option<String> {
        if depth > 16 || !path.starts_with('/') {
            return None;
        }
        let names: Vec<&str> = path.split('/').filter(|n| !n.is_empty() && *n != ".").collect();
        let mut place = "/".to_string();
        for (i, name) in names.iter().enumerate() {
            if self.nodes.get(&place) != Some(&Node::Dir) {
                return None;
            }
            if *name == ".." {
                place = upper(&place);
                continue;
            }
            let next = child(&place, name);
            let last = i + 1 == names.len();
            match self.nodes.get(&next) {
                None => return None,
                Some(Node::Symlink(stored)) if follow || !last => {
                    let aim = if stored.starts_with('/') { stored.clone() } else { child(&place, stored) };
                    place = self.place_of(&aim, true, depth + 1)?;
                }
                Some(_) => place = next,
            }
        }
        Some(place)
    }

    fn node(&self, path: &str, follow: bool) -> Option<&Node> {
        self.nodes.get(&self.place_of(path, follow, 0)?)
    }

    fn present(&self, path: &str) -> bool {
        self.node(path, true).is_some()
    }

    fn is_file(&self, path: &str) -> bool {
        self.node(path, true) == Some(&Node::File)
    }

    fn is_dir(&self, path: &str) -> bool {
        self.node(path, true) == Some(&Node::Dir)
    }

    fn is_symlink(&self, path: &str) -> bool {
        matches!(self.node(path, false), Some(Node::Symlink(_)))
    }

    fn read_link(&self, path: &str) -> Option<String> {
        match self.node(path, false) {
            Some(Node::Symlink(stored)) => Some(stored.clone()),
            _ => None,
        }
    }

    fn read_dir(&self, path: &str) -> Option<Vec<String>> {
        let place = self.place_of(path, true, 0)?;
        if self.nodes.get(&place) != Some(&Node::Dir) {
            return None;
        }
        let mut entries = Vec::new();
        for key in self.nodes.keys() {
            if key != "/" && upper(key) == place {
                entries.push(child(path, &key[key.rfind('/').unwrap() + 1..]));
            }
        }
        Some(entries)
    }

    fn place_for_new(&self, path: &str) -> Result<String, String> {
        let name = &path[path.rfind('/').unwrap() + 1..];
        match self.place_of(&upper(path), true, 0) {
            Some(dir) if self.nodes.get(&dir) == Some(&Node::Dir) => {
                let place = child(&dir, name);
                if self.nodes.contains_key(&place) {
                    Err("File exists".to_string())
                } else {
                    Ok(place)
                }
            }
            _ => Err("No such file or directory".to_string()),
        }
    }

    fn create_dir_all(&mut self, path: &str) {
        if self.is_dir(path) {
            return;
        }
        self.create_dir_all(&upper(path));
        let place = self.place_for_new(path).unwrap();
        self.nodes.insert(place, Node::Dir);
    }

    fn touch(&mut self, path: &str) {
        self.create_dir_all(&upper(path));
        if !self.present(path) {
            let place = self.place_for_new(path).unwrap();
            self.nodes.insert(place, Node::File);
        }
    }

    fn symlink(&mut self, stored: &str, link: &str) -> Result<(), String> {
        let place = self.place_for_new(link)?;
        self.nodes.insert(place, Node::Symlink(stored.to_string()));
        Ok(())
    }

    fn remove_file(&mut self, path: &str) -> Result<(), String> {
        match self.place_of(path, false, 0) {
            Some(place) if self.nodes.get(&place) != Some(&Node::Dir) => {
                self.nodes.remove(&place);
                Ok(())
            }
            Some(_) => Err("Is a directory".to_string()),
            None => Err("No such file or directory".to_string()),
        }
    }

    /// Performs one request of a linker and says what it showed.
    fn perform(&mut self, request: &Request) -> Event {
        match request {
            Request::Finished => unreachable!(),
            Request::ListPackages { dir, .. } => {
                let mut names = Vec::new();
                for path in self.read_dir(dir).unwrap() {
                    if self.is_dir(&path) {
                        names.push(path[path.rfind('/').unwrap() + 1..].to_string());
                    }
                }
                Event::Packages { names }
            }
            Request::PackageExists { path, .. } => Event::Exists { exists: self.present(path) },
            Request::ProbeLink { original, link } => Event::LinkProbe {
                link_exists: self.present(link) || self.is_symlink(link),
                original_is_file: self.is_file(original),
            },
            Request::ProbeUnlink { link, .. } => Event::UnlinkProbe {
                is_symlink: self.is_symlink(link),
                target: self.read_link(link),
            },
            Request::ReadDir { original, .. } => Event::Entries {
                entries: match self.read_dir(original) {
                    Some(paths) => {
                        let mut entries = Vec::new();
                        for path in paths {
                            entries.push(Entry::Found { path });
                        }
                        Some(entries)
                    }
                    None => None,
                },
            },
            Request::Symlink { original, link } => {
                Event::Performed { error: self.symlink(original, link).err() }
            }
            Request::Remove { link } => Event::Performed { error: self.remove_file(link).err() },
        }
    }

    /// Runs a command that was started to its end.
    fn drive(&mut self, linker: &mut Linker, first: Vec<Notice>) -> Vec<Notice> {
        let mut notices = first;
        while !linker.finished() {
            let event = self.perform(linker.request());
            notices.extend(linker.step(event));
        }
        notices
    }

    fn link_package(&mut self, linker: &mut Linker, package: &str) -> Vec<Notice> {
        let first = linker.link(&[package.to_string()]);
        self.drive(linker, first)
    }

    fn unlink_package(&mut self, linker: &mut Linker, package: &str) -> Vec<Notice> {
        let first = linker.unlink(&[package.to_string()]);
        self.drive(linker, first)
    }

    fn relink_package(&mut self, linker: &mut Linker, package: &str) -> Vec<Notice> {
        let first = linker.relink(&[package.to_string()]);
        self.drive(linker, first)
    }

    fn link_packages(&mut self, linker: &mut Linker) -> Vec<Notice> {
        let first = linker.link(&[]);
        self.drive(linker, first)
    }

    fn unlink_packages(&mut self, linker: &mut Linker) -> Vec<Notice> {
        let first = linker.unlink(&[]);
        self.drive(linker, first)
    }
}

/// A disk that holds the packages `fish` and `git` and an empty target.
fn tempdir() -> (Disk, String) {
    let mut disk = Disk::new();
    disk.touch("/dotfiles/fish/.config/fish/config.fish");
    disk.create_dir_all("/dotfiles/fish/.config/fish/conf.d");
    disk.touch("/dotfiles/fish/.config/fish/functions/ls.fish");
    disk.touch("/dotfiles/git/.gitconfig");
    disk.create_dir_all("/home/me");
    (disk, "/home/me".to_string())
}

fn fixture_path(path: &str) -> String {
    format!("{FIXTURES_DIR}/{path}")
}

fn join(base: &str, path: &str) -> String {
    format!("{base}/{path}")
}

fn build_linker(target: &str, simulate: bool) -> Linker {
    Linker::build(Some(FIXTURES_DIR.to_string()), Some(Some(target.to_string())), simulate).unwrap()
}

fn build_real_linker(target: &str) -> Linker {
    build_linker(target, false)
}

fn build_simulate_linker(target: &str) -> Linker {
    build_linker(target, true)
}

fn assert_associated_symlink(disk: &Disk, package: &str, target: &str, path: &str) {
    let link = join(target, path);

    assert!(disk.is_symlink(&link));

    let link_base = upper(&link);
    let link_relative = disk.read_link(&link).unwrap();
    let link_absolute = absolute(&link_relative, &link_base);
    let src = join(&fixture_path(package), path);

    assert_eq!(link_absolute, src);
}

fn link(link: &str, original: &str) -> Notice {
    Notice::Link { link: link.to_string(), original: original.to_string(), reverts: false }
}

fn file_exists(link: &str) -> Notice {
    Notice::FileExists { link: link.to_string() }
}

fn unlink(link: &str) -> Notice {
    Notice::Unlink { link: link.to_string() }
}

#[test]
fn link_test_simulate_is_true() {
    let (mut disk, target) = tempdir();
    let mut linker = build_simulate_linker(&target);

    disk.link_package(&mut linker, "fish");

    let config = join(&target, ".config");
    assert!(!disk.present(&config));
}

#[test]
fn link_config() {
    let (mut disk, target) = tempdir();
    let mut linker = build_real_linker(&target);

    disk.link_package(&mut linker, "fish");

    assert_associated_symlink(&disk, "fish", &target, ".config");
}

#[test]
fn link_fish() {
    let (mut disk, target) = tempdir();
    let mut linker = build_real_linker(&target);

    disk.create_dir_all(&join(&target, ".config"));

    disk.link_package(&mut linker, "fish");

    assert_associated_symlink(&disk, "fish", &target, ".config/fish");
}

#[test]
fn link_full() {
    let (mut disk, target) = tempdir();
    let mut linker = build_real_linker(&target);

    let functions = join(&target, ".config/fish/functions");
    let l = join(&functions, "l.fish");

    disk.touch(&l);

    disk.link_package(&mut linker, "fish");

    assert!(!disk.is_symlink(&functions));
    assert!(disk.is_dir(&functions));

    assert!(disk.present(&l));
    assert!(!disk.is_symlink(&l));

    assert_associated_symlink(&disk, "fish", &target, ".config/fish/functions/ls.fish");
    assert_associated_symlink(&disk, "fish", &target, ".config/fish/conf.d");
    assert_associated_symlink(&disk, "fish", &target, ".config/fish/config.fish");
}

#[test]
fn link_packages() {
    let (mut disk, target) = tempdir();
    let mut linker = build_real_linker(&target);

    disk.create_dir_all(&join(&target, ".config"));

    disk.link_packages(&mut linker);

    assert_associated_symlink(&disk, "fish", &target, ".config/fish");
    assert_associated_symlink(&disk, "git", &target, ".gitconfig");
}

#[test]
fn unlink_test_simulate_is_true() {
    let (mut disk, target) = tempdir();
    let mut linker = build_linker(&target, true);

    disk.create_dir_all(&join(&target, ".config"));
    // create link (simulate false)
    disk.link_package(&mut build_linker(&target, false), "fish");

    let fish_config = join(&target, ".config/fish");

    assert!(disk.is_symlink(&fish_config));

    disk.unlink_package(&mut linker, "fish");

    assert!(disk.present(&fish_config));
}

#[test]
fn unlink_config() {
    let (mut disk, target) = tempdir();
    let mut linker = build_linker(&target, false);

    disk.link_package(&mut linker, "fish");
    disk.unlink_package(&mut linker, "fish");

    assert!(!disk.present(&join(&target, ".config")));
}

#[test]
fn unlink_fish() {
    let (mut disk, target) = tempdir();
    let mut linker = build_linker(&target, false);

    disk.create_dir_all(&join(&target, ".config"));

    disk.link_package(&mut linker, "fish");
    disk.unlink_package(&mut linker, "fish");

    assert!(!disk.present(&join(&target, ".config/fish")));
}

#[test]
fn unlink_full() {
    let (mut disk, target) = tempdir();
    let mut linker = build_linker(&target, false);

    let l = join(&target, ".config/fish/functions/l.fish");
    disk.touch(&l);

    disk.link_package(&mut linker, "fish");
    disk.unlink_package(&mut linker, "fish");

    assert!(disk.is_file(&l));
    assert!(!disk.present(&join(&target, ".config/fish/conf.d")));
    assert!(!disk.present(&join(&target, ".config/fish/functions/ls.fish")));
    assert!(!disk.present(&join(&target, ".config/fish/config.fish")));
}

#[test]
fn ignore_another_symlink() {
    let (mut disk, target) = tempdir();
    let mut linker = build_linker(&target, false);

    disk.create_dir_all(&join(&target, ".config/fish"));

    let fish_config = join(&target, ".config/fish/config.fish");
    let git_config = fixture_path("git/.gitconfig");
    disk.symlink(&git_config, &fish_config).unwrap();

    disk.unlink_package(&mut linker, "fish");

    assert!(disk.is_symlink(&fish_config));
}

#[test]
fn unlink_packages() {
    let (mut disk, target) = tempdir();
    let mut linker = build_linker(&target, false);

    disk.create_dir_all(&join(&target, ".config"));

    disk.link_packages(&mut linker);
    disk.unlink_packages(&mut linker);

    assert!(!disk.is_symlink(&join(&target, ".config/fish")));
    assert!(!disk.is_symlink(&join(&target, ".config/git")));
}

#[test]
fn link_stores_relative_target() {
    let (mut disk, target) = tempdir();
    let mut linker = build_real_linker(&target);

    let notices = disk.link_package(&mut linker, "fish");

    assert_eq!(notices, vec![link("/home/me/.config", "../../dotfiles/fish/.config")]);
    assert_eq!(disk.read_link("/home/me/.config").unwrap(), "../../dotfiles/fish/.config");
    assert!(disk.is_file("/home/me/.config/fish/config.fish"));
}

#[test]
fn link_full_notices_are_depth_first() {
    let (mut disk, target) = tempdir();
    let mut linker = build_real_linker(&target);
    disk.touch("/home/me/.config/fish/functions/l.fish");

    let notices = disk.link_package(&mut linker, "fish");

    assert_eq!(
        notices,
        vec![
            link("/home/me/.config/fish/conf.d", "../../../../dotfiles/fish/.config/fish/conf.d"),
            link(
                "/home/me/.config/fish/config.fish",
                "../../../../dotfiles/fish/.config/fish/config.fish"
            ),
            link(
                "/home/me/.config/fish/functions/ls.fish",
                "../../../../../dotfiles/fish/.config/fish/functions/ls.fish"
            ),
        ]
    );
}

#[test]
fn link_twice_changes_nothing_more() {
    let (mut disk, target) = tempdir();
    let mut linker = build_real_linker(&target);
    disk.create_dir_all("/home/me/.config/fish");

    disk.link_package(&mut linker, "fish");
    let once = disk.clone();
    let notices = disk.link_package(&mut linker, "fish");

    assert_eq!(disk, once);
    assert_eq!(
        notices,
        vec![
            file_exists("/home/me/.config/fish/config.fish"),
            file_exists("/home/me/.config/fish/functions/ls.fish"),
        ]
    );
}

#[test]
fn link_then_unlink_restores_target() {
    let (mut disk, target) = tempdir();
    let mut linker = build_real_linker(&target);
    let empty = disk.clone();

    disk.link_package(&mut linker, "fish");
    assert_ne!(disk, empty);
    let notices = disk.unlink_package(&mut linker, "fish");

    assert_eq!(disk, empty);
    assert_eq!(notices, vec![unlink("/home/me/.config")]);
}

#[test]
fn link_then_unlink_keeps_directories_of_the_user() {
    let (mut disk, target) = tempdir();
    let mut linker = build_real_linker(&target);
    disk.touch("/home/me/.config/fish/functions/l.fish");
    let before = disk.clone();

    disk.link_package(&mut linker, "fish");
    disk.unlink_package(&mut linker, "fish");

    assert_eq!(disk, before);
}

#[test]
fn unlink_leaves_link_of_another_package() {
    let (mut disk, target) = tempdir();
    let mut linker = build_real_linker(&target);
    disk.create_dir_all("/home/me/.config/fish");
    disk.symlink("/somewhere/else", "/home/me/.config/fish/config.fish").unwrap();
    let before = disk.clone();

    let notices = disk.unlink_package(&mut linker, "fish");

    assert_eq!(disk, before);
    assert_eq!(notices, vec![]);
}

#[test]
fn unlink_removes_dangling_owned_link() {
    let (mut disk, target) = tempdir();
    let mut linker = build_real_linker(&target);
    disk.create_dir_all("/home/me/.config/fish");
    // The stored path leads nowhere on disk, but it resolves to the source path.
    disk.symlink(
        "../../../../nowhere/../dotfiles/fish/.config/fish/conf.d",
        "/home/me/.config/fish/conf.d",
    )
    .unwrap();
    assert!(disk.is_symlink("/home/me/.config/fish/conf.d"));
    assert!(!disk.present("/home/me/.config/fish/conf.d"));

    let notices = disk.unlink_package(&mut linker, "fish");

    assert_eq!(notices, vec![unlink("/home/me/.config/fish/conf.d")]);
    assert!(!disk.is_symlink("/home/me/.config/fish/conf.d"));
}

#[test]
fn simulate_changes_nothing() {
    let (mut disk, target) = tempdir();
    disk.create_dir_all("/home/me/.config");
    disk.link_package(&mut build_real_linker(&target), "fish");
    let before = disk.clone();

    let mut linker = build_simulate_linker(&target);
    let mut notices = linker.relink(&[]);
    while !linker.finished() {
        assert!(!linker.request().is_mutation());
        let event = disk.perform(linker.request());
        notices.extend(linker.step(event));
    }

    assert_eq!(disk, before);
    assert_eq!(notices.last(), Some(&Notice::Simulation));
    assert_eq!(notices.iter().filter(|n| **n == Notice::Simulation).count(), 1);
}

#[test]
fn simulate_link_reports_what_a_real_run_does() {
    let (mut disk, target) = tempdir();
    disk.touch("/home/me/.config/fish/functions/l.fish");

    let mut planned = disk.clone().link_package(&mut build_simulate_linker(&target), "fish");
    let done = disk.link_package(&mut build_real_linker(&target), "fish");

    assert_eq!(planned.pop(), Some(Notice::Simulation));
    assert_eq!(planned, done);
}

fn reverting(link: &str, original: &str) -> Notice {
    Notice::Link { link: link.to_string(), original: original.to_string(), reverts: true }
}

#[test]
fn simulate_relink_reverts_removed_destination() {
    let (mut disk, target) = tempdir();
    disk.create_dir_all("/home/me/.config/fish");
    disk.link_package(&mut build_real_linker(&target), "fish");
    let before = disk.clone();

    let mut linker = build_simulate_linker(&target);
    let notices = disk.relink_package(&mut linker, "fish");

    assert_eq!(disk, before);
    assert_eq!(
        notices,
        vec![
            unlink("/home/me/.config/fish/conf.d"),
            unlink("/home/me/.config/fish/config.fish"),
            unlink("/home/me/.config/fish/functions"),
            reverting(
                "/home/me/.config/fish/conf.d",
                "../../../../dotfiles/fish/.config/fish/conf.d"
            ),
            reverting(
                "/home/me/.config/fish/config.fish",
                "../../../../dotfiles/fish/.config/fish/config.fish"
            ),
            reverting(
                "/home/me/.config/fish/functions",
                "../../../../dotfiles/fish/.config/fish/functions"
            ),
            Notice::Simulation,
        ]
    );
}

#[test]
fn simulate_relink_decides_as_real_relink() {
    let (mut disk, target) = tempdir();
    disk.create_dir_all("/home/me/.config/fish");
    disk.link_package(&mut build_real_linker(&target), "fish");
    let before = disk.clone();

    let mut planned = disk.relink_package(&mut build_simulate_linker(&target), "fish");
    assert_eq!(disk, before);
    let done = disk.relink_package(&mut build_real_linker(&target), "fish");
    assert_eq!(disk, before);

    assert_eq!(planned.pop(), Some(Notice::Simulation));
    assert_eq!(planned.len(), done.len());
    for (planned, done) in planned.iter().zip(done.iter()) {
        match (planned, done) {
            (
                Notice::Link { link, original, reverts: true },
                Notice::Link { link: l, original: o, reverts: false },
            ) => {
                assert_eq!(link, l);
                assert_eq!(original, o);
            }
            _ => assert_eq!(planned, done),
        }
    }
}

#[test]
fn simulate_relink_of_link_to_directory() {
    let mut disk = Disk::new();
    disk.touch("/r/d/p/x/a");
    disk.create_dir_all("/r/t");
    disk.symlink("../d/p/x", "/r/t/x").unwrap();
    let before = disk.clone();
    let mut linker =
        Linker::build(Some("/r/d".to_string()), Some(Some("/r/t".to_string())), true).unwrap();

    let notices = disk.relink_package(&mut linker, "p");

    assert_eq!(
        notices,
        vec![unlink("/r/t/x"), reverting("/r/t/x", "../d/p/x"), Notice::Simulation]
    );
    assert_eq!(disk, before);
}

#[test]
fn dangling_link_at_destination_is_a_conflict() {
    let (mut disk, target) = tempdir();
    let mut linker = build_real_linker(&target);
    disk.symlink("/nowhere", "/home/me/.gitconfig").unwrap();
    let before = disk.clone();

    let notices = disk.link_package(&mut linker, "git");

    assert_eq!(notices, vec![file_exists("/home/me/.gitconfig")]);
    assert_eq!(disk, before);
}

#[test]
fn simulate_link_alone_reports_the_conflict() {
    let (mut disk, target) = tempdir();
    disk.create_dir_all("/home/me/.config/fish");
    disk.link_package(&mut build_real_linker(&target), "fish");

    let notices = disk.link_package(&mut build_simulate_linker(&target), "fish");

    assert_eq!(
        notices,
        vec![
            file_exists("/home/me/.config/fish/config.fish"),
            file_exists("/home/me/.config/fish/functions/ls.fish"),
            Notice::Simulation,
        ]
    );
}

#[test]
fn missing_package_gives_one_warning() {
    let (mut disk, target) = tempdir();
    let mut linker = build_real_linker(&target);
    let before = disk.clone();

    let notices = disk.link_package(&mut linker, "missing-package");

    assert_eq!(notices, vec![Notice::PackageNotFound { package: "missing-package".to_string() }]);
    assert_eq!(disk, before);
}

#[test]
fn missing_package_does_not_stop_the_batch() {
    let (mut disk, target) = tempdir();
    let mut linker = build_real_linker(&target);

    let first = linker.link(&["missing-package".to_string(), "git".to_string()]);
    let notices = disk.drive(&mut linker, first);

    assert_eq!(
        notices,
        vec![
            Notice::PackageNotFound { package: "missing-package".to_string() },
            link("/home/me/.gitconfig", "../../dotfiles/git/.gitconfig"),
        ]
    );
}

#[test]
fn unlink_of_missing_package_is_silent() {
    let (mut disk, target) = tempdir();
    let mut linker = build_real_linker(&target);
    let before = disk.clone();

    let notices = disk.unlink_package(&mut linker, "missing-package");

    assert_eq!(notices, vec![]);
    assert_eq!(disk, before);
}

#[test]
fn relink_pairs_unlink_and_link_per_package() {
    let (mut disk, target) = tempdir();
    disk.create_dir_all("/home/me/.config");
    disk.link_packages(&mut build_real_linker(&target));
    let linked = disk.clone();

    let mut linker = build_real_linker(&target);
    let first = linker.relink(&["fish".to_string(), "git".to_string()]);
    let notices = disk.drive(&mut linker, first);

    assert_eq!(disk, linked);
    assert_eq!(
        notices,
        vec![
            unlink("/home/me/.config/fish"),
            link("/home/me/.config/fish", "../../../dotfiles/fish/.config/fish"),
            unlink("/home/me/.gitconfig"),
            link("/home/me/.gitconfig", "../../dotfiles/git/.gitconfig"),
        ]
    );
}

#[test]
fn failed_symlink_is_reported_and_the_walk_goes_on() {
    let (mut disk, target) = tempdir();
    let mut linker = build_real_linker(&target);
    disk.create_dir_all("/home/me/.config/fish");

    let mut notices = linker.link(&["fish".to_string()]);
    while !linker.finished() {
        let event = match linker.request() {
            Request::Symlink { link, .. } if link.ends_with("conf.d") => {
                Event::Performed { error: Some("Permission denied".to_string()) }
            }
            request => disk.perform(request),
        };
        notices.extend(linker.step(event));
    }

    assert_eq!(
        notices,
        vec![
            link("/home/me/.config/fish/conf.d", "../../../../dotfiles/fish/.config/fish/conf.d"),
            Notice::LinkError { message: "Permission denied".to_string() },
            link(
                "/home/me/.config/fish/config.fish",
                "../../../../dotfiles/fish/.config/fish/config.fish"
            ),
            link(
                "/home/me/.config/fish/functions",
                "../../../../dotfiles/fish/.config/fish/functions"
            ),
        ]
    );
    assert!(!disk.present("/home/me/.config/fish/conf.d"));
    assert!(disk.is_symlink("/home/me/.config/fish/functions"));
}

#[test]
fn failed_removal_is_reported_and_the_walk_goes_on() {
    let (mut disk, target) = tempdir();
    disk.create_dir_all("/home/me/.config/fish");
    disk.link_package(&mut build_real_linker(&target), "fish");

    let mut linker = build_real_linker(&target);
    let mut notices = linker.unlink(&["fish".to_string()]);
    while !linker.finished() {
        let event = match linker.request() {
            Request::Remove { link } if link.ends_with("conf.d") => {
                Event::Performed { error: Some("Permission denied".to_string()) }
            }
            request => disk.perform(request),
        };
        notices.extend(linker.step(event));
    }

    assert_eq!(
        notices,
        vec![
            unlink("/home/me/.config/fish/conf.d"),
            Notice::UnlinkError { message: "Permission denied".to_string() },
            unlink("/home/me/.config/fish/config.fish"),
            unlink("/home/me/.config/fish/functions"),
        ]
    );
    assert!(disk.is_symlink("/home/me/.config/fish/conf.d"));
    assert!(!disk.present("/home/me/.config/fish/config.fish"));
}
