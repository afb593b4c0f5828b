use linker::{absolute, walkdir, Entry, Notice, Pass, Work};

#[test]
fn absolute_resolves_relative_target() {
    assert_eq!(absolute("../x", "/a/b"), "/a/x");
    assert_eq!(absolute("fish/config.fish", "/home/me/.config"), "/home/me/.config/fish/config.fish");
}

#[test]
fn absolute_keeps_absolute_target() {
    assert_eq!(absolute("/dot/git/.gitconfig", "/home/me"), "/dot/git/.gitconfig");
}

#[test]
fn walkdir_pairs_children_in_order() {
    let listing = Some(vec![
        Entry::Found { path: "/dot/fish/.config".to_string() },
        Entry::Failed { message: "permission denied".to_string() },
        Entry::Found { path: "/elsewhere/x".to_string() },
        Entry::Found { path: "/dot/fish/.profile".to_string() },
    ]);
    let pairs = walkdir("/dot/fish", "/home/me", &listing, Pass::Link);
    assert_eq!(
        pairs,
        vec![
            Work::Link { original: "/dot/fish/.config".to_string(), link: "/home/me/.config".to_string() },
            Work::Report { notice: Notice::WalkError { message: "permission denied".to_string() } },
            Work::Report { notice: Notice::NotUnder { path: "/elsewhere/x".to_string() } },
            Work::Link { original: "/dot/fish/.profile".to_string(), link: "/home/me/.profile".to_string() },
        ]
    );
}

#[test]
fn walkdir_of_unreadable_directory_is_empty() {
    assert_eq!(walkdir("/dot/fish", "/home/me", &None, Pass::Unlink), vec![]);
}
