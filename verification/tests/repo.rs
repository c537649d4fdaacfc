use kit::error::KitError;
use kit::repo::check_version;
use kit::repo::concat_str;
use kit::repo::create;
use kit::repo::default_config;
use kit::repo::dir;
use kit::repo::dir_empty;
use kit::repo::find;
use kit::repo::join_path;
use kit::repo::parent_name;
use kit::repo::path;
use kit::repo::KitRepository;
use kit::repo::PathKind;
use kit::repo::Site;
use kit::repo::Step;

fn bare_site(path: &str) -> Site {
    Site {
        path: path.to_owned(),
        kind: PathKind::Directory,
        empty: false,
        has_kitdir: false,
        config: None,
    }
}

fn repo_site(path: &str, config: &str) -> Site {
    Site {
        path: path.to_owned(),
        kind: PathKind::Directory,
        empty: false,
        has_kitdir: true,
        config: Some(config.to_owned()),
    }
}

fn fresh_site(path: &str, kind: PathKind, empty: bool) -> Site {
    Site { path: path.to_owned(), kind, empty, has_kitdir: false, config: None }
}

fn texts(parts: &[&str]) -> Vec<String> {
    parts.iter().map(|p| (*p).to_owned()).collect()
}

#[test]
fn it_returns_a_concatenated_string() {
    assert_eq!("Hello Joe", concat_str("Hello ", "Joe"));
}

#[test]
fn it_returns_a_joined_path() {
    assert_eq!("My/Sharona", join_path("My", "Sharona"));
}

#[test]
fn it_returns_a_full_repo_path() {
    let repo = KitRepository::new(&bare_site("/mr/burns/and/me"), true).unwrap();
    assert_eq!("/mr/burns/and/me/.kit/forever", path(&repo, "forever"));
}

#[test]
fn join_path_leaves_out_a_slash_that_is_there() {
    assert_eq!(join_path("", ".kit"), ".kit");
    assert_eq!(join_path("/", ".kit"), "/.kit");
    assert_eq!(join_path("a/", "b"), "a/b");
    assert_eq!(join_path("a", ""), "a/");
    assert_eq!(join_path("h\u{e9}", "\u{e9}"), "h\u{e9}/\u{e9}");
}

#[test]
fn a_forced_handle_needs_nothing() {
    let repo = KitRepository::new(&bare_site("/w"), true).unwrap();
    assert_eq!(repo.workstree_string(), "/w");
    assert_eq!(repo.kitdir_string(), "/w/.kit");
    assert_eq!(repo.conf, None);
    let site = repo_site("/w", "[core");
    let repo = KitRepository::new(&site, true).unwrap();
    assert_eq!(repo.conf, Some(String::from("[core")));
}

#[test]
fn an_unforced_handle_needs_the_metadata_root() {
    let err = KitRepository::new(&bare_site("/w"), false).unwrap_err();
    assert_eq!(err, KitError::NotAKitRepository);
}

#[test]
fn an_unforced_handle_needs_a_configuration() {
    let mut site = bare_site("/w");
    site.has_kitdir = true;
    assert_eq!(KitRepository::new(&site, false).unwrap_err(), KitError::ConfigMissing);
    let site = repo_site("/w", "[core\nrepositoryformatversion=0\n");
    assert_eq!(KitRepository::new(&site, false).unwrap_err(), KitError::ConfigMissing);
}

#[test]
fn an_unforced_handle_needs_the_format_version() {
    let site = repo_site("/w", "[core]\nfilemode=false\n");
    assert_eq!(KitRepository::new(&site, false).unwrap_err(), KitError::ConfigVersionUnsupported);
    let site = repo_site("/w", "[core]\nrepositoryformatversion\n");
    assert_eq!(KitRepository::new(&site, false).unwrap_err(), KitError::ConfigVersionUnsupported);
    let site = repo_site("/w", "");
    assert_eq!(KitRepository::new(&site, false).unwrap_err(), KitError::ConfigVersionUnsupported);
    let site = repo_site("/w", "[other]\nrepositoryformatversion=0\n[core]\nbare=false\n");
    assert_eq!(KitRepository::new(&site, false).unwrap_err(), KitError::ConfigVersionUnsupported);
}

#[test]
fn an_unforced_handle_needs_format_version_zero() {
    let site = repo_site("/w", "[core]\nrepositoryformatversion=1\n");
    assert_eq!(KitRepository::new(&site, false).unwrap_err(), KitError::ConfigVersionUnsupported);
    let site = repo_site("/w", "[core]\nrepositoryformatversion=00\n");
    assert_eq!(KitRepository::new(&site, false).unwrap_err(), KitError::ConfigVersionUnsupported);
    let site = repo_site("/w", "[core]\nrepositoryformatversion=\n");
    assert_eq!(KitRepository::new(&site, false).unwrap_err(), KitError::ConfigVersionUnsupported);
}

#[test]
fn an_unforced_handle_opens_on_the_default_configuration() {
    let site = repo_site("/w", &default_config());
    let repo = KitRepository::new(&site, false).unwrap();
    assert_eq!(repo.worktree, "/w");
    assert_eq!(repo.kitdir, "/w/.kit");
    assert_eq!(repo.conf, Some(default_config()));
    let site = repo_site("/w", "; comment\n[Core]\n  RepositoryFormatVersion = 0  \n");
    assert!(KitRepository::new(&site, false).is_ok());
}

#[test]
fn check_version_takes_only_zero() {
    assert_eq!(check_version(&Ok(Some(String::from("0")))), Ok(()));
    assert_eq!(
        check_version(&Ok(Some(String::from("1")))),
        Err(KitError::ConfigVersionUnsupported)
    );
    assert_eq!(
        check_version(&Ok(Some(String::from(" 0")))),
        Err(KitError::ConfigVersionUnsupported)
    );
    assert_eq!(check_version(&Ok(Some(String::new()))), Err(KitError::ConfigVersionUnsupported));
    assert_eq!(check_version(&Ok(None)), Err(KitError::ConfigVersionUnsupported));
    assert_eq!(check_version(&Err(String::from("bad"))), Err(KitError::ConfigMissing));
}

#[test]
fn default_config_names_format_version_zero() {
    assert_eq!(
        default_config(),
        "[core]\nrepositoryformatversion=0\nfilemode=false\nbare=false\n"
    );
}

#[test]
fn find_from_a_nested_directory_finds_the_root() {
    let root = repo_site("/R", &default_config());
    let above = bare_site("/");
    let from_root = vec![root.clone(), above.clone()];
    let from_below =
        vec![bare_site("/R/a/b/c"), bare_site("/R/a/b"), bare_site("/R/a"), root, above];
    let direct = find(&from_root).unwrap();
    let nested = find(&from_below).unwrap();
    assert_eq!(nested.worktree, "/R");
    assert_eq!(nested.kitdir, "/R/.kit");
    assert_eq!(nested.worktree, direct.worktree);
    assert_eq!(nested.kitdir, direct.kitdir);
}

#[test]
fn find_takes_the_nearest_repository() {
    let sites = vec![
        bare_site("/R/sub/x"),
        repo_site("/R/sub", &default_config()),
        repo_site("/R", &default_config()),
    ];
    assert_eq!(find(&sites).unwrap().worktree, "/R/sub");
}

#[test]
fn find_passes_over_what_does_not_open() {
    let mut a_file = repo_site("/R/a/f", &default_config());
    a_file.kind = PathKind::File;
    let mut gone = repo_site("/R/a/g", &default_config());
    gone.kind = PathKind::Missing;
    let sites = vec![
        gone,
        a_file,
        repo_site("/R/a", "[core]\nrepositoryformatversion=7\n"),
        repo_site("/R", &default_config()),
    ];
    assert_eq!(find(&sites).unwrap().worktree, "/R");
}

#[test]
fn find_fails_where_there_is_no_repository() {
    let sites = vec![bare_site("/x/y/z"), bare_site("/x/y"), bare_site("/x"), bare_site("/")];
    assert_eq!(find(&sites).unwrap_err(), KitError::NotAKitRepository);
    assert_eq!(find(&Vec::new()).unwrap_err(), KitError::NotAKitRepository);
    let sites = vec![repo_site("/x", "[core]\nrepositoryformatversion=2\n")];
    assert_eq!(find(&sites).unwrap_err(), KitError::NotAKitRepository);
}

#[test]
fn dir_resolves_by_what_stands_there() {
    let repo = KitRepository::new(&bare_site("/w"), true).unwrap();
    let there = dir(&repo, "objects", false, PathKind::Directory).unwrap();
    assert_eq!(there.path, "/w/.kit/objects");
    assert_eq!(there.dir, "/w/.kit/objects");
    assert!(!there.create);
    let made = dir(&repo, "refs/tags", true, PathKind::Missing).unwrap();
    assert_eq!(made.path, "/w/.kit/refs/tags");
    assert!(made.create);
    assert_eq!(dir(&repo, "objects", false, PathKind::Missing).unwrap_err(), KitError::NotADirectory);
    assert_eq!(dir(&repo, "HEAD", true, PathKind::File).unwrap_err(), KitError::NotADirectory);
    assert_eq!(dir(&repo, "HEAD", false, PathKind::File).unwrap_err(), KitError::NotADirectory);
}

#[test]
fn file_resolves_under_its_directory() {
    let repo = KitRepository::new(&bare_site("/w"), true).unwrap();
    let parts = texts(&["objects", "da", "39a3"]);
    assert_eq!(parent_name(&parts), "objects/da");
    let at = kit::repo::file(&repo, &parts, true, PathKind::Missing).unwrap();
    assert_eq!(at.dir, "/w/.kit/objects/da");
    assert_eq!(at.path, "/w/.kit/objects/da/39a3");
    assert!(at.create);
    let at = kit::repo::file(&repo, &parts, false, PathKind::Directory).unwrap();
    assert_eq!(at.path, "/w/.kit/objects/da/39a3");
    assert!(!at.create);
    assert_eq!(kit::repo::file(&repo, &parts, false, PathKind::Missing).unwrap_err(), KitError::NotADirectory);
    assert_eq!(kit::repo::file(&repo, &parts, true, PathKind::File).unwrap_err(), KitError::NotADirectory);
    assert_eq!(
        kit::repo::file(&repo, &Vec::new(), true, PathKind::Directory).unwrap_err(),
        KitError::NotADirectory
    );
    let head = texts(&["HEAD"]);
    assert_eq!(parent_name(&head), "");
    assert_eq!(kit::repo::file(&repo, &head, false, PathKind::Directory).unwrap().path, "/w/.kit/HEAD");
}

#[test]
fn dir_empty_is_for_directories_only() {
    assert!(dir_empty(&fresh_site("/w", PathKind::Directory, true)));
    assert!(!dir_empty(&fresh_site("/w", PathKind::Directory, false)));
    assert!(!dir_empty(&fresh_site("/w", PathKind::Missing, true)));
    assert!(!dir_empty(&fresh_site("/w", PathKind::File, true)));
}

fn made_dirs(steps: &[Step]) -> Vec<String> {
    let mut dirs = Vec::new();
    for step in steps {
        if let Step::MakeDir(path) = step {
            dirs.push(path.clone());
        }
    }
    dirs
}

fn written_texts(steps: &[Step]) -> Vec<(String, String)> {
    let mut files = Vec::new();
    for step in steps {
        if let Step::WriteText(path, text) = step {
            files.push((path.clone(), text.clone()));
        }
    }
    files
}

/// Whether `path` is a directory once `made` have been created, each with the
/// directories above it.
fn is_dir_after(made: &[String], path: &str) -> bool {
    let mut below = String::from(path);
    below.push('/');
    made.iter().any(|m| m == path || m.starts_with(&below))
}

#[test]
fn it_creates_a_kit_repo() {
    let site = fresh_site("testing/repo", PathKind::Missing, false);
    let (repo, steps) = create(&site).unwrap();
    assert_eq!(repo.kitdir, "testing/repo/.kit");
    let dirs = made_dirs(&steps);
    assert!(is_dir_after(&dirs, "testing/repo/.kit"));
    for d in ["branches", "objects", "refs", "refs/tags", "refs/heads"] {
        assert!(is_dir_after(&dirs, &join_path("testing/repo/.kit", d)));
    }
    assert!(!is_dir_after(&dirs, "testing/repo/.kit/ref"));
    assert!(!is_dir_after(&dirs, "testing/repo/.kit/HEAD"));
    let files = written_texts(&steps);
    for f in ["description", "HEAD", "config"] {
        assert!(files.iter().any(|(path, _)| *path == join_path("testing/repo/.kit", f)));
    }
}

#[test]
fn create_plans_exactly_the_skeleton() {
    for site in
        [fresh_site("/w", PathKind::Missing, false), fresh_site("/w", PathKind::Directory, true)]
    {
        let (repo, steps) = create(&site).unwrap();
        assert_eq!(repo.worktree, "/w");
        assert_eq!(repo.kitdir, "/w/.kit");
        assert_eq!(steps.len(), 9);
        assert_eq!(
            made_dirs(&steps),
            vec![
                String::from("/w"),
                String::from("/w/.kit"),
                String::from("/w/.kit/branches"),
                String::from("/w/.kit/objects"),
                String::from("/w/.kit/refs/tags"),
                String::from("/w/.kit/refs/heads"),
            ]
        );
        assert_eq!(
            written_texts(&steps),
            vec![
                (
                    String::from("/w/.kit/description"),
                    String::from(
                        "Unnamed repository: edit this file 'description' to name the repository.\n"
                    )
                ),
                (String::from("/w/.kit/HEAD"), String::from("ref: refs/heads/master\n")),
                (String::from("/w/.kit/config"), default_config()),
            ]
        );
        assert!(default_config().contains("repositoryformatversion=0"));
    }
}

#[test]
fn a_created_repository_is_found_again() {
    let (repo, steps) = create(&fresh_site("/w", PathKind::Directory, true)).unwrap();
    let config = written_texts(&steps).pop().unwrap().1;
    let found = find(&vec![bare_site("/w/a"), repo_site("/w", &config)]).unwrap();
    assert_eq!(found.worktree, repo.worktree);
    assert_eq!(found.kitdir, repo.kitdir);
}

#[test]
fn create_refuses_a_directory_with_entries() {
    let err = create(&fresh_site("/w", PathKind::Directory, false)).unwrap_err();
    assert_eq!(err, KitError::PathNotEmpty);
    let mut site = repo_site("/w", &default_config());
    site.empty = false;
    assert_eq!(create(&site).unwrap_err(), KitError::PathNotEmpty);
}

#[test]
fn create_refuses_a_file() {
    let err = create(&fresh_site("/w", PathKind::File, false)).unwrap_err();
    assert_eq!(err, KitError::PathNotDirectory);
    let err = create(&fresh_site("/w", PathKind::File, true)).unwrap_err();
    assert_eq!(err, KitError::PathNotDirectory);
}
