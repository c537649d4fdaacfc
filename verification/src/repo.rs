//! Where a repository lives: its two roots, the paths under its metadata
//! root, the steps that lay a new one out, and the search for the one that
//! encloses a directory.
//!
//! Nothing here looks at the disk. The caller reports what it saw there as a
//! [`Site`] or a [`PathKind`], and carries out the [`Step`]s it is handed.

use vstd::prelude::*;
use vstd::string::StrSliceExecFns;
use vstd::string::StringExecFns;
use crate::error::KitError;
use crate::outside::ini_lookup;
use crate::outside::ini_value;

verus! {

/// What stands at a path.
#[derive(Clone, Copy, Debug, PartialEq, Eq, Structural)]
pub enum PathKind {
    /// Nothing.
    Missing,
    /// A regular file.
    File,
    /// A directory.
    Directory,
}

/// What the caller saw at a directory that may hold, or is to hold, a
/// repository.
#[derive(Clone, Debug)]
pub struct Site {
    /// The path that was looked at.
    pub path: String,
    /// What stands there.
    pub kind: PathKind,
    /// Whether it is a directory without entries.
    pub empty: bool,
    /// Whether the metadata root exists under it.
    pub has_kitdir: bool,
    /// The text of the configuration file under the metadata root, where there
    /// is such a file and it could be read.
    pub config: Option<String>,
}

/// A [`Site`] as the contracts see it.
pub struct SiteView {
    pub path: Seq<char>,
    pub kind: PathKind,
    pub empty: bool,
    pub has_kitdir: bool,
    pub config: Option<Seq<char>>,
}

/// The view of a text that may be absent.
pub open spec fn text_view(text: Option<String>) -> Option<Seq<char>> {
    match text {
        Some(t) => Some(t@),
        None => None,
    }
}

impl View for Site {
    type V = SiteView;

    open spec fn view(&self) -> SiteView {
        SiteView {
            path: self.path@,
            kind: self.kind,
            empty: self.empty,
            has_kitdir: self.has_kitdir,
            config: text_view(self.config),
        }
    }
}

/// A handle on a repository: the directory that it manages, its metadata root
/// and its configuration.
#[derive(Clone, Debug)]
pub struct KitRepository {
    /// The directory that the repository manages.
    pub worktree: String,
    /// The metadata root under it.
    pub kitdir: String,
    /// The configuration as it was read, for the parser to answer from; `None`
    /// where there was no file to read.
    pub conf: Option<String>,
}

/// A [`KitRepository`] as the contracts see it.
pub struct RepoView {
    pub worktree: Seq<char>,
    pub kitdir: Seq<char>,
    pub conf: Option<Seq<char>>,
}

impl View for KitRepository {
    type V = RepoView;

    open spec fn view(&self) -> RepoView {
        RepoView { worktree: self.worktree@, kitdir: self.kitdir@, conf: text_view(self.conf) }
    }
}

/// Something for the caller to do on the disk.
#[derive(Clone, Debug)]
pub enum Step {
    /// Create the directory, and those above it, unless they exist.
    MakeDir(String),
    /// Create the file, or empty it, and write the text.
    WriteText(String, String),
    /// Create the file, or empty it, and write the bytes.
    WriteBytes(String, Vec<u8>),
}

/// A [`Step`] as the contracts see it.
pub enum StepView {
    MakeDir(Seq<char>),
    WriteText(Seq<char>, Seq<char>),
    WriteBytes(Seq<char>, Seq<u8>),
}

impl View for Step {
    type V = StepView;

    open spec fn view(&self) -> StepView {
        match self {
            Step::MakeDir(path) => StepView::MakeDir(path@),
            Step::WriteText(path, text) => StepView::WriteText(path@, text@),
            Step::WriteBytes(path, bytes) => StepView::WriteBytes(path@, bytes@),
        }
    }
}

/// The views of a run of steps.
pub open spec fn step_views(steps: Seq<Step>) -> Seq<StepView> {
    steps.map_values(|s: Step| s@)
}

/// `str1` followed by `str2`.
pub fn concat_str(str1: &str, str2: &str) -> (joined: String)
    ensures
        joined@ == str1@ + str2@,
{
    String::from_str(str1).concat(str2)
}

/// `name` under `base`: the two with one `/` between them, which is left out
/// where `base` is empty or brings its own.
pub open spec fn spec_join(base: Seq<char>, name: Seq<char>) -> Seq<char> {
    if base.len() == 0 {
        name
    } else if base.last() == '/' {
        base + name
    } else {
        base + seq!['/'] + name
    }
}

/// The path of `name` under `base`.
pub fn join_path(base: &str, name: &str) -> (joined: String)
    ensures
        joined@ == spec_join(base@, name@),
{
    let n: usize = base.unicode_len();
    if n == 0 {
        String::from_str(name)
    } else if base.get_char(n - 1) == '/' {
        concat_str(base, name)
    } else {
        proof {
            reveal_strlit("/");
            assert("/"@ =~= seq!['/']);
        }
        let with_slash = concat_str(base, "/");
        concat_str(with_slash.as_str(), name)
    }
}

impl KitRepository {
    /// The metadata root stands under the worktree, under its reserved name.
    pub open spec fn well_formed(&self) -> bool {
        self.kitdir@ == spec_join(self.worktree@, ".kit"@)
    }

    /// The worktree's path.
    pub fn workstree_string(&self) -> (path: &str)
        ensures
            path@ == self.worktree@,
    {
        self.worktree.as_str()
    }

    /// The metadata root's path.
    pub fn kitdir_string(&self) -> (path: &str)
        ensures
            path@ == self.kitdir@,
    {
        self.kitdir.as_str()
    }
}

/// A copy of a text that may be absent.
pub fn clone_text(text: &Option<String>) -> (copy: Option<String>)
    ensures
        text_view(copy) == text_view(*text),
{
    match text {
        Some(t) => Some(t.clone()),
        None => None,
    }
}

/// The verdict on the configuration, given what the parser found under
/// `core`, `repositoryformatversion`: the outer `None` where it refused the
/// text, the inner where the key has no value.
///
/// A text that cannot be read is no configuration. One that can be read has
/// to name the version `0`: any other value, and no value at all, is a
/// version that is not supported.
pub open spec fn spec_check_version(found: Option<Option<Seq<char>>>) -> Result<(), KitError> {
    match found {
        None => Err(KitError::ConfigMissing),
        Some(None) => Err(KitError::ConfigVersionUnsupported),
        Some(Some(version)) => if version == "0"@ {
            Ok(())
        } else {
            Err(KitError::ConfigVersionUnsupported)
        },
    }
}

/// The parser's answer as the contracts see it.
pub open spec fn lookup_view(found: Result<Option<String>, String>) -> Option<Option<Seq<char>>> {
    match found {
        Ok(value) => Some(text_view(value)),
        Err(_) => None,
    }
}

/// Judges the parser's answer for the format version: only the text `0` will
/// do. A text that the parser refused counts as a missing configuration; a
/// text without the key, or with another value, as an unsupported version.
pub fn check_version(found: &Result<Option<String>, String>) -> (verdict: Result<(), KitError>)
    ensures
        verdict == spec_check_version(lookup_view(*found)),
{
    match found {
        Ok(Some(version)) => {
            let zero = String::from_str("0");
            if *version == zero {
                Ok(())
            } else {
                Err(KitError::ConfigVersionUnsupported)
            }
        },
        Ok(None) => Err(KitError::ConfigVersionUnsupported),
        Err(_) => Err(KitError::ConfigMissing),
    }
}

/// The handle on the repository at `site`, without any check.
pub open spec fn spec_handle(site: SiteView) -> RepoView {
    RepoView { worktree: site.path, kitdir: spec_join(site.path, ".kit"@), conf: site.config }
}

/// What [`KitRepository::new`] returns.
///
/// With `force` the handle is made whatever stands at the site. Without it the
/// metadata root has to exist, or there is no repository; the configuration
/// has to be there and readable, or it is missing; and it has to name the
/// format version `0`, or the version is not supported.
pub open spec fn spec_new(site: SiteView, force: bool) -> Result<RepoView, KitError> {
    if force {
        Ok(spec_handle(site))
    } else if !site.has_kitdir {
        Err(KitError::NotAKitRepository)
    } else {
        match site.config {
            None => Err(KitError::ConfigMissing),
            Some(text) => match spec_check_version(
                ini_value(text, "core"@, "repositoryformatversion"@),
            ) {
                Ok(_) => Ok(spec_handle(site)),
                Err(e) => Err(e),
            },
        }
    }
}

/// The model of a handle or a failure.
pub open spec fn repo_result(r: Result<KitRepository, KitError>) -> Result<RepoView, KitError> {
    match r {
        Ok(repo) => Ok(repo@),
        Err(e) => Err(e),
    }
}

impl KitRepository {
    /// The handle on the repository at `site`; see [`spec_new`].
    pub fn new(site: &Site, force: bool) -> (r: Result<KitRepository, KitError>)
        ensures
            repo_result(r) == spec_new(site@, force),
            r matches Ok(repo) ==> repo.well_formed(),
    {
        let repo = KitRepository {
            worktree: site.path.clone(),
            kitdir: join_path(site.path.as_str(), ".kit"),
            conf: clone_text(&site.config),
        };
        if force {
            return Ok(repo);
        }
        if !site.has_kitdir {
            return Err(KitError::NotAKitRepository);
        }
        match &site.config {
            None => Err(KitError::ConfigMissing),
            Some(text) => {
                let found = ini_lookup(text.as_str(), "core", "repositoryformatversion");
                match check_version(&found) {
                    Ok(_) => Ok(repo),
                    Err(e) => Err(e),
                }
            },
        }
    }
}

/// Whether the site is a directory with nothing in it.
pub fn dir_empty(site: &Site) -> (empty: bool)
    ensures
        empty == (site.kind == PathKind::Directory && site.empty),
{
    site.kind == PathKind::Directory && site.empty
}

/// Whether a search stops at `site`: it is a directory, and a repository opens
/// there.
pub open spec fn opens(site: SiteView) -> bool {
    site.kind == PathKind::Directory && spec_new(site, false) is Ok
}

/// The repository that encloses a directory, given the sites from that
/// directory upwards, nearest first: the one at the first site that opens.
pub open spec fn spec_find(sites: Seq<SiteView>) -> Result<RepoView, KitError>
    decreases sites.len(),
{
    if sites.len() == 0 {
        Err(KitError::NotAKitRepository)
    } else if opens(sites[0]) {
        spec_new(sites[0], false)
    } else {
        spec_find(sites.drop_first())
    }
}

/// The views of a run of sites.
pub open spec fn site_views(sites: Seq<Site>) -> Seq<SiteView> {
    sites.map_values(|s: Site| s@)
}

/// Finds the repository that encloses a directory. `sites` holds what stands
/// at that directory and at each directory above it, nearest first.
pub fn find(sites: &Vec<Site>) -> (r: Result<KitRepository, KitError>)
    ensures
        repo_result(r) == spec_find(site_views(sites@)),
        r matches Ok(repo) ==> repo.well_formed(),
{
    let ghost views = site_views(sites@);
    let mut i: usize = 0;
    assert(views.subrange(0, views.len() as int) =~= views);
    while i < sites.len()
        invariant
            i <= sites@.len(),
            views == site_views(sites@),
            spec_find(views) == spec_find(views.subrange(i as int, views.len() as int)),
        decreases sites@.len() - i,
    {
        let site = &sites[i];
        let ghost rest = views.subrange(i as int, views.len() as int);
        assert(rest[0] == site@);
        assert(rest.drop_first() =~= views.subrange(i + 1, views.len() as int));
        if site.kind == PathKind::Directory {
            match KitRepository::new(site, false) {
                Ok(repo) => {
                    return Ok(repo);
                },
                Err(_) => {},
            }
        }
        i += 1;
    }
    Err(KitError::NotAKitRepository)
}

/// Sites at which no repository opens do not change what a search finds: from
/// a directory below a repository's root, with no metadata of its own on the
/// way up, the search finds what it finds from the root.
pub proof fn lemma_find_from_below(below: Seq<SiteView>, from_root: Seq<SiteView>)
    requires
        forall|i: int| 0 <= i < below.len() ==> !opens(#[trigger] below[i]),
    ensures
        spec_find(below + from_root) == spec_find(from_root),
    decreases below.len(),
{
    if below.len() == 0 {
        assert(below + from_root =~= from_root);
    } else {
        assert((below + from_root)[0] == below[0]);
        assert((below + from_root).drop_first() =~= below.drop_first() + from_root);
        assert forall|i: int| 0 <= i < below.drop_first().len() implies !opens(
            #[trigger] below.drop_first()[i],
        ) by {
            assert(below.drop_first()[i] == below[i + 1]);
        }
        lemma_find_from_below(below.drop_first(), from_root);
    }
}

/// Where no repository opens at any site, the search fails, and says that
/// there is no repository.
pub proof fn lemma_find_nothing(sites: Seq<SiteView>)
    requires
        forall|i: int| 0 <= i < sites.len() ==> !opens(#[trigger] sites[i]),
    ensures
        spec_find(sites) == Err::<RepoView, KitError>(KitError::NotAKitRepository),
{
    lemma_find_from_below(sites, Seq::empty());
    assert(sites + Seq::<SiteView>::empty() =~= sites);
}

/// Where no site on the way up to the root has a metadata root, the search
/// fails, and says that there is no repository.
pub proof fn lemma_find_without_metadata(sites: Seq<SiteView>)
    requires
        forall|i: int| 0 <= i < sites.len() ==> !(#[trigger] sites[i]).has_kitdir,
    ensures
        spec_find(sites) == Err::<RepoView, KitError>(KitError::NotAKitRepository),
{
    lemma_find_nothing(sites);
}

/// A path under the metadata root, resolved.
#[derive(Clone, Debug)]
pub struct Resolved {
    /// The directory that the path needs: the path itself where a directory
    /// was asked for, the one that holds it where a file was.
    pub dir: String,
    /// The path.
    pub path: String,
    /// Whether `dir` is missing and the caller is to create it.
    pub create: bool,
}

/// A [`Resolved`] as the contracts see it.
pub struct ResolvedView {
    pub dir: Seq<char>,
    pub path: Seq<char>,
    pub create: bool,
}

impl View for Resolved {
    type V = ResolvedView;

    open spec fn view(&self) -> ResolvedView {
        ResolvedView { dir: self.dir@, path: self.path@, create: self.create }
    }
}

/// The model of a resolved path or a failure.
pub open spec fn resolved_result(r: Result<Resolved, KitError>) -> Result<ResolvedView, KitError> {
    match r {
        Ok(resolved) => Ok(resolved@),
        Err(e) => Err(e),
    }
}

/// The path of `name` under the metadata root.
pub fn path(repo: &KitRepository, name: &str) -> (full: String)
    ensures
        full@ == spec_join(repo.kitdir@, name@),
{
    join_path(repo.kitdir.as_str(), name)
}

/// What [`dir`] returns: the directory `name` under the metadata root, given
/// what stands there. A directory is taken as it is; a file is refused; where
/// nothing stands, the directory is to be created if `mkdir` says so and is
/// refused if not.
pub open spec fn spec_dir(repo: RepoView, name: Seq<char>, mkdir: bool, found: PathKind) -> Result<
    ResolvedView,
    KitError,
> {
    let p = spec_join(repo.kitdir, name);
    match found {
        PathKind::Directory => Ok(ResolvedView { dir: p, path: p, create: false }),
        PathKind::File => Err(KitError::NotADirectory),
        PathKind::Missing => if mkdir {
            Ok(ResolvedView { dir: p, path: p, create: true })
        } else {
            Err(KitError::NotADirectory)
        },
    }
}

/// Resolves the directory `name` under the metadata root. `found` is what
/// stands at [`path`]`(repo, name)`.
pub fn dir(repo: &KitRepository, name: &str, mkdir: bool, found: PathKind) -> (r: Result<
    Resolved,
    KitError,
>)
    ensures
        resolved_result(r) == spec_dir(repo@, name@, mkdir, found),
{
    let p = path(repo, name);
    match found {
        PathKind::Directory => Ok(Resolved { dir: p.clone(), path: p, create: false }),
        PathKind::File => Err(KitError::NotADirectory),
        PathKind::Missing => {
            if mkdir {
                Ok(Resolved { dir: p.clone(), path: p, create: true })
            } else {
                Err(KitError::NotADirectory)
            }
        },
    }
}

/// The parts with one `/` between each two of them.
pub open spec fn spec_join_all(parts: Seq<Seq<char>>) -> Seq<char>
    decreases parts.len(),
{
    if parts.len() == 0 {
        Seq::empty()
    } else if parts.len() == 1 {
        parts[0]
    } else {
        spec_join_all(parts.drop_last()) + seq!['/'] + parts.last()
    }
}

/// The views of a run of texts.
pub open spec fn text_views(texts: Seq<String>) -> Seq<Seq<char>> {
    texts.map_values(|t: String| t@)
}

/// All parts but the last, joined; the empty text where there is no part.
pub open spec fn spec_parent_name(folders: Seq<Seq<char>>) -> Seq<char> {
    if folders.len() == 0 {
        Seq::empty()
    } else {
        spec_join_all(folders.drop_last())
    }
}

/// The name, relative to the metadata root, of the directory that holds the
/// file named by `folders`: all of its parts but the last, joined.
pub fn parent_name(folders: &Vec<String>) -> (name: String)
    ensures
        name@ == spec_parent_name(text_views(folders@)),
{
    let mut name = String::new();
    if folders.len() < 2 {
        assert(folders@.len() == 1 ==> text_views(folders@).drop_last() =~= Seq::<
            Seq<char>,
        >::empty());
        return name;
    }
    let ghost parts = text_views(folders@).drop_last();
    let last: usize = folders.len() - 1;
    let mut i: usize = 0;
    assert(parts.subrange(0, 0) =~= Seq::<Seq<char>>::empty());
    while i < last
        invariant
            i <= last,
            last == folders@.len() - 1,
            parts == text_views(folders@).drop_last(),
            name@ == spec_join_all(parts.subrange(0, i as int)),
        decreases last - i,
    {
        let ghost done = parts.subrange(0, i + 1);
        assert(done.drop_last() =~= parts.subrange(0, i as int));
        assert(done.last() == folders@[i as int]@);
        if i > 0 {
            proof {
                reveal_strlit("/");
                assert("/"@ =~= seq!['/']);
            }
            name.append("/");
        }
        name.append(folders[i].as_str());
        assert(name@ =~= spec_join_all(done));
        i += 1;
    }
    assert(parts.subrange(0, last as int) =~= parts);
    name
}

/// What [`file`] returns: the last part of `folders` is the file's name, the
/// parts before it name the directory that holds it, and that directory is
/// resolved as [`spec_dir`] says. Without any part there is nothing to resolve.
pub open spec fn spec_file(
    repo: RepoView,
    folders: Seq<Seq<char>>,
    mkdir: bool,
    found: PathKind,
) -> Result<ResolvedView, KitError> {
    if folders.len() == 0 {
        Err(KitError::NotADirectory)
    } else {
        match spec_dir(repo, spec_parent_name(folders), mkdir, found) {
            Ok(d) => Ok(
                ResolvedView {
                    dir: d.path,
                    path: spec_join(d.path, folders.last()),
                    create: d.create,
                },
            ),
            Err(e) => Err(e),
        }
    }
}

/// Resolves the file named by `folders` under the metadata root. `found` is
/// what stands at [`path`]`(repo, `[`parent_name`]`(folders))`.
pub fn file(repo: &KitRepository, folders: &Vec<String>, mkdir: bool, found: PathKind) -> (r:
    Result<Resolved, KitError>)
    ensures
        resolved_result(r) == spec_file(repo@, text_views(folders@), mkdir, found),
{
    if folders.len() == 0 {
        return Err(KitError::NotADirectory);
    }
    let parent = parent_name(folders);
    match dir(repo, parent.as_str(), mkdir, found) {
        Ok(d) => {
            let name = &folders[folders.len() - 1];
            let full = join_path(d.path.as_str(), name.as_str());
            Ok(Resolved { dir: d.path, path: full, create: d.create })
        },
        Err(e) => Err(e),
    }
}

/// The configuration that a new repository starts with.
pub open spec fn spec_default_config() -> Seq<char> {
    "[core]\nrepositoryformatversion=0\nfilemode=false\nbare=false\n"@
}

/// The configuration that a new repository starts with: format version `0`,
/// no tracking of file modes, not bare.
pub fn default_config() -> (text: String)
    ensures
        text@ == spec_default_config(),
{
    String::from_str("[core]\nrepositoryformatversion=0\nfilemode=false\nbare=false\n")
}

/// The steps that lay out a new repository: the worktree, the metadata root,
/// four directories under it, and three files.
pub open spec fn spec_skeleton(repo: RepoView) -> Seq<StepView> {
    seq![
        StepView::MakeDir(repo.worktree),
        StepView::MakeDir(repo.kitdir),
        StepView::MakeDir(spec_join(repo.kitdir, "branches"@)),
        StepView::MakeDir(spec_join(repo.kitdir, "objects"@)),
        StepView::MakeDir(spec_join(repo.kitdir, "refs/tags"@)),
        StepView::MakeDir(spec_join(repo.kitdir, "refs/heads"@)),
        StepView::WriteText(
            spec_join(repo.kitdir, "description"@),
            "Unnamed repository: edit this file 'description' to name the repository.\n"@,
        ),
        StepView::WriteText(spec_join(repo.kitdir, "HEAD"@), "ref: refs/heads/master\n"@),
        StepView::WriteText(spec_join(repo.kitdir, "config"@), spec_default_config()),
    ]
}

/// What [`create`] returns. A file at the target is refused, and so is a
/// directory with anything in it; then there are no steps at all. Otherwise
/// the handle comes with the steps of [`spec_skeleton`].
pub open spec fn spec_create(site: SiteView) -> Result<(RepoView, Seq<StepView>), KitError> {
    if site.kind == PathKind::File {
        Err(KitError::PathNotDirectory)
    } else if site.kind == PathKind::Directory && !site.empty {
        Err(KitError::PathNotEmpty)
    } else {
        Ok((spec_handle(site), spec_skeleton(spec_handle(site))))
    }
}

/// The model of what [`create`] returns.
pub open spec fn created(r: Result<(KitRepository, Vec<Step>), KitError>) -> Result<
    (RepoView, Seq<StepView>),
    KitError,
> {
    match r {
        Ok((repo, steps)) => Ok((repo@, step_views(steps@))),
        Err(e) => Err(e),
    }
}

/// Plans a new repository at `site`: the handle, and the steps that the caller
/// is to carry out, in this order.
pub fn create(site: &Site) -> (r: Result<(KitRepository, Vec<Step>), KitError>)
    ensures
        created(r) == spec_create(site@),
        r matches Ok((repo, _)) ==> repo.well_formed(),
{
    let repo = KitRepository::new(site, true)?;
    if site.kind == PathKind::File {
        return Err(KitError::PathNotDirectory);
    }
    if site.kind == PathKind::Directory && !dir_empty(site) {
        return Err(KitError::PathNotEmpty);
    }
    let mut steps: Vec<Step> = Vec::new();
    steps.push(Step::MakeDir(repo.worktree.clone()));
    steps.push(Step::MakeDir(repo.kitdir.clone()));
    let branches = dir(&repo, "branches", true, PathKind::Missing)?;
    steps.push(Step::MakeDir(branches.path));
    let objects = dir(&repo, "objects", true, PathKind::Missing)?;
    steps.push(Step::MakeDir(objects.path));
    let tags = dir(&repo, "refs/tags", true, PathKind::Missing)?;
    steps.push(Step::MakeDir(tags.path));
    let heads = dir(&repo, "refs/heads", true, PathKind::Missing)?;
    steps.push(Step::MakeDir(heads.path));
    steps.push(
        Step::WriteText(
            path(&repo, "description"),
            String::from_str(
                "Unnamed repository: edit this file 'description' to name the repository.\n",
            ),
        ),
    );
    steps.push(Step::WriteText(path(&repo, "HEAD"), String::from_str("ref: refs/heads/master\n")));
    steps.push(Step::WriteText(path(&repo, "config"), default_config()));
    assert(step_views(steps@) =~= spec_skeleton(repo@));
    Ok((repo, steps))
}

/// On a fresh target, missing or an empty directory, a repository is laid
/// out: the four directories and the three files under the metadata root,
/// `HEAD` pointing at the master branch.
pub proof fn lemma_create_skeleton(site: SiteView)
    requires
        site.kind == PathKind::Missing || (site.kind == PathKind::Directory && site.empty),
    ensures
        spec_create(site) matches Ok((repo, steps)) && repo == spec_handle(site) && steps
            == spec_skeleton(repo) && steps.len() == 9 && steps[2] == StepView::MakeDir(
            spec_join(repo.kitdir, "branches"@),
        ) && steps[7] == StepView::WriteText(
            spec_join(repo.kitdir, "HEAD"@),
            "ref: refs/heads/master\n"@,
        ),
{
}

/// A directory that holds anything is refused as not empty, and nothing is
/// handed back that could change it.
pub proof fn lemma_create_rejects_entries(site: SiteView)
    requires
        site.kind == PathKind::Directory,
        !site.empty,
    ensures
        spec_create(site) == Err::<(RepoView, Seq<StepView>), KitError>(KitError::PathNotEmpty),
{
}

} // verus!
