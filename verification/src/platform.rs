//! Where the workspace database lives.
use vstd::prelude::*;
use vstd::string::*;

use crate::ordered::{text_below_chains, text_below_is_strict, Rank};
use crate::paths::{a_joined_part_is_the_file_name, here, parts_below, path_below, rank_paths, FilePath, PathModel};
use crate::text::same;

verus! {

/// The operating systems with their own place for application data.
#[derive(Clone, Copy, Debug, PartialEq, Eq, Structural)]
pub enum RuntimePlatform {
    Windows,
    MacOs,
    Linux,
}

/// The file that mirrors the chosen language.
pub const UI_LANGUAGE_FILE: &'static str = "ui-language-v1.txt";

/// The version of the workspace selection file.
pub const WORKSPACE_SELECTION_SCHEMA: u32 = 1;

/// The file that remembers the selected workspace.
pub const WORKSPACE_SELECTION_FILE: &'static str = "workspace-selection-v1.json";

/// How many sibling folders are inspected before giving up.
pub const MAX_SIBLING_PACKAGES_SCANNED: usize = 512;

/// An optional path and what it says.
pub open spec fn path_view(p: Option<&FilePath>) -> Option<PathModel> {
    match p {
        Some(p) => Some(p@),
        None => None,
    }
}

/// Where a new workspace lives when nothing existing is chosen.
pub open spec fn stable_place(
    platform: RuntimePlatform,
    home: PathModel,
    local_app_data: Option<PathModel>,
    xdg_data_home: Option<PathModel>,
) -> PathModel {
    match platform {
        RuntimePlatform::Windows => (match local_app_data {
            Some(p) => p,
            None => home.join("AppData"@).join("Local"@),
        }).join("Base Search"@).join("data"@).join("base_search.db"@),
        RuntimePlatform::MacOs => home.join("Library"@).join("Application Support"@).join(
            "Base Search"@,
        ).join("base_search.db"@),
        RuntimePlatform::Linux => (match xdg_data_home {
            Some(p) => p,
            None => home.join(".local"@).join("share"@),
        }).join("base-search"@).join("base_search.db"@),
    }
}

/// Where a new workspace lives when nothing existing is chosen.
pub fn stable_database_path(
    platform: RuntimePlatform,
    home: &FilePath,
    local_app_data: Option<&FilePath>,
    xdg_data_home: Option<&FilePath>,
) -> (r: FilePath)
    ensures
        r@ == stable_place(platform, home@, path_view(local_app_data), path_view(xdg_data_home)),
{
    match platform {
        RuntimePlatform::Windows => {
            let base = match local_app_data {
                Some(p) => p.copy(),
                None => home.join("AppData").join("Local"),
            };
            base.join("Base Search").join("data").join("base_search.db")
        },
        RuntimePlatform::MacOs => home.join("Library").join("Application Support").join(
            "Base Search",
        ).join("base_search.db"),
        RuntimePlatform::Linux => {
            let base = match xdg_data_home {
                Some(p) => p.copy(),
                None => home.join(".local").join("share"),
            };
            base.join("base-search").join("base_search.db")
        },
    }
}

/// The home of a person: the current directory where none is known.
pub open spec fn home_place(home: Option<PathModel>) -> PathModel {
    match home {
        Some(p) => p,
        None => here(),
    }
}

/// The home of a person.
pub fn home_or_here(home: Option<&FilePath>) -> (r: FilePath)
    ensures
        r@ == home_place(path_view(home)),
{
    match home {
        Some(p) => p.copy(),
        None => FilePath::current(),
    }
}

/// The bundle that a program lies in: `X.app/Contents/MacOS/program`.
pub open spec fn bundle_place(executable: PathModel) -> Option<PathModel> {
    match executable.parent() {
        Some(macos) => match macos.parent() {
            Some(contents) => match contents.parent() {
                Some(bundle) => if macos.file_name() == Some("MacOS"@) && contents.file_name()
                    == Some("Contents"@) && bundle.extension() == Some("app"@) {
                    Some(bundle)
                } else {
                    None
                },
                None => None,
            },
            None => None,
        },
        None => None,
    }
}

/// Whether a path has a name.
fn is_named(path: &FilePath, name: &str) -> (r: bool)
    ensures
        r == (path@.file_name() == Some(name@)),
{
    match path.file_name() {
        Some(found) => same(found, name),
        None => false,
    }
}

/// The bundle that a program lies in.
pub fn macos_bundle_root(executable: &FilePath) -> (r: Option<FilePath>)
    ensures
        match r {
            Some(p) => bundle_place(executable@) == Some(p@),
            None => bundle_place(executable@) is None,
        },
{
    let macos = match executable.parent() {
        Some(p) => p,
        None => {
            return None;
        },
    };
    let contents = match macos.parent() {
        Some(p) => p,
        None => {
            return None;
        },
    };
    let bundle = match contents.parent() {
        Some(p) => p,
        None => {
            return None;
        },
    };
    let is_app = match bundle.extension() {
        Some(e) => same(e.as_str(), "app"),
        None => false,
    };
    if is_named(&macos, "MacOS") && is_named(&contents, "Contents") && is_app {
        Some(bundle)
    } else {
        None
    }
}

/// The folder of a package: the one that holds the program, or on macOS the one
/// that holds its bundle.
pub open spec fn package_place(platform: RuntimePlatform, executable: PathModel) -> PathModel {
    let folder = match executable.parent() {
        Some(p) => p,
        None => here(),
    };
    if platform == RuntimePlatform::MacOs {
        match bundle_place(executable) {
            Some(bundle) => match bundle.parent() {
                Some(p) => p,
                None => folder,
            },
            None => folder,
        }
    } else {
        folder
    }
}

/// The folder of a package.
pub fn package_root(platform: RuntimePlatform, executable: &FilePath) -> (r: FilePath)
    ensures
        r@ == package_place(platform, executable@),
{
    let folder = match executable.parent() {
        Some(p) => p,
        None => FilePath::current(),
    };
    if platform == RuntimePlatform::MacOs {
        match macos_bundle_root(executable) {
            Some(bundle) => match bundle.parent() {
                Some(p) => {
                    return p;
                },
                None => {},
            },
            None => {},
        }
    }
    folder
}

/// The database that a package carries with it.
pub open spec fn portable_place(platform: RuntimePlatform, executable: PathModel) -> PathModel {
    package_place(platform, executable).join("data"@).join("base_search.db"@)
}

/// The database that a package carries with it.
pub fn portable_db_path(platform: RuntimePlatform, executable: &FilePath) -> (r: FilePath)
    ensures
        r@ == portable_place(platform, executable@),
{
    package_root(platform, executable).join("data").join("base_search.db")
}

/// Where a workspace can sit inside a package folder: under `data/` for
/// anything the release scripts built, and directly beside the executable for
/// a folder someone simply unzipped and ran in place.
pub fn package_database_candidates(package: &FilePath) -> (r: (FilePath, FilePath))
    ensures
        r.0@ == package@.join("data"@).join("base_search.db"@),
        r.1@ == package@.join("base_search.db"@),
{
    (package.join("data").join("base_search.db"), package.join("base_search.db"))
}

/// The folder of a database.
pub open spec fn folder_place(database: PathModel) -> PathModel {
    match database.parent() {
        Some(p) => p,
        None => here(),
    }
}

/// The file that remembers the selected workspace.
pub fn workspace_selection_path(stable_database: &FilePath) -> (r: FilePath)
    ensures
        r@ == folder_place(stable_database@).join(WORKSPACE_SELECTION_FILE@),
{
    match stable_database.parent() {
        Some(p) => p.join(WORKSPACE_SELECTION_FILE),
        None => FilePath::current().join(WORKSPACE_SELECTION_FILE),
    }
}

/// The file that mirrors the chosen language, beside the default workspace.
pub fn ui_language_path(stable_database: &FilePath) -> (r: Option<FilePath>)
    ensures
        match r {
            Some(p) => stable_database@.parent() matches Some(folder) && p@ == folder.join(
                UI_LANGUAGE_FILE@,
            ),
            None => stable_database@.parent() is None,
        },
{
    match stable_database.parent() {
        Some(p) => Some(p.join(UI_LANGUAGE_FILE)),
        None => None,
    }
}

/// A remembered workspace counts if its file has the known version and it still
/// is a workspace database.
pub fn accept_workspace_selection(schema: u32, database: FilePath, is_workspace: bool) -> (r: Option<
    FilePath,
>)
    ensures
        r == (if schema == WORKSPACE_SELECTION_SCHEMA && is_workspace {
            Some(database)
        } else {
            None
        }),
{
    if schema == WORKSPACE_SELECTION_SCHEMA && is_workspace {
        Some(database)
    } else {
        None
    }
}

/// What was found of existing databases: whether the portable one, the stable one
/// and the one in the old home folder are files, and the remembered one.
pub struct Found {
    pub portable: bool,
    pub selection: Option<FilePath>,
    pub stable: bool,
    pub legacy: bool,
}

/// The existing database to open: the one carried with the package, the
/// remembered one, the one in the stable place, or the one in the old home
/// folder.
pub open spec fn existing_place(
    platform: RuntimePlatform,
    executable: PathModel,
    home: PathModel,
    local_app_data: Option<PathModel>,
    xdg_data_home: Option<PathModel>,
    found: Found,
) -> Option<PathModel> {
    if found.portable {
        Some(portable_place(platform, executable))
    } else if found.selection is Some {
        Some(found.selection->0@)
    } else if found.stable {
        Some(stable_place(platform, home, local_app_data, xdg_data_home))
    } else if found.legacy {
        Some(home.join(".base-search"@).join("base_search.db"@))
    } else {
        None
    }
}

/// The existing database to open. Existing data wins over a new database, so
/// that replacing a versioned package cannot silently start a second empty
/// workspace.
pub fn existing_database(
    platform: RuntimePlatform,
    executable: &FilePath,
    home: Option<&FilePath>,
    local_app_data: Option<&FilePath>,
    xdg_data_home: Option<&FilePath>,
    found: &Found,
) -> (r: Option<FilePath>)
    ensures
        match r {
            Some(p) => existing_place(
                platform,
                executable@,
                home_place(path_view(home)),
                path_view(local_app_data),
                path_view(xdg_data_home),
                *found,
            ) == Some(p@),
            None => existing_place(
                platform,
                executable@,
                home_place(path_view(home)),
                path_view(local_app_data),
                path_view(xdg_data_home),
                *found,
            ) is None,
        },
{
    let home = home_or_here(home);
    if found.portable {
        return Some(portable_db_path(platform, executable));
    }
    match &found.selection {
        Some(selected) => {
            return Some(selected.copy());
        },
        None => {},
    }
    if found.stable {
        return Some(stable_database_path(platform, &home, local_app_data, xdg_data_home));
    }
    if found.legacy {
        return Some(home.join(".base-search").join("base_search.db"));
    }
    None
}

/// What some paths say.
pub open spec fn path_views(v: Seq<FilePath>) -> Seq<PathModel> {
    v.map_values(|p: FilePath| p@)
}

/// Whether a path is among some paths.
pub fn has_path(list: &Vec<FilePath>, path: &FilePath) -> (r: bool)
    ensures
        r == path_views(list@).contains(path@),
{
    let mut i: usize = 0;
    while i < list.len()
        invariant
            i <= list@.len(),
            forall|j: int| 0 <= j < i ==> #[trigger] path_views(list@)[j] != path@,
        decreases list.len() - i,
    {
        assert(path_views(list@)[i as int] == list@[i as int]@);
        if list[i].same_as(path) {
            return true;
        }
        i += 1;
    }
    false
}

/// What a person is asked about databases beside the package.
#[derive(Clone, Debug)]
pub enum SiblingPrompt {
    /// There is none: nothing is asked.
    Nothing,
    /// There is one: whether to use it is asked.
    Confirm(FilePath),
    /// There are several, so that none can be picked automatically: a file is
    /// asked for, starting in the folder of the first.
    Pick(Option<FilePath>),
}

/// What a person is asked about the databases that were found.
pub fn confirm_sibling_workspace(candidates: &Vec<FilePath>) -> (r: SiblingPrompt)
    ensures
        match r {
            SiblingPrompt::Nothing => candidates@.len() == 0,
            SiblingPrompt::Confirm(one) => candidates@.len() == 1 && one@ == candidates@[0]@,
            SiblingPrompt::Pick(folder) => candidates@.len() > 1 && match folder {
                Some(p) => candidates@[0]@.parent() == Some(p@),
                None => candidates@[0]@.parent() is None,
            },
        },
{
    if candidates.len() == 0 {
        SiblingPrompt::Nothing
    } else if candidates.len() == 1 {
        SiblingPrompt::Confirm(candidates[0].copy())
    } else {
        SiblingPrompt::Pick(candidates[0].parent())
    }
}

/// The database to open when none exists where one is expected: the one that the
/// person picked, if it was offered or is a workspace database, otherwise a new
/// one in the stable place. The second part says whether to remember the choice.
///
/// What is never accepted is a path that is not a workspace database, so a
/// confused answer cannot silently point at some unrelated file.
pub fn chosen_database(
    stable: FilePath,
    candidates: &Vec<FilePath>,
    chosen: Option<FilePath>,
    is_workspace: bool,
) -> (r: (FilePath, bool))
    ensures
        r == (match chosen {
            Some(p) => if path_views(candidates@).contains(p@) || is_workspace {
                (p, true)
            } else {
                (stable, false)
            },
            None => (stable, false),
        }),
{
    match chosen {
        Some(p) => if has_path(candidates, &p) || is_workspace {
            (p, true)
        } else {
            (stable, false)
        },
        None => (stable, false),
    }
}

/// The first `n` entries of a folder that are other folders.
pub open spec fn sibling_folders(entries: Seq<(FilePath, bool)>, current: PathModel) -> Seq<
    PathModel,
>
    decreases entries.len(),
{
    if entries.len() == 0 {
        Seq::empty()
    } else {
        let before = sibling_folders(entries.drop_last(), current);
        let last = entries.last();
        if last.0@ != current && last.1 && before.len() < MAX_SIBLING_PACKAGES_SCANNED {
            before.push(last.0@)
        } else {
            before
        }
    }
}

/// The databases that some package folders can hold.
pub open spec fn folder_candidates(folders: Seq<PathModel>) -> Seq<PathModel>
    decreases folders.len(),
{
    if folders.len() == 0 {
        Seq::empty()
    } else {
        folder_candidates(folders.drop_last()).push(
            folders.last().join("data"@).join("base_search.db"@),
        ).push(folders.last().join("base_search.db"@))
    }
}

/// The databases that the folders beside a package can hold. Each entry of the
/// folder comes with whether it is a folder itself.
pub fn sibling_candidates(entries: &Vec<(FilePath, bool)>, current: &FilePath) -> (r: Vec<FilePath>)
    ensures
        path_views(r@) == folder_candidates(sibling_folders(entries@, current@)),
{
    let mut out: Vec<FilePath> = Vec::new();
    let mut count: usize = 0;
    let mut i: usize = 0;
    assert(path_views(out@) =~= folder_candidates(Seq::empty()));
    while i < entries.len()
        invariant
            i <= entries@.len(),
            count == sibling_folders(entries@.take(i as int), current@).len(),
            count <= MAX_SIBLING_PACKAGES_SCANNED,
            path_views(out@) == folder_candidates(
                sibling_folders(entries@.take(i as int), current@),
            ),
        decreases entries.len() - i,
    {
        let ghost upto = entries@.take(i + 1);
        let ghost before = sibling_folders(entries@.take(i as int), current@);
        assert(upto.drop_last() =~= entries@.take(i as int));
        assert(upto.last() == entries@[i as int]);
        let folder = &entries[i].0;
        if !folder.same_as(current) && entries[i].1 && count < MAX_SIBLING_PACKAGES_SCANNED {
            let (under_data, beside) = package_database_candidates(folder);
            let ghost start = out@;
            out.push(under_data);
            out.push(beside);
            count += 1;
            proof {
                let after = before.push(folder@);
                assert(after.drop_last() =~= before);
                assert(path_views(out@) =~= path_views(start).push(under_data@).push(beside@));
                assert(path_views(out@) =~= folder_candidates(after));
            }
        }
        i += 1;
    }
    assert(entries@.take(i as int) =~= entries@);
    out
}

/// The candidates that are workspace databases.
pub open spec fn real_databases(candidates: Seq<(FilePath, bool)>) -> Seq<PathModel>
    decreases candidates.len(),
{
    if candidates.len() == 0 {
        Seq::empty()
    } else if candidates.last().1 {
        real_databases(candidates.drop_last()).push(candidates.last().0@)
    } else {
        real_databases(candidates.drop_last())
    }
}

/// One path is another, or comes before it.
pub open spec fn not_after(a: PathModel, b: PathModel) -> bool {
    a == b || path_below(a, b)
}

/// The paths ascend.
pub open spec fn in_order(paths: Seq<PathModel>) -> bool {
    forall|i: int, j: int|
        0 <= i < j < paths.len() ==> not_after(#[trigger] paths[i], #[trigger] paths[j])
}

/// Part lists that follow each other follow by way of a third.
proof fn parts_below_chains(a: Seq<Seq<char>>, b: Seq<Seq<char>>, c: Seq<Seq<char>>)
    requires
        parts_below(a, b),
        parts_below(b, c),
    ensures
        parts_below(a, c),
    decreases c.len(),
{
    if a.len() > 0 && b.len() > 0 && c.len() > 0 {
        text_below_is_strict(a[0]);
        text_below_is_strict(b[0]);
        if a[0] == b[0] && b[0] == c[0] {
            parts_below_chains(a.drop_first(), b.drop_first(), c.drop_first());
        } else if a[0] != b[0] && b[0] != c[0] {
            text_below_chains(a[0], b[0], c[0]);
            if a[0] == c[0] {
                text_below_chains(b[0], c[0], b[0]);
            }
        }
    }
}

/// Paths that follow each other follow by way of a third.
proof fn path_below_chains(a: PathModel, b: PathModel, c: PathModel)
    requires
        path_below(a, b),
        path_below(b, c),
    ensures
        path_below(a, c),
{
    text_below_is_strict(a.root);
    text_below_is_strict(b.root);
    if a.root == b.root && b.root == c.root {
        parts_below_chains(a.parts, b.parts, c.parts);
    } else if a.root != b.root && b.root != c.root {
        text_below_chains(a.root, b.root, c.root);
        if a.root == c.root {
            text_below_chains(b.root, c.root, b.root);
        }
    }
}

/// Puts a path behind those that do not come after it.
fn insert_in_order(list: &mut Vec<FilePath>, path: FilePath)
    requires
        in_order(path_views(old(list)@)),
    ensures
        in_order(path_views(final(list)@)),
        path_views(final(list)@).to_multiset() == path_views(old(list)@).to_multiset().insert(
            path@,
        ),
{
    let ghost before = path_views(list@);
    let mut at: usize = list.len();
    let mut placed = false;
    while at > 0 && !placed
        invariant
            at <= list@.len(),
            before == path_views(list@),
            forall|j: int| at <= j < before.len() ==> not_after(path@, #[trigger] before[j]),
            placed ==> at > 0 && not_after(before[at - 1], path@),
        decreases at, (if placed {
                0int
            } else {
                1int
            }),
    {
        assert(before[at - 1] == list@[at - 1]@);
        match rank_paths(&path, &list[at - 1]) {
            Rank::Below => {
                at -= 1;
            },
            _ => {
                placed = true;
            },
        }
    }
    list.insert(at, path);
    proof {
        let after = path_views(list@);
        assert(after =~= before.insert(at as int, path@));
        assert forall|i: int, j: int| 0 <= i < j < after.len() implies not_after(
            #[trigger] after[i],
            #[trigger] after[j],
        ) by {
            let a = if i < at {
                i
            } else {
                i - 1
            };
            let b = if j < at {
                j
            } else {
                j - 1
            };
            if i == at {
                assert(after[j] == before[b]);
            } else if j == at {
                assert(after[i] == before[a]);
                if a < at - 1 {
                    assert(not_after(before[a], before[at - 1]));
                    if before[a] != before[at - 1] && before[at - 1] != path@ {
                        path_below_chains(before[a], before[at - 1], path@);
                    }
                }
            } else {
                assert(not_after(before[a], before[b]));
            }
        }
        vstd::seq_lib::to_multiset_insert(before, at as int, path@);
    }
}

/// The workspace databases among some candidates, in a stable order: it decides
/// which database a prompt for one offers.
pub fn offered_databases(candidates: &Vec<(FilePath, bool)>) -> (r: Vec<FilePath>)
    ensures
        in_order(path_views(r@)),
        path_views(r@).to_multiset() == real_databases(candidates@).to_multiset(),
{
    let mut out: Vec<FilePath> = Vec::new();
    let mut i: usize = 0;
    assert(path_views(out@) =~= real_databases(candidates@.take(0)));
    while i < candidates.len()
        invariant
            i <= candidates@.len(),
            in_order(path_views(out@)),
            path_views(out@).to_multiset() == real_databases(
                candidates@.take(i as int),
            ).to_multiset(),
        decreases candidates.len() - i,
    {
        let ghost upto = candidates@.take(i + 1);
        assert(upto.drop_last() =~= candidates@.take(i as int));
        assert(upto.last() == candidates@[i as int]);
        if candidates[i].1 {
            proof {
                real_databases(candidates@.take(i as int)).to_multiset_ensures();
            }
            insert_in_order(&mut out, candidates[i].0.copy());
        }
        i += 1;
    }
    assert(candidates@.take(i as int) =~= candidates@);
    out
}

/// Existing data carried with a package wins over every other place.
pub proof fn portable_data_wins(
    platform: RuntimePlatform,
    executable: PathModel,
    home: PathModel,
    local_app_data: Option<PathModel>,
    xdg_data_home: Option<PathModel>,
    found: Found,
)
    requires
        found.portable,
    ensures
        existing_place(platform, executable, home, local_app_data, xdg_data_home, found) == Some(
            portable_place(platform, executable),
        ),
{
}

/// Versioned packages share one default: the stable place does not depend on
/// where the program lies.
pub proof fn packages_share_a_default(
    platform: RuntimePlatform,
    one: PathModel,
    other: PathModel,
    home: PathModel,
    local_app_data: Option<PathModel>,
    xdg_data_home: Option<PathModel>,
    found: Found,
)
    requires
        !found.portable,
    ensures
        existing_place(platform, one, home, local_app_data, xdg_data_home, found) == existing_place(
            platform,
            other,
            home,
            local_app_data,
            xdg_data_home,
            found,
        ),
{
}

/// On macOS the database carried with a package never lies inside its bundle:
/// it lies in the folder that holds the bundle.
pub proof fn bundle_data_is_never_used(executable: PathModel)
    requires
        bundle_place(executable) is Some,
    ensures
        bundle_place(executable)->0.parts.len() > 0,
        portable_place(RuntimePlatform::MacOs, executable) == (PathModel {
            root: executable.root,
            parts: bundle_place(executable)->0.parts.drop_last(),
        }).join("data"@).join("base_search.db"@),
{
}

/// Each system keeps the stable database in its own place for application data.
pub proof fn each_system_has_its_own_data_folder(
    home: PathModel,
    app_data: PathModel,
    xdg: PathModel,
)
    ensures
        stable_place(RuntimePlatform::Windows, home, Some(app_data), Some(xdg)) == (PathModel {
            root: app_data.root,
            parts: app_data.parts + seq!["Base Search"@, "data"@, "base_search.db"@],
        }),
        stable_place(RuntimePlatform::Windows, home, None, Some(xdg)) == (PathModel {
            root: home.root,
            parts: home.parts + seq![
                "AppData"@,
                "Local"@,
                "Base Search"@,
                "data"@,
                "base_search.db"@,
            ],
        }),
        stable_place(RuntimePlatform::MacOs, home, Some(app_data), Some(xdg)) == (PathModel {
            root: home.root,
            parts: home.parts + seq![
                "Library"@,
                "Application Support"@,
                "Base Search"@,
                "base_search.db"@,
            ],
        }),
        stable_place(RuntimePlatform::Linux, home, Some(app_data), Some(xdg)) == (PathModel {
            root: xdg.root,
            parts: xdg.parts + seq!["base-search"@, "base_search.db"@],
        }),
        stable_place(RuntimePlatform::Linux, home, Some(app_data), None) == (PathModel {
            root: home.root,
            parts: home.parts + seq![".local"@, "share"@, "base-search"@, "base_search.db"@],
        }),
{
    assert(stable_place(RuntimePlatform::Windows, home, Some(app_data), Some(xdg)).parts
        =~= app_data.parts + seq!["Base Search"@, "data"@, "base_search.db"@]);
    assert(stable_place(RuntimePlatform::Windows, home, None, Some(xdg)).parts =~= home.parts
        + seq!["AppData"@, "Local"@, "Base Search"@, "data"@, "base_search.db"@]);
    assert(stable_place(RuntimePlatform::MacOs, home, Some(app_data), Some(xdg)).parts
        =~= home.parts + seq![
        "Library"@,
        "Application Support"@,
        "Base Search"@,
        "base_search.db"@,
    ]);
    assert(stable_place(RuntimePlatform::Linux, home, Some(app_data), Some(xdg)).parts =~= xdg.parts
        + seq!["base-search"@, "base_search.db"@]);
    assert(stable_place(RuntimePlatform::Linux, home, Some(app_data), None).parts =~= home.parts
        + seq![".local"@, "share"@, "base-search"@, "base_search.db"@]);
}

/// Portable data lies beside the program, in a folder of its own; on macOS it lies
/// beside the bundle that holds the program.
pub proof fn portable_data_lies_beside_the_program(
    folder: PathModel,
    name: Seq<char>,
    program: Seq<char>,
)
    requires
        folder.join(name).extension() == Some("app"@),
        name != "."@,
        name != ".."@,
    ensures
        portable_place(RuntimePlatform::Windows, folder.join(program)) == folder.join(
            "data"@,
        ).join("base_search.db"@),
        portable_place(RuntimePlatform::Linux, folder.join(program)) == folder.join("data"@).join(
            "base_search.db"@,
        ),
        portable_place(
            RuntimePlatform::MacOs,
            folder.join(name).join("Contents"@).join("MacOS"@).join(program),
        ) == folder.join("data"@).join("base_search.db"@),
{
    reveal_strlit(".");
    reveal_strlit("..");
    reveal_strlit("MacOS");
    reveal_strlit("Contents");
    assert("."@.len() == 1 && ".."@.len() == 2 && "MacOS"@.len() == 5 && "Contents"@.len() == 8);
    let bundle = folder.join(name);
    a_joined_part_is_the_file_name(folder, program);
    a_joined_part_is_the_file_name(folder, name);
    a_joined_part_is_the_file_name(bundle, "Contents"@);
    a_joined_part_is_the_file_name(bundle.join("Contents"@), "MacOS"@);
    a_joined_part_is_the_file_name(bundle.join("Contents"@).join("MacOS"@), program);
}

/// What is there is used in this order: portable data, the database that was
/// selected, the stable one, and that of the first versions.
pub proof fn databases_are_looked_for_in_order(
    platform: RuntimePlatform,
    executable: PathModel,
    home: PathModel,
    local_app_data: Option<PathModel>,
    xdg_data_home: Option<PathModel>,
    found: Found,
)
    ensures
        !found.portable && found.selection is Some ==> existing_place(
            platform,
            executable,
            home,
            local_app_data,
            xdg_data_home,
            found,
        ) == Some(found.selection->0@),
        !found.portable && found.selection is None && found.stable ==> existing_place(
            platform,
            executable,
            home,
            local_app_data,
            xdg_data_home,
            found,
        ) == Some(stable_place(platform, home, local_app_data, xdg_data_home)),
        !found.portable && found.selection is None && !found.stable && found.legacy
            ==> existing_place(
            platform,
            executable,
            home,
            local_app_data,
            xdg_data_home,
            found,
        ) == Some(home.join(".base-search"@).join("base_search.db"@)),
        !found.portable && found.selection is None && !found.stable && !found.legacy
            ==> existing_place(
            platform,
            executable,
            home,
            local_app_data,
            xdg_data_home,
            found,
        ) is None,
{
}

} // verus!
