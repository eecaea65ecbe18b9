use base_search::ordered::Rank;
use base_search::paths::{is_delimited_path, lower_ascii, rank_paths, FilePath};
use base_search::platform::{
    accept_workspace_selection, chosen_database, confirm_sibling_workspace, existing_database,
    offered_databases, package_root, sibling_candidates, stable_database_path, ui_language_path,
    workspace_selection_path, Found, RuntimePlatform, SiblingPrompt, MAX_SIBLING_PACKAGES_SCANNED,
};

fn path(text: &str) -> FilePath {
    match text.strip_prefix('/') {
        Some(rest) => FilePath {
            root: "/".to_string(),
            parts: rest.split('/').map(str::to_string).collect(),
        },
        None => FilePath {
            root: String::new(),
            parts: text.split('/').map(str::to_string).collect(),
        },
    }
}

/// A disk in memory: its files, each with whether it is a workspace database, and
/// the workspace that was remembered.
struct Disk {
    files: Vec<(FilePath, bool)>,
    remembered: Option<FilePath>,
}

impl Disk {
    fn new(files: &[(&str, bool)]) -> Disk {
        Disk {
            files: files.iter().map(|(file, real)| (path(file), *real)).collect(),
            remembered: None,
        }
    }

    fn is_file(&self, file: &FilePath) -> bool {
        self.files.iter().any(|(found, _)| found == file)
    }

    fn is_workspace(&self, file: &FilePath) -> bool {
        self.files.iter().any(|(found, real)| found == file && *real)
    }

    /// The folders that lie in a folder, in the order in which their files came.
    fn folders_in(&self, folder: &FilePath) -> Vec<(FilePath, bool)> {
        let depth = folder.parts.len();
        let mut found: Vec<(FilePath, bool)> = Vec::new();
        for (file, _) in &self.files {
            if file.parts.len() > depth && file.parts[..depth] == folder.parts[..] {
                let entry = FilePath {
                    root: file.root.clone(),
                    parts: file.parts[..depth + 1].to_vec(),
                };
                if !found.iter().any(|(seen, _)| *seen == entry) {
                    found.push((entry, file.parts.len() > depth + 1));
                }
            }
        }
        found
    }
}

struct Machine {
    platform: RuntimePlatform,
    home: Option<FilePath>,
    local_app_data: Option<FilePath>,
}

fn windows() -> Machine {
    Machine {
        platform: RuntimePlatform::Windows,
        home: Some(path("/tmp/home")),
        local_app_data: Some(path("/tmp/local-app-data")),
    }
}

fn resolve(
    machine: &Machine,
    disk: &mut Disk,
    executable: &FilePath,
    choose: impl FnOnce(&[FilePath]) -> Option<FilePath>,
) -> FilePath {
    let home = machine.home.clone().unwrap_or_else(FilePath::current);
    let stable =
        stable_database_path(machine.platform, &home, machine.local_app_data.as_ref(), None);
    let package = package_root(machine.platform, executable);
    let selection = disk
        .remembered
        .clone()
        .and_then(|found| {
            let real = disk.is_workspace(&found);
            accept_workspace_selection(1, found, real)
        });
    let found = Found {
        portable: disk.is_file(&package.join("data").join("base_search.db")),
        selection,
        stable: disk.is_file(&stable),
        legacy: disk.is_file(&home.join(".base-search").join("base_search.db")),
    };
    if let Some(existing) = existing_database(
        machine.platform,
        executable,
        machine.home.as_ref(),
        machine.local_app_data.as_ref(),
        None,
        &found,
    ) {
        return existing;
    }
    let entries = match package.parent() {
        Some(parent) => disk.folders_in(&parent),
        None => Vec::new(),
    };
    let candidates: Vec<(FilePath, bool)> = sibling_candidates(&entries, &package)
        .into_iter()
        .map(|candidate| {
            let real = disk.is_workspace(&candidate);
            (candidate, real)
        })
        .collect();
    let offered = offered_databases(&candidates);
    let chosen = choose(&offered);
    let real = chosen.as_ref().is_some_and(|picked| disk.is_workspace(picked));
    let (database, remember) = chosen_database(stable, &offered, chosen, real);
    if remember {
        disk.remembered = Some(database.clone());
    }
    database
}

const STABLE: &str = "/tmp/local-app-data/Base Search/data/base_search.db";

#[test]
fn versioned_packages_share_a_stable_default_but_existing_portable_data_wins() {
    let mut disk = Disk::new(&[]);
    let v1_exe = path("/tmp/BaseSearch-1.6.5/BaseSearch.exe");
    let v2_exe = path("/tmp/BaseSearch-2.0.0/BaseSearch.exe");

    let v1_default = resolve(&windows(), &mut disk, &v1_exe, |_| None);
    let v2_default = resolve(&windows(), &mut disk, &v2_exe, |_| None);
    assert_eq!(v1_default, path(STABLE));
    assert_eq!(v2_default, path(STABLE));

    let portable = path("/tmp/BaseSearch-2.0.0/data/base_search.db");
    disk.files.push((portable.clone(), false));
    assert_eq!(resolve(&windows(), &mut disk, &v2_exe, |_| None), portable);
}

#[test]
fn legacy_home_database_is_selected_instead_of_opening_an_empty_new_database() {
    let machine = Machine {
        platform: RuntimePlatform::Linux,
        home: Some(path("/tmp/home")),
        local_app_data: None,
    };
    let mut disk = Disk::new(&[("/tmp/home/.base-search/base_search.db", false)]);
    assert_eq!(
        resolve(&machine, &mut disk, &path("/tmp/bin/BaseSearch"), |_| None),
        path("/tmp/home/.base-search/base_search.db")
    );
}

#[test]
fn macos_app_uses_external_portable_data_or_application_support_never_bundle_data() {
    let machine = Machine {
        platform: RuntimePlatform::MacOs,
        home: Some(path("/tmp/home")),
        local_app_data: None,
    };
    let package = "/tmp/BaseSearch-2.0.0-macos-aarch64";
    let executable = path(&format!("{package}/BaseSearch.app/Contents/MacOS/BaseSearch"));
    let inside_bundle =
        format!("{package}/BaseSearch.app/Contents/MacOS/data/base_search.db");
    let mut disk = Disk::new(&[(&inside_bundle, false)]);

    assert_eq!(
        resolve(&machine, &mut disk, &executable, |_| None),
        path("/tmp/home/Library/Application Support/Base Search/base_search.db")
    );

    let external_portable = path(&format!("{package}/data/base_search.db"));
    disk.files.push((external_portable.clone(), false));
    assert_eq!(resolve(&machine, &mut disk, &executable, |_| None), external_portable);

    assert_ne!(path(&inside_bundle), external_portable);
}

#[test]
fn confirmed_sibling_v1_workspace_is_reused_without_moving_or_deleting_it() {
    let old_database = path("/tmp/BaseSearch-1.6.5/data/base_search.db");
    let mut disk = Disk::new(&[("/tmp/BaseSearch-1.6.5/data/base_search.db", true)]);
    let v2_executable = path("/tmp/BaseSearch-2.0.0/BaseSearch.exe");

    let selected = resolve(&windows(), &mut disk, &v2_executable, |candidates| {
        assert_eq!(candidates, [old_database.clone()]);
        Some(candidates[0].clone())
    });

    assert_eq!(selected, old_database);
    assert!(disk.is_file(&old_database));
    assert!(!disk.is_file(&path(STABLE)), "the V1 database must not be copied");
    assert_eq!(
        disk.remembered,
        Some(old_database.clone()),
        "only an explicit workspace pointer should be persisted"
    );
    assert_eq!(
        workspace_selection_path(&path(STABLE)),
        path("/tmp/local-app-data/Base Search/data/workspace-selection-v1.json")
    );

    assert_eq!(
        resolve(&windows(), &mut disk, &v2_executable, |_| panic!(
            "a persisted explicit selection must not prompt again"
        )),
        old_database
    );
}

#[test]
fn a_v1_workspace_is_found_whatever_its_folder_is_called() {
    for folder in ["BaseSearch", "Base Search 1.3", "basesearch_old", "БазаПошук"] {
        let old = format!("/tmp/{folder}/data/base_search.db");
        let mut disk = Disk::new(&[(&old, true)]);
        let executable = path("/tmp/BaseSearch-2.1.1/BaseSearch.exe");

        let mut offered = Vec::new();
        let selected = resolve(&windows(), &mut disk, &executable, |candidates| {
            offered = candidates.to_vec();
            candidates.first().cloned()
        });

        assert_eq!(offered, vec![path(&old)], "folder {folder:?} was not offered");
        assert_eq!(selected, path(&old), "folder {folder:?} was not selected");
    }
}

#[test]
fn several_candidates_are_offered_in_a_stable_order() {
    let mut disk = Disk::new(&[
        ("/tmp/zulu/data/base_search.db", true),
        ("/tmp/alpha/data/base_search.db", true),
    ]);
    let executable = path("/tmp/BaseSearch-2.1.1/BaseSearch.exe");

    let mut offered = Vec::new();
    resolve(&windows(), &mut disk, &executable, |candidates| {
        offered = candidates.to_vec();
        None
    });
    assert_eq!(
        offered,
        vec![path("/tmp/alpha/data/base_search.db"), path("/tmp/zulu/data/base_search.db")]
    );
}

#[test]
fn a_workspace_beside_the_executable_is_found_too() {
    let mut disk = Disk::new(&[("/tmp/old-copy/base_search.db", true)]);
    let executable = path("/tmp/BaseSearch-2.1.1/BaseSearch.exe");

    let selected =
        resolve(&windows(), &mut disk, &executable, |candidates| candidates.first().cloned());
    assert_eq!(selected, path("/tmp/old-copy/base_search.db"));
}

#[test]
fn a_folder_without_a_real_database_is_never_offered() {
    let mut disk = Disk::new(&[
        ("/tmp/BaseSearch-1.6.5/data/base_search.db", false),
        ("/tmp/notes/data/base_search.db", false),
    ]);
    let executable = path("/tmp/BaseSearch-2.1.1/BaseSearch.exe");

    assert_eq!(
        resolve(&windows(), &mut disk, &executable, |candidates| {
            assert!(candidates.is_empty(), "offered {candidates:?}");
            None
        }),
        path(STABLE)
    );
}

#[test]
fn a_hand_picked_database_is_accepted_and_a_bogus_path_is_not() {
    let elsewhere = path("/tmp/archive/2019/base.db");
    let mut disk = Disk::new(&[("/tmp/archive/2019/base.db", true), ("/tmp/holiday.jpg", false)]);
    let executable = path("/tmp/BaseSearch-2.1.1/BaseSearch.exe");

    assert_eq!(
        resolve(&windows(), &mut disk, &executable, |_| Some(elsewhere.clone())),
        elsewhere,
        "a database outside the scanned folders must still be usable"
    );

    disk.remembered = None;
    assert_eq!(
        resolve(&windows(), &mut disk, &executable, |_| Some(path("/tmp/holiday.jpg"))),
        path(STABLE),
        "a path that is not a Base Search database must be refused"
    );
    assert_eq!(disk.remembered, None);
}

#[test]
fn a_crowded_folder_is_not_searched_to_its_end() {
    let entries: Vec<(FilePath, bool)> = (0..MAX_SIBLING_PACKAGES_SCANNED + 5)
        .map(|n| (path(&format!("/p/{n}")), true))
        .collect();
    let found = sibling_candidates(&entries, &path("/p/0"));
    assert_eq!(found.len(), 2 * MAX_SIBLING_PACKAGES_SCANNED);
    assert_eq!(found[0], path("/p/1/data/base_search.db"));
    assert_eq!(found[1], path("/p/1/base_search.db"));
    assert!(sibling_candidates(&vec![(path("/p/file"), false)], &path("/p/0")).is_empty());
}

#[test]
fn a_remembered_workspace_has_to_be_of_the_known_version() {
    assert_eq!(accept_workspace_selection(1, path("a.db"), true), Some(path("a.db")));
    assert_eq!(accept_workspace_selection(2, path("a.db"), true), None);
    assert_eq!(accept_workspace_selection(1, path("a.db"), false), None);
    assert_eq!(
        ui_language_path(&path("/d/base_search.db")),
        Some(path("/d/ui-language-v1.txt"))
    );
    let root = FilePath { root: "/".to_string(), parts: Vec::new() };
    assert_eq!(ui_language_path(&root), None);
}

#[test]
fn one_candidate_is_confirmed_and_several_are_picked_from() {
    assert!(matches!(confirm_sibling_workspace(&Vec::new()), SiblingPrompt::Nothing));
    match confirm_sibling_workspace(&vec![path("/a/base_search.db")]) {
        SiblingPrompt::Confirm(one) => assert_eq!(one, path("/a/base_search.db")),
        _ => panic!("one candidate is confirmed"),
    }
    match confirm_sibling_workspace(&vec![path("/a/x.db"), path("/b/x.db")]) {
        SiblingPrompt::Pick(folder) => assert_eq!(folder, Some(path("/a"))),
        _ => panic!("several candidates are picked from"),
    }
}

#[test]
fn paths_are_told_apart_by_their_parts() {
    let data = path("/a/data.v2/table.CSV");
    assert_eq!(data.file_name(), Some("table.CSV"));
    assert_eq!(data.extension().as_deref(), Some("CSV"));
    assert_eq!(data.parent(), Some(path("/a/data.v2")));
    assert_eq!(data.with_file_name("x.txt"), path("/a/data.v2/x.txt"));
    assert_eq!(data.with_extension("xlsx"), path("/a/data.v2/table.xlsx"));
    assert_eq!(path("/a/.hidden").extension(), None);
    assert_eq!(path("/a/..").file_name(), None);
    assert!(is_delimited_path(&data));
    assert!(is_delimited_path(&path("a.tsv")));
    assert!(!is_delimited_path(&path("a.xlsx")));
    assert_eq!(lower_ascii("CSV-Ж"), "csv-Ж");
    assert!(matches!(rank_paths(&path("/a/b"), &path("/a/c")), Rank::Below));
    assert!(matches!(rank_paths(&path("/a/b"), &path("/a/b")), Rank::Same));
    assert!(matches!(rank_paths(&path("/a/b/c"), &path("/a/b")), Rank::Above));
}
