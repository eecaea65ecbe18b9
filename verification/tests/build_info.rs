use base_search::build_info::{features, is_release_package_build, summary, Build, VERSION};

const BUILDS: [Build; 4] = [
    Build { browser: false, duckdb_olap: false },
    Build { browser: false, duckdb_olap: true },
    Build { browser: true, duckdb_olap: false },
    Build { browser: true, duckdb_olap: true },
];

#[test]
fn summary_reports_the_features_it_was_built_with() {
    for build in BUILDS {
        let summary = summary(build);
        assert!(summary.starts_with("Base Search "));
        for feature in features(build) {
            assert!(
                summary.contains(feature),
                "summary must name every enabled feature: {summary}"
            );
        }
        assert_eq!(
            summary.contains("release-package: yes"),
            is_release_package_build(build),
            "the release-package verdict must match the compiled feature set"
        );
    }
}

#[test]
fn release_package_requires_the_browser_workspace() {
    for build in BUILDS {
        assert_eq!(is_release_package_build(build), features(build).contains(&"browser"));
    }
}

#[test]
fn the_summary_is_one_line() {
    let shown: Vec<String> = BUILDS.iter().map(|build| summary(*build)).collect();
    assert_eq!(
        shown,
        vec![
            format!("Base Search {VERSION} (features: none; release-package: no)"),
            format!("Base Search {VERSION} (features: duckdb-olap; release-package: no)"),
            format!("Base Search {VERSION} (features: browser; release-package: yes)"),
            format!("Base Search {VERSION} (features: browser,duckdb-olap; release-package: yes)"),
        ]
    );
}
