//! Which optional features a binary was compiled with.
//!
//! Builds with different features look identical on disk, yet they answer
//! analytics questions through different engines. Reporting the set makes
//! "which build is this?" answerable from the shipped artifact.
use vstd::prelude::*;
use vstd::string::*;

use crate::text::{join, joined, push_text, views};

verus! {

/// The version of the package.
pub const VERSION: &'static str = "2.2.0";

/// What a binary was compiled with.
#[derive(Clone, Copy, Debug, PartialEq, Eq, Structural)]
pub struct Build {
    /// The browser workspace is compiled in.
    pub browser: bool,
    /// The columnar analytics engine is compiled in.
    pub duckdb_olap: bool,
}

/// The features compiled into a binary, in a stable order.
pub open spec fn feature_names(build: Build) -> Seq<Seq<char>> {
    let browser = if build.browser {
        seq!["browser"@]
    } else {
        Seq::empty()
    };
    if build.duckdb_olap {
        browser.push("duckdb-olap"@)
    } else {
        browser
    }
}

/// Optional features compiled into a binary, in a stable order.
pub fn features(build: Build) -> (r: Vec<&'static str>)
    ensures
        r@.map_values(|name: &'static str| name@) == feature_names(build),
{
    let mut features: Vec<&'static str> = Vec::new();
    if build.browser {
        features.push("browser");
    }
    if build.duckdb_olap {
        features.push("duckdb-olap");
    }
    assert(features@.map_values(|name: &'static str| name@) =~= feature_names(build));
    features
}

/// True when a binary carries the exact feature set every production
/// package is required to ship. The packaging smoke tests assert this so a
/// binary built the wrong way cannot be shipped unnoticed.
///
/// `duckdb-olap` is not part of that set, so it is reported in [`features`] but
/// not required here.
pub fn is_release_package_build(build: Build) -> (r: bool)
    ensures
        r == build.browser,
        r == feature_names(build).contains("browser"@),
{
    proof {
        reveal_strlit("browser");
        reveal_strlit("duckdb-olap");
        assert("browser"@.len() != "duckdb-olap"@.len());
        if build.browser {
            assert(feature_names(build)[0] == "browser"@);
        }
    }
    build.browser
}

/// The one-line summary of a build.
pub open spec fn summary_line(build: Build) -> Seq<char> {
    let rendered = if feature_names(build).len() == 0 {
        "none"@
    } else {
        joined(feature_names(build), ","@)
    };
    "Base Search "@ + VERSION@ + " (features: "@ + rendered + "; release-package: "@ + (
    if build.browser {
        "yes"@
    } else {
        "no"@
    }) + ")"@
}

/// One-line summary used by the version command and the smoke tests.
pub fn summary(build: Build) -> (r: String)
    ensures
        r@ == summary_line(build),
{
    let names = features(build);
    let mut rendered: Vec<String> = Vec::new();
    let mut i: usize = 0;
    while i < names.len()
        invariant
            i <= names.len(),
            names@.map_values(|name: &'static str| name@) == feature_names(build),
            views(rendered@) == feature_names(build).take(i as int),
        decreases names.len() - i,
    {
        assert(names@[i as int]@ == feature_names(build)[i as int]);
        push_text(&mut rendered, names[i]);
        assert(views(rendered@) =~= feature_names(build).take(i + 1));
        i += 1;
    }
    assert(feature_names(build).take(names@.len() as int) =~= feature_names(build));
    let list = if names.len() == 0 {
        String::from_str("none")
    } else {
        join(&rendered, ",")
    };
    let mut out = String::from_str("Base Search ");
    out.append(VERSION);
    out.append(" (features: ");
    out.append(list.as_str());
    out.append("; release-package: ");
    out.append(
        if is_release_package_build(build) {
            "yes"
        } else {
            "no"
        },
    );
    out.append(")");
    out
}

} // verus!
