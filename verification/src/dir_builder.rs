//! Planning of the project directory tree.
//!
//! [`get_dirs`] produces the ordered list of directories to create, relative
//! to the directory the project is built in:
//!
//! ```text
//! <root_name>/
//! ├── config/
//! ├── files/
//! ├── notebooks/
//! ├── test/
//! ├── src/
//! │   └── <package_name>/
//! └── docs/ (optional)
//! ```
//!
//! The order matters: every parent stands before its children, so a builder
//! that creates one directory at a time, in the given order, never needs a
//! recursive create. Creating the filesystem entries is the caller's
//! business; this module only plans.

use vstd::prelude::*;

use crate::text::{join2, join3, seq_views};

verus! {

/// The ordered directory plan for a project rooted at `root`: the root
/// first, then its direct children, then the package directory under
/// `src`, and — only when `docs` is set — a `docs` directory last.
pub open spec fn dirs_spec(root: Seq<char>, docs: bool, package: Seq<char>) -> Seq<Seq<char>> {
    let base = seq![
        root,
        root + "/config"@,
        root + "/files"@,
        root + "/notebooks"@,
        root + "/test"@,
        root + "/src"@,
        root + "/src/"@ + package,
    ];
    if docs {
        base.push(root + "/docs"@)
    } else {
        base
    }
}

/// Generates the list of directory paths required for the project
/// structure, in creation order.
pub fn get_dirs(root_name: &str, docs: bool, package_name: &str) -> (dirs: Vec<String>)
    ensures
        seq_views(dirs@) == dirs_spec(root_name@, docs, package_name@),
        dirs@.len() == (if docs { 8int } else { 7int }),
{
    let mut dirs: Vec<String> = Vec::new();
    dirs.push(String::from_str(root_name));
    dirs.push(join2(root_name, "/config"));
    dirs.push(join2(root_name, "/files"));
    dirs.push(join2(root_name, "/notebooks"));
    dirs.push(join2(root_name, "/test"));
    dirs.push(join2(root_name, "/src"));
    dirs.push(join3(root_name, "/src/", package_name));
    if docs {
        dirs.push(join2(root_name, "/docs"));
    }
    proof {
        assert(seq_views(dirs@) =~= dirs_spec(root_name@, docs, package_name@));
    }
    dirs
}

} // verus!
