//! Planning of the boilerplate files of a new project.
//!
//! [`get_files`] produces the ordered list of `(path, content)` pairs to
//! write once the directory tree exists. The contents are the opaque
//! template constants of [`files_content`]; the one piece of templating is
//! the package name spliced into the build-metadata file. Writing the files
//! is the caller's business; this module only plans.
//!
//! ### Planned files
//! | File path | Description |
//! |-----------|-------------|
//! | `README.md` | Basic project documentation. |
//! | `pyproject.toml` | Build system requirements and metadata. |
//! | `.gitignore` | Standard patterns for Python and IDEs. |
//! | `src/<package>/__init__.py` | Init file for the python package. |
//! | `src/<package>/main.py` | The main entry point for the application. |
//! | `src/<package>/env.py` | Environment loading boilerplate. |
//! | `src/<package>/db.py` | Database connection boilerplate. |
//! | `config/DEV.yaml` | Development environment configuration. |
//! | `test/sample_test.py` | Placeholder for a unit test. |

pub mod files_content;

use vstd::prelude::*;

use crate::files_builder::files_content::{
    SAMPLE_CONFIG, SAMPLE_DB, SAMPLE_ENV, SAMPLE_GITIGNORE, SAMPLE_INIT, SAMPLE_MAIN,
    SAMPLE_PYPROJECT_HEAD, SAMPLE_PYPROJECT_TAIL, SAMPLE_README, SAMPLE_TEST,
};
use crate::text::{join2, join3, join4, pair_views};

verus! {

/// The ordered file plan for a project rooted at `root` with package
/// `package`: each entry pairs the path to write with the exact content.
/// The build-metadata entry splices `package` into its template; every
/// other content is a template written verbatim.
pub open spec fn files_spec(root: Seq<char>, package: Seq<char>) -> Seq<(Seq<char>, Seq<char>)> {
    seq![
        (root + "/README.md"@, SAMPLE_README@),
        (root + "/pyproject.toml"@, SAMPLE_PYPROJECT_HEAD@ + package + SAMPLE_PYPROJECT_TAIL@),
        (root + "/.gitignore"@, SAMPLE_GITIGNORE@),
        (root + "/src/"@ + package + "/__init__.py"@, SAMPLE_INIT@),
        (root + "/src/"@ + package + "/env.py"@, SAMPLE_ENV@),
        (root + "/src/"@ + package + "/db.py"@, SAMPLE_DB@),
        (root + "/test/sample_test.py"@, SAMPLE_TEST@),
        (root + "/src/"@ + package + "/main.py"@, SAMPLE_MAIN@),
        (root + "/config/DEV.yaml"@, SAMPLE_CONFIG@),
    ]
}

/// Maps project file paths to their respective boilerplate content, in a
/// fixed order, splicing `package_name` into the build-metadata template.
pub fn get_files(root_name: &str, package_name: &str) -> (files: Vec<(String, String)>)
    ensures
        pair_views(files@) == files_spec(root_name@, package_name@),
        files@.len() == 9,
{
    let mut files: Vec<(String, String)> = Vec::new();
    files.push((join2(root_name, "/README.md"), String::from_str(SAMPLE_README)));
    files.push(
        (
            join2(root_name, "/pyproject.toml"),
            join3(SAMPLE_PYPROJECT_HEAD, package_name, SAMPLE_PYPROJECT_TAIL),
        ),
    );
    files.push((join2(root_name, "/.gitignore"), String::from_str(SAMPLE_GITIGNORE)));
    files.push(
        (join4(root_name, "/src/", package_name, "/__init__.py"), String::from_str(SAMPLE_INIT)),
    );
    files.push((join4(root_name, "/src/", package_name, "/env.py"), String::from_str(SAMPLE_ENV)));
    files.push((join4(root_name, "/src/", package_name, "/db.py"), String::from_str(SAMPLE_DB)));
    files.push((join2(root_name, "/test/sample_test.py"), String::from_str(SAMPLE_TEST)));
    files.push(
        (join4(root_name, "/src/", package_name, "/main.py"), String::from_str(SAMPLE_MAIN)),
    );
    files.push((join2(root_name, "/config/DEV.yaml"), String::from_str(SAMPLE_CONFIG)));
    proof {
        assert(pair_views(files@) =~= files_spec(root_name@, package_name@));
    }
    files
}

} // verus!
