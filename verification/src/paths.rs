//! File-system paths of the application, as text.

use vstd::prelude::*;
use crate::models::AppPaths;
use crate::text::{append, owned};

verus! {

/// `base` joined with `name` as `PathBuf::push` joins on Unix: an absolute
/// `name` replaces `base`; otherwise a `/` is put between them unless
/// `base` is empty or already ends with one.
pub open spec fn join_path_spec(base: Seq<char>, name: Seq<char>) -> Seq<char> {
    if name.len() > 0 && name[0] == '/' {
        name
    } else if base.len() == 0 || base.last() == '/' {
        base + name
    } else {
        base + "/"@ + name
    }
}

/// Joins `name` onto the path `base`.
pub fn join_path(base: &str, name: &str) -> (path: String)
    ensures
        path@ == join_path_spec(base@, name@),
{
    let name_chars = crate::text::chars_of(name);
    if name_chars.len() > 0 && name_chars[0] == '/' {
        return owned(name);
    }
    let base_chars = crate::text::chars_of(base);
    let mut path = owned(base);
    if base_chars.len() == 0 || base_chars[base_chars.len() - 1] == '/' {
        append(&mut path, name);
    } else {
        append(&mut path, "/");
        append(&mut path, name);
    }
    path
}

impl AppPaths {
    /// The layout of the data directory `root`: `config.json` and
    /// `jobs.json` in it, and the `outputs` and `designs` directories.
    pub fn under_root(root: &str) -> (paths: Self)
        ensures
            paths.root@ == root@,
            paths.config_file@ == join_path_spec(root@, "config.json"@),
            paths.jobs_file@ == join_path_spec(root@, "jobs.json"@),
            paths.outputs@ == join_path_spec(root@, "outputs"@),
            paths.designs@ == join_path_spec(root@, "designs"@),
    {
        AppPaths {
            root: owned(root),
            config_file: join_path(root, "config.json"),
            jobs_file: join_path(root, "jobs.json"),
            outputs: join_path(root, "outputs"),
            designs: join_path(root, "designs"),
        }
    }
}

} // verus!
