//! Resolution of the configuration file: find an existing one, or decide
//! where a new one is created.
use vstd::prelude::*;
use crate::error::ConfigError;
use crate::paths::{
    BaseDirs, candidate_paths, candidates_spec, first_existing, has_file, holds_file, join_path,
    join_spec, opt_view, select_existing, sep_of,
};

verus! {

/// The message of the error returned when no new file can be placed.
pub const CANNOT_CREATE: &'static str = "Could not create file";

/// The message of the error returned for an empty prefix or file name.
pub const EMPTY_NAME: &'static str = "prefix and filename must not be empty";

/// What initialization does once the files on disk are known.
#[derive(Debug)]
pub enum InitPlan {
    /// A configuration file already exists at this path: it is used as is.
    Existing(String),
    /// No file exists: create directory `dir`, then write the default value
    /// to `path`.
    Create { dir: String, path: String },
}

/// A prefix and a file name that name a path of their own: both non-empty.
pub open spec fn names_valid(prefix: Seq<char>, filename: Seq<char>) -> bool {
    prefix.len() > 0 && filename.len() > 0
}

/// The existing configuration file: the first candidate that exists.
pub open spec fn locate_spec(
    dirs: BaseDirs,
    prefix: Seq<char>,
    filename: Seq<char>,
    existing: Seq<String>,
) -> Option<Seq<char>> {
    if !names_valid(prefix, filename) {
        None
    } else {
        first_existing(candidates_spec(dirs, prefix, filename), existing)
    }
}

/// The directory that holds a new configuration file: `{base}/{prefix}`.
pub open spec fn config_dir_spec(dirs: BaseDirs, prefix: Seq<char>) -> Option<Seq<char>> {
    match dirs {
        BaseDirs::Unix { config_home, .. } => match config_home {
            Some(c) => Some(join_spec(c@, prefix, '/')),
            None => None,
        },
        BaseDirs::Windows { config_dir } => match config_dir {
            Some(d) => Some(join_spec(d@, prefix, '\\')),
            None => None,
        },
    }
}

/// Where a new configuration file goes: `{base}/{prefix}/{filename}`. On
/// Windows that path is offered only when it already exists. Empty names
/// get no path.
pub open spec fn new_path_spec(
    dirs: BaseDirs,
    prefix: Seq<char>,
    filename: Seq<char>,
    existing: Seq<String>,
) -> Option<Seq<char>> {
    if !names_valid(prefix, filename) {
        None
    } else {
        new_path_of_valid(dirs, prefix, filename, existing)
    }
}

/// [`new_path_spec`] for non-empty names.
pub open spec fn new_path_of_valid(
    dirs: BaseDirs,
    prefix: Seq<char>,
    filename: Seq<char>,
    existing: Seq<String>,
) -> Option<Seq<char>> {
    match config_dir_spec(dirs, prefix) {
        None => None,
        Some(d) => {
            let p = join_spec(d, filename, sep_of(dirs));
            match dirs {
                BaseDirs::Unix { .. } => Some(p),
                BaseDirs::Windows { .. } => if holds_file(existing, p) {
                    Some(p)
                } else {
                    None
                },
            }
        },
    }
}

/// Whether initialization writes the default value: the names are valid, no
/// candidate exists and a new path can be had.
pub open spec fn writes_default(
    dirs: BaseDirs,
    prefix: Seq<char>,
    filename: Seq<char>,
    existing: Seq<String>,
) -> bool {
    &&& names_valid(prefix, filename)
    &&& locate_spec(dirs, prefix, filename, existing) is None
    &&& new_path_spec(dirs, prefix, filename, existing) is Some
}

/// Finds the existing configuration file among the candidate paths, in
/// search order; `existing` lists the files that exist. Empty names find
/// nothing.
pub fn locate_config(dirs: &BaseDirs, prefix: &str, filename: &str, existing: &Vec<String>) -> (r:
    Option<String>)
    ensures
        opt_view(r) == locate_spec(*dirs, prefix@, filename@, existing@),
{
    if prefix.unicode_len() == 0 || filename.unicode_len() == 0 {
        return None;
    }
    let cands = candidate_paths(dirs, prefix, filename);
    select_existing(&cands, existing)
}

/// The directory of [`config_dir_spec`].
fn config_dir_of(dirs: &BaseDirs, prefix: &str) -> (r: Option<String>)
    ensures
        opt_view(r) == config_dir_spec(*dirs, prefix@),
{
    proof {
        reveal_strlit("/");
        reveal_strlit("\\");
    }
    match dirs {
        BaseDirs::Unix { config_home, .. } => match config_home {
            Some(c) => Some(join_path(c.as_str(), prefix, "/")),
            None => None,
        },
        BaseDirs::Windows { config_dir } => match config_dir {
            Some(d) => Some(join_path(d.as_str(), prefix, "\\")),
            None => None,
        },
    }
}

/// The path where a new configuration file goes, as [`new_path_spec`] says.
pub fn get_new_config_path(
    dirs: &BaseDirs,
    prefix: &str,
    filename: &str,
    existing: &Vec<String>,
) -> (r: Option<String>)
    ensures
        opt_view(r) == new_path_spec(*dirs, prefix@, filename@, existing@),
{
    proof {
        reveal_strlit("/");
        reveal_strlit("\\");
    }
    if prefix.unicode_len() == 0 || filename.unicode_len() == 0 {
        return None;
    }
    match config_dir_of(dirs, prefix) {
        None => None,
        Some(d) => match dirs {
            BaseDirs::Unix { .. } => Some(join_path(d.as_str(), filename, "/")),
            BaseDirs::Windows { .. } => {
                let p = join_path(d.as_str(), filename, "\\");
                if has_file(existing, &p) {
                    Some(p)
                } else {
                    None
                }
            },
        },
    }
}

/// Decides what initialization does: use the existing file, or create one
/// at the new path. Fails on an empty prefix or file name, and when no new
/// path can be had.
pub fn plan_init(dirs: &BaseDirs, prefix: &str, filename: &str, existing: &Vec<String>) -> (r:
    Result<InitPlan, ConfigError>)
    ensures
        !names_valid(prefix@, filename@) ==> (r matches Err(ConfigError::InvalidConfig(m)) && m@
            == EMPTY_NAME@),
        names_valid(prefix@, filename@) ==> match locate_spec(*dirs, prefix@, filename@, existing@) {
            Some(p) => r matches Ok(InitPlan::Existing(q)) && q@ == p,
            None => match new_path_spec(*dirs, prefix@, filename@, existing@) {
                Some(p) => r matches Ok(InitPlan::Create { dir, path }) && path@ == p && Some(dir@)
                    == config_dir_spec(*dirs, prefix@),
                None => r matches Err(ConfigError::Custom(m)) && m@ == CANNOT_CREATE@,
            },
        },
{
    if prefix.unicode_len() == 0 || filename.unicode_len() == 0 {
        return Err(ConfigError::InvalidConfig(EMPTY_NAME));
    }
    match locate_config(dirs, prefix, filename, existing) {
        Some(p) => Ok(InitPlan::Existing(p)),
        None => match (config_dir_of(dirs, prefix), get_new_config_path(dirs, prefix, filename, existing)) {
            (Some(dir), Some(path)) => Ok(InitPlan::Create { dir, path }),
            _ => Err(ConfigError::Custom(CANNOT_CREATE)),
        },
    }
}

/// The new path once its directory was to be created: the path itself when
/// that succeeded, else the error for a file that cannot be created.
pub fn confirm_new_path(path: String, dir_created: bool) -> (r: Result<String, ConfigError>)
    ensures
        dir_created ==> (r matches Ok(p) && p@ == path@),
        !dir_created ==> (r matches Err(ConfigError::Custom(m)) && m@ == CANNOT_CREATE@),
{
    if dir_created {
        Ok(path)
    } else {
        Err(ConfigError::Custom(CANNOT_CREATE))
    }
}

/// A file at the first candidate path is the one found, and initialization
/// then writes nothing.
pub proof fn lemma_first_candidate_wins(
    dirs: BaseDirs,
    prefix: Seq<char>,
    filename: Seq<char>,
    existing: Seq<String>,
)
    requires
        names_valid(prefix, filename),
        candidates_spec(dirs, prefix, filename).len() > 0,
        holds_file(existing, candidates_spec(dirs, prefix, filename)[0]),
    ensures
        locate_spec(dirs, prefix, filename, existing) == Some(
            candidates_spec(dirs, prefix, filename)[0],
        ),
        !writes_default(dirs, prefix, filename, existing),
        dirs matches BaseDirs::Unix { config_home: Some(c), .. } ==> locate_spec(
            dirs,
            prefix,
            filename,
            existing,
        ) == Some(join_spec(join_spec(c@, prefix, '/'), filename, '/')),
{
}

/// When no candidate exists and a new path can be had, initialization
/// writes the default value there, and a search over the files that then
/// exist finds that file.
pub proof fn lemma_created_file_is_found(
    dirs: BaseDirs,
    prefix: Seq<char>,
    filename: Seq<char>,
    existing: Seq<String>,
    created: String,
)
    requires
        names_valid(prefix, filename),
        locate_spec(dirs, prefix, filename, existing) is None,
        new_path_spec(dirs, prefix, filename, existing) == Some(created@),
    ensures
        writes_default(dirs, prefix, filename, existing),
        locate_spec(dirs, prefix, filename, existing.push(created)) == Some(created@),
        dirs matches BaseDirs::Unix { config_home: Some(c), .. } ==> created@ == join_spec(
            join_spec(c@, prefix, '/'),
            filename,
            '/',
        ),
{
    let after = existing.push(created);
    let cands = candidates_spec(dirs, prefix, filename);
    match dirs {
        BaseDirs::Unix { config_home, .. } => {
            assert(config_home is Some);
            assert(cands[0] == created@);
            assert(after[existing.len() as int] == created);
            assert(holds_file(after, cands[0]));
        },
        BaseDirs::Windows { .. } => {
            // a Windows path is offered only when it exists, so no candidate
            // can be missing while one is offered
            assert(cands[0] == created@);
            assert(first_existing(cands, existing) == Some(cands[0]));
        },
    }
}

/// `{config_home}/{prefix}.json` is preferred over
/// `{home}/.config/{prefix}/{filename}` when both exist and
/// `{config_home}/{prefix}/{filename}` does not.
pub proof fn lemma_search_precedence(
    config_home: String,
    home: String,
    prefix: Seq<char>,
    filename: Seq<char>,
    existing: Seq<String>,
)
    requires
        names_valid(prefix, filename),
        ({
            let cands = candidates_spec(
                BaseDirs::Unix { config_home: Some(config_home), home: Some(home) },
                prefix,
                filename,
            );
            &&& holds_file(existing, cands[1])
            &&& holds_file(existing, cands[2])
            &&& !holds_file(existing, cands[0])
        }),
    ensures
        locate_spec(
            BaseDirs::Unix { config_home: Some(config_home), home: Some(home) },
            prefix,
            filename,
            existing,
        ) == Some(join_spec(config_home@, prefix + ".json"@, '/')),
{
    let cands = candidates_spec(
        BaseDirs::Unix { config_home: Some(config_home), home: Some(home) },
        prefix,
        filename,
    );
    assert(cands.drop_first()[0] == cands[1]);
    assert(first_existing(cands.drop_first(), existing) == Some(cands[1]));
    assert(cands[1] == join_spec(config_home@, prefix + ".json"@, '/'));
}

/// Initializing twice in a row gives the same path, and the second time
/// writes nothing: it finds the file the first one wrote.
pub proof fn lemma_init_idempotent(
    dirs: BaseDirs,
    prefix: Seq<char>,
    filename: Seq<char>,
    existing: Seq<String>,
    created: String,
)
    requires
        writes_default(dirs, prefix, filename, existing),
        new_path_spec(dirs, prefix, filename, existing) == Some(created@),
    ensures
        !writes_default(dirs, prefix, filename, existing.push(created)),
        locate_spec(dirs, prefix, filename, existing.push(created)) == Some(created@),
{
    lemma_created_file_is_found(dirs, prefix, filename, existing, created);
}

} // verus!
