//! The candidate locations of a configuration file, and the choice among
//! them given which files exist.
use vstd::prelude::*;

verus! {

/// The base directories of the running platform, as the host reported them.
///
/// On Unix-like systems `config_home` is `$XDG_CONFIG_HOME` (or its default)
/// and `home` is `$HOME`; on Windows `config_dir` is the platform
/// configuration directory. A `None` is a directory the host could not name.
#[derive(Debug)]
pub enum BaseDirs {
    Unix { config_home: Option<String>, home: Option<String> },
    Windows { config_dir: Option<String> },
}

/// `base` followed by `seg`, with one `sep` between them unless `base` is
/// empty or already ends with `sep`.
pub open spec fn join_spec(base: Seq<char>, seg: Seq<char>, sep: char) -> Seq<char> {
    if base.len() == 0 || base.last() == sep {
        base + seg
    } else {
        base.push(sep) + seg
    }
}

/// The separator of path segments: `/`, or `\` on Windows.
pub open spec fn sep_of(dirs: BaseDirs) -> char {
    match dirs {
        BaseDirs::Unix { .. } => '/',
        BaseDirs::Windows { .. } => '\\',
    }
}

/// The candidate paths in the order they are searched.
///
/// Unix-like: `{config_home}/{prefix}/{filename}`, `{config_home}/{prefix}.json`,
/// `{home}/.config/{prefix}/{filename}`, `{home}/.{prefix}.json`, each present
/// only when its base directory is known. Windows: `{config_dir}\{prefix}\{filename}`.
pub open spec fn candidates_spec(dirs: BaseDirs, prefix: Seq<char>, filename: Seq<char>) -> Seq<
    Seq<char>,
> {
    match dirs {
        BaseDirs::Unix { config_home, home } => {
            let from_config = match config_home {
                Some(c) => seq![
                    join_spec(join_spec(c@, prefix, '/'), filename, '/'),
                    join_spec(c@, prefix + ".json"@, '/'),
                ],
                None => Seq::empty(),
            };
            let from_home = match home {
                Some(h) => seq![
                    join_spec(join_spec(join_spec(h@, ".config"@, '/'), prefix, '/'), filename, '/'),
                    join_spec(h@, "."@ + prefix + ".json"@, '/'),
                ],
                None => Seq::empty(),
            };
            from_config + from_home
        },
        BaseDirs::Windows { config_dir } => match config_dir {
            Some(d) => seq![join_spec(join_spec(d@, prefix, '\\'), filename, '\\')],
            None => Seq::empty(),
        },
    }
}

/// Whether `existing` lists a file at path `p`.
pub open spec fn holds_file(existing: Seq<String>, p: Seq<char>) -> bool {
    exists|i: int| 0 <= i < existing.len() && (#[trigger] existing[i])@ == p
}

/// The first of `cands` that `existing` lists.
pub open spec fn first_existing(cands: Seq<Seq<char>>, existing: Seq<String>) -> Option<Seq<char>>
    decreases cands.len(),
{
    if cands.len() == 0 {
        None
    } else if holds_file(existing, cands[0]) {
        Some(cands[0])
    } else {
        first_existing(cands.drop_first(), existing)
    }
}

/// The view of an optional path.
pub open spec fn opt_view(o: Option<String>) -> Option<Seq<char>> {
    match o {
        Some(s) => Some(s@),
        None => None,
    }
}

/// Joins two path segments as [`join_spec`] says.
pub fn join_path(base: &str, seg: &str, sep: &str) -> (r: String)
    requires
        sep@.len() == 1,
    ensures
        r@ == join_spec(base@, seg@, sep@[0]),
{
    let n = base.unicode_len();
    let mut r = String::from_str(base);
    if n > 0 && base.get_char(n - 1) != sep.get_char(0) {
        r.append(sep);
        assert(base@.push(sep@[0]) =~= base@ + sep@);
    }
    r.append(seg);
    r
}

/// Whether `existing` holds `p`.
pub fn has_file(existing: &Vec<String>, p: &String) -> (r: bool)
    ensures
        r == holds_file(existing@, p@),
{
    let mut i: usize = 0;
    while i < existing.len()
        invariant
            i <= existing@.len(),
            forall|j: int| 0 <= j < i ==> (#[trigger] existing@[j])@ != p@,
        decreases existing@.len() - i,
    {
        if existing[i] == *p {
            return true;
        }
        i = i + 1;
    }
    false
}

/// The candidate paths of [`candidates_spec`], in search order.
pub fn candidate_paths(dirs: &BaseDirs, prefix: &str, filename: &str) -> (r: Vec<String>)
    ensures
        r@.map_values(|s: String| s@) == candidates_spec(*dirs, prefix@, filename@),
{
    let mut r: Vec<String> = Vec::new();
    proof {
        reveal_strlit("/");
        reveal_strlit("\\");
    }
    match dirs {
        BaseDirs::Unix { config_home, home } => {
            if let Some(c) = config_home {
                let dir = join_path(c.as_str(), prefix, "/");
                r.push(join_path(dir.as_str(), filename, "/"));
                let flat = String::from_str(prefix).concat(".json");
                r.push(join_path(c.as_str(), flat.as_str(), "/"));
            }
            if let Some(h) = home {
                let dot_config = join_path(h.as_str(), ".config", "/");
                let dir = join_path(dot_config.as_str(), prefix, "/");
                r.push(join_path(dir.as_str(), filename, "/"));
                let hidden = String::from_str(".").concat(prefix).concat(".json");
                r.push(join_path(h.as_str(), hidden.as_str(), "/"));
            }
        },
        BaseDirs::Windows { config_dir } => {
            if let Some(d) = config_dir {
                let dir = join_path(d.as_str(), prefix, "\\");
                r.push(join_path(dir.as_str(), filename, "\\"));
            }
        },
    }
    assert(r@.map_values(|s: String| s@) =~= candidates_spec(*dirs, prefix@, filename@));
    r
}

/// The first of `cands` that `existing` lists, as [`first_existing`] says.
pub fn select_existing(cands: &Vec<String>, existing: &Vec<String>) -> (r: Option<String>)
    ensures
        opt_view(r) == first_existing(cands@.map_values(|s: String| s@), existing@),
{
    let ghost all = cands@.map_values(|s: String| s@);
    let mut i: usize = 0;
    assert(all.subrange(0, all.len() as int) =~= all);
    while i < cands.len()
        invariant
            i <= cands@.len(),
            all == cands@.map_values(|s: String| s@),
            first_existing(all, existing@) == first_existing(all.subrange(i as int, all.len() as int), existing@),
        decreases cands@.len() - i,
    {
        let ghost rest = all.subrange(i as int, all.len() as int);
        assert(rest[0] == cands@[i as int]@);
        if has_file(existing, &cands[i]) {
            return Some(cands[i].clone());
        }
        assert(rest.drop_first() =~= all.subrange(i + 1, all.len() as int));
        i = i + 1;
    }
    None
}

} // verus!
