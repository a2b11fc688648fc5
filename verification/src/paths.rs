//! Path helpers: expanding a leading `~/`, and resolving a path relative
//! to the directory a configuration file lives in, with lexical cleanup.
//!
//! Paths are plain strings with `/` separators and no trailing separator.

use vstd::prelude::*;

use crate::strutil::{
    is_prefix, is_suffix, last_index_of, lemma_last_index_of_absent, lemma_last_index_of_witness,
    rfind_char, str_eq, strip_prefix_str, substring_of,
};

verus! {

/// What `path_clean::clean` returns for a path text: the lexical cleanup
/// that collapses repeated separators, removes `.` components and resolves
/// `..` against preceding components.
pub uninterp spec fn cleaned(path: Seq<char>) -> Seq<char>;

/// Relies on `path_clean::clean`: a lexical function of the path text
/// alone; no filesystem is consulted.
#[verifier::external_body]
fn clean_path(path: &str) -> (r: String)
    ensures
        r@ == cleaned(path@),
{
    path_clean::clean(path).to_string_lossy().into_owned()
}

/// Relies on `dirs::home_dir`, which consults the environment; nothing is
/// promised of the result.
#[verifier::external_body]
fn home_dir_string() -> (r: Option<String>) {
    dirs::home_dir().map(|p| p.to_string_lossy().into_owned())
}

/// Relies on `dirs::config_dir`, which consults the environment; nothing
/// is promised of the result.
#[verifier::external_body]
fn config_dir_string() -> (r: Option<String>) {
    dirs::config_dir().map(|p| p.to_string_lossy().into_owned())
}

/// Expands a leading `~/` to the user's home directory.  A path without
/// that prefix is returned unchanged; with it, the rest of the path is
/// joined onto whatever the environment reports as home.
pub fn expand_dir(path: &str) -> (r: Option<String>)
    ensures
        !is_prefix("~/"@, path@) ==> (r matches Some(p) && p@ == path@),
        is_prefix("~/"@, path@) ==> (r matches Some(p) ==> exists|home: Seq<char>|
            p@ == #[trigger] (home + "/"@ + path@.skip("~/"@.len() as int))),
{
    match strip_prefix_str(path, "~/") {
        Some(stripped) => match home_dir_string() {
            Some(home) => {
                let ghost home_view = home@;
                let mut out = home;
                out.append("/");
                out.append(stripped.as_str());
                proof {
                    assert(out@ == home_view + "/"@ + path@.skip("~/"@.len() as int));
                }
                Some(out)
            },
            None => None,
        },
        None => Some(path.to_owned()),
    }
}

/// The directory part of a path: everything before the last `/`.  The
/// root's and the empty path's parent is `.`; a bare file name's parent is
/// the empty path; a path directly under the root keeps the root.
pub open spec fn spec_parent_dir(p: Seq<char>) -> Seq<char> {
    if p.len() == 0 || p == "/"@ {
        "."@
    } else {
        let k = last_index_of(p, '/');
        if k < 0 {
            Seq::empty()
        } else if k == 0 {
            "/"@
        } else {
            p.take(k)
        }
    }
}

/// Joining `rel` onto `dir`: an absolute `rel` stands alone, an empty
/// `dir` contributes nothing, and a separator is inserted unless `dir`
/// already ends with one.
pub open spec fn spec_join(dir: Seq<char>, rel: Seq<char>) -> Seq<char> {
    if rel.len() > 0 && rel[0] == '/' {
        rel
    } else if dir.len() == 0 {
        rel
    } else if dir[dir.len() - 1] == '/' {
        dir + rel
    } else {
        dir + "/"@ + rel
    }
}

/// Resolves `relative` against the directory of the configuration file,
/// when one is known, and cleans the result lexically; with no
/// configuration path the relative path itself is cleaned.
pub fn join_with_config_dir(config_path: Option<&String>, relative: &str) -> (r: String)
    ensures
        match config_path {
            Some(base) => r@ == cleaned(spec_join(spec_parent_dir(base@), relative@)),
            None => r@ == cleaned(relative@),
        },
{
    match config_path {
        None => clean_path(relative),
        Some(base) => {
            let n = base.unicode_len();
            let dir: String = if n == 0 || str_eq(base.as_str(), "/") {
                String::from_str(".")
            } else {
                match rfind_char(base.as_str(), '/') {
                    None => {
                        proof {
                            lemma_last_index_of_absent(base@, '/');
                        }
                        String::new()
                    },
                    Some(k) => {
                        proof {
                            lemma_last_index_of_witness(base@, '/', k as int);
                        }
                        if k == 0 {
                            String::from_str("/")
                        } else {
                            substring_of(base.as_str(), 0, k)
                        }
                    },
                }
            };
            let m = relative.unicode_len();
            let dn = dir.unicode_len();
            let joined: String = if m > 0 && relative.get_char(0) == '/' {
                relative.to_owned()
            } else if dn == 0 {
                relative.to_owned()
            } else if dir.as_str().get_char(dn - 1) == '/' {
                let mut out = dir;
                out.append(relative);
                out
            } else {
                let mut out = dir;
                out.append("/");
                out.append(relative);
                out
            };
            clean_path(joined.as_str())
        },
    }
}

/// The default location of the configuration file: the platform's
/// configuration directory, when the environment reports one, plus
/// `shared-kit-cli/metadata.toml`.
pub fn get_default_config_path() -> (r: Option<String>)
    ensures
        r matches Some(p) ==> is_suffix("/shared-kit-cli/metadata.toml"@, p@),
{
    match config_dir_string() {
        Some(dir) => {
            let mut out = dir;
            out.append("/shared-kit-cli/metadata.toml");
            proof {
                assert(out@.subrange(
                    out@.len() - "/shared-kit-cli/metadata.toml"@.len(),
                    out@.len() as int,
                ) =~= "/shared-kit-cli/metadata.toml"@);
            }
            Some(out)
        },
        None => None,
    }
}

} // verus!
