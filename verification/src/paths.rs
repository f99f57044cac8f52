//! Expansion of the configuration file path: `~/` is replaced by the home
//! directory, a relative path is anchored at the working directory, and an
//! absolute path is kept as it is.
//!
//! The home and working directories come in as plain arguments, so the rule
//! itself is pure; the caller reads them from the environment.

use vstd::prelude::*;
use vstd::string::{StringExecFns, StrSliceExecFns};
use crate::strutil::{is_prefix_of, str_has_prefix};

verus! {

/// Where the expanded path comes from: `~/rest` becomes `home` + `/rest`, a
/// path that does not start with `/` is anchored at `cwd`, and an absolute
/// path stands as it is.
pub open spec fn spec_expand_path(path: Seq<char>, home: Seq<char>, cwd: Seq<char>) -> Seq<
    char,
> {
    if is_prefix_of("~/"@, path) {
        home + path.subrange(1, path.len() as int)
    } else if is_prefix_of("/"@, path) {
        path
    } else {
        cwd + "/"@ + path
    }
}

/// Expand a configuration file path against the given home and working
/// directories.
pub fn expand_path(path: &str, home: &str, cwd: &str) -> (r: String)
    ensures
        r@ == spec_expand_path(path@, home@, cwd@),
{
    if str_has_prefix(path, "~/") {
        proof {
            reveal_strlit("~/");
        }
        let len = path.unicode_len();
        let rest = path.substring_char(1, len);
        String::from_str(home).concat(rest)
    } else if str_has_prefix(path, "/") {
        String::from_str(path)
    } else {
        let joined = String::from_str(cwd).concat("/").concat(path);
        proof {
            assert(joined@ =~= cwd@ + "/"@ + path@);
        }
        joined
    }
}

} // verus!
