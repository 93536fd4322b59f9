//! Paths as text: putting a component behind a directory.

use crate::error::joined;
use vstd::prelude::*;

verus! {

/// The character between the components of a path.
pub const PATH_SEPARATOR: char = '/';

/// The separator as text.
pub const PATH_SEPARATOR_TEXT: &'static str = "/";

/// `part` put behind `base`. A `part` that starts at the root stands alone.
/// Otherwise the two are set one after the other, with a separator between
/// them unless `base` is empty or ends in one.
pub open spec fn path_join(base: Seq<char>, part: Seq<char>) -> Seq<char> {
    if part.len() > 0 && part[0] == PATH_SEPARATOR {
        part
    } else if base.len() == 0 || base.last() == PATH_SEPARATOR {
        base + part
    } else {
        base + seq![PATH_SEPARATOR] + part
    }
}

/// `part` put behind `base`.
pub fn join(base: &str, part: &str) -> (path: String)
    ensures
        path@ == path_join(base@, part@),
{
    let base_len = base.unicode_len();
    if part.unicode_len() > 0 && part.get_char(0) == PATH_SEPARATOR {
        return part.to_owned();
    }
    if base_len == 0 || base.get_char(base_len - 1) == PATH_SEPARATOR {
        return joined(base, part);
    }
    proof {
        reveal_strlit("/");
        assert(PATH_SEPARATOR_TEXT@ =~= seq![PATH_SEPARATOR]);
    }
    let mut path = joined(base, PATH_SEPARATOR_TEXT);
    path.append(part);
    path
}

} // verus!
