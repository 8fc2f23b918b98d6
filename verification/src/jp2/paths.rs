//! The addresses under which the paths of several API descriptions are
//! listed together.

use vstd::prelude::*;
use vstd::string::{StrSliceExecFns, StringExecFns};

verus! {

/// The tag of a path that has none.
pub const UNKNOWN_TAG: &'static str = "unknown";

/// The address of the path `name` with tag `tag` under `prefix`: the prefix,
/// a slash, the tag, and the name, which is left out where it is a lone
/// slash. A path without a tag goes under `unknown`.
pub open spec fn extended_path(prefix: Seq<char>, tag: Option<Seq<char>>, name: Seq<char>) -> Seq<
    char,
> {
    let tag = match tag {
        Some(tag) => tag,
        None => "unknown"@,
    };
    let adjusted = if name == "/"@ {
        Seq::<char>::empty()
    } else {
        name
    };
    prefix + "/"@ + tag + adjusted
}

/// The address of the path `name` with tag `tag` under `prefix`. The path
/// `/random` with tag `cat` becomes `/cat/random`, and `/api/cat/random`
/// under the prefix `/api`; the path `/` with tag `dogs` becomes `/dogs`.
pub fn extend_path_by_tag(prefix: &str, tag: Option<&str>, name: &str) -> (path: String)
    ensures
        path@ == extended_path(
            prefix@,
            match tag {
                Some(tag) => Some(tag@),
                None => None,
            },
            name@,
        ),
{
    let tag = match tag {
        Some(tag) => tag,
        None => UNKNOWN_TAG,
    };
    proof {
        reveal_strlit("/");
    }
    let lone_slash = name.unicode_len() == 1 && name.get_char(0) == '/';
    assert(lone_slash <==> name@ =~= "/"@);
    let mut path = String::from_str(prefix);
    path.append("/");
    path.append(tag);
    if !lone_slash {
        path.append(name);
    }
    assert(path@ =~= extended_path(
        prefix@,
        Some(tag@),
        name@,
    ));
    path
}

} // verus!
