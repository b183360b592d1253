//! The application in front, and how its name and identifier are made from
//! what the system tells.

use vstd::prelude::*;

verus! {

/// The application in front, on a system that this library has no way to
/// ask: none, so that every key release is dropped.
pub fn get_active_app_info() -> (info: Option<(String, String)>)
    ensures
        info is None,
{
    None
}

/// Where the last component of a path begins: behind its last backslash,
/// at 0 where it has none.
pub open spec fn exe_name_start(path: Seq<char>) -> int
    decreases path.len(),
{
    if path.len() == 0 {
        0
    } else if path.last() == '\\' {
        path.len() as int
    } else {
        exe_name_start(path.drop_last())
    }
}

/// The last component of a path whose components are set apart by
/// backslashes: the name of the file.
pub open spec fn exe_name_of(path: Seq<char>) -> Seq<char> {
    path.subrange(exe_name_start(path), path.len() as int)
}

/// The name of the executable at `exe_path`: what follows the last
/// backslash, or all of it where there is none.
pub fn exe_name(exe_path: &str) -> (name: String)
    ensures
        name@ == exe_name_of(exe_path@),
{
    let len = exe_path.unicode_len();
    let mut start: usize = 0;
    let mut i: usize = 0;
    while i < len
        invariant
            len == exe_path@.len(),
            i <= len,
            start <= i,
            start == exe_name_start(exe_path@.take(i as int)),
        decreases len - i,
    {
        let c = exe_path.get_char(i);
        proof {
            let upto = exe_path@.take(i + 1);
            assert(upto.drop_last() == exe_path@.take(i as int));
        }
        i += 1;
        if c == '\\' {
            start = i;
        }
    }
    assert(exe_path@.take(len as int) == exe_path@);
    String::from_str(exe_path.substring_char(start, len))
}

/// The name and the identifier of the application whose executable is at
/// `exe_path`: the file's name, and the path itself.
pub fn app_info_from_exe_path(exe_path: String) -> (info: (String, String))
    ensures
        info.0@ == exe_name_of(exe_path@),
        info.1@ == exe_path@,
{
    let name = exe_name(exe_path.as_str());
    (name, exe_path)
}

/// `text` in lower case, as `str::to_lowercase` gives it.
pub uninterp spec fn lowercase(text: Seq<char>) -> Seq<char>;

/// `str::to_lowercase`: `text` with every character replaced by its lower
/// case after the rules of Unicode. The result is a function of `text`
/// alone; its characters are not spelled out here.
#[verifier::external_body]
fn to_lowercase(text: &str) -> (lower: String)
    ensures
        lower@ == lowercase(text@),
{
    text.to_lowercase()
}

/// `text` without its spaces.
pub open spec fn without_spaces(text: Seq<char>) -> Seq<char> {
    text.filter(|c: char| c != ' ')
}

/// `text` without its spaces.
pub fn remove_spaces(text: &str) -> (stripped: String)
    ensures
        stripped@ == without_spaces(text@),
{
    let len = text.unicode_len();
    let mut stripped = String::new();
    let mut i: usize = 0;
    proof {
        reveal(Seq::filter);
    }
    while i < len
        invariant
            len == text@.len(),
            i <= len,
            stripped@ == without_spaces(text@.take(i as int)),
        decreases len - i,
    {
        let c = text.get_char(i);
        proof {
            reveal(Seq::filter);
            let upto = text@.take(i + 1);
            assert(upto.drop_last() == text@.take(i as int));
        }
        if c != ' ' {
            stripped.append(text.substring_char(i, i + 1));
        }
        i += 1;
    }
    assert(text@.take(len as int) == text@);
    stripped
}

/// The identifier made up for an application that has no bundle of its
/// own: `com.`, the name in lower case without spaces, `.app`.
pub open spec fn fallback_bundle_id_of(name: Seq<char>) -> Seq<char> {
    "com."@ + without_spaces(lowercase(name)) + ".app"@
}

/// The identifier made up for the application `name`.
pub fn fallback_bundle_id(name: &str) -> (id: String)
    ensures
        id@ == fallback_bundle_id_of(name@),
{
    let lower = to_lowercase(name);
    let stripped = remove_spaces(lower.as_str());
    let mut id = String::from_str("com.");
    id.append(stripped.as_str());
    id.append(".app");
    id
}

/// The name and the identifier of the application `name`: the path of its
/// bundle where the system gave one, else the made-up identifier.
pub fn app_info_from_bundle(name: String, bundle_path: Option<String>) -> (info: (String, String))
    ensures
        info.0@ == name@,
        info.1@ == (match bundle_path {
            Some(path) => path@,
            None => fallback_bundle_id_of(name@),
        }),
{
    let id = match bundle_path {
        Some(path) => path,
        None => fallback_bundle_id(name.as_str()),
    };
    (name, id)
}

} // verus!
