//! Paths as text: joining segments and expanding the home marker `~`.

use vstd::prelude::*;

verus! {

/// Whether the first segment of `p` is exactly the home marker `~`
/// (`~` alone, or `~` followed by a separator; `~foo` has no marker).
pub open spec fn has_home_marker(p: Seq<char>) -> bool {
    p.len() >= 1 && p[0] == '~' && (p.len() == 1 || p[1] == '/')
}

/// `seg` placed under `base`, with exactly the one separator that `base`
/// lacks; an empty `base` leaves `seg` as it is.
pub open spec fn join_spec(base: Seq<char>, seg: Seq<char>) -> Seq<char> {
    if base.len() == 0 {
        seg
    } else if base.last() == '/' {
        base + seg
    } else {
        base + seq!['/'] + seg
    }
}

/// `p` with a leading home marker replaced by `home`; every segment after
/// the marker is kept as it was. A path without the marker is unchanged.
pub open spec fn expand_spec(p: Seq<char>, home: Seq<char>) -> Seq<char> {
    if has_home_marker(p) {
        if p.len() == 1 {
            home
        } else {
            join_spec(home, p.subrange(2, p.len() as int))
        }
    } else {
        p
    }
}

/// Places `seg` under `base`.
pub fn join_path(base: &str, seg: &str) -> (r: String)
    ensures
        r@ == join_spec(base@, seg@),
{
    let n = base.unicode_len();
    if n == 0 {
        String::from_str(seg)
    } else if base.get_char(n - 1) == '/' {
        String::from_str(base).concat(seg)
    } else {
        proof {
            reveal_strlit("/");
        }
        let r = String::from_str(base).concat("/").concat(seg);
        assert(r@ =~= base@ + seq!['/'] + seg@);
        r
    }
}

/// Whether two strings hold the same characters.
pub fn str_eq(a: &str, b: &str) -> (r: bool)
    ensures
        r == (a@ == b@),
{
    let n = a.unicode_len();
    if n != b.unicode_len() {
        return false;
    }
    let mut i: usize = 0;
    while i < n
        invariant
            n == a@.len(),
            n == b@.len(),
            i <= n,
            forall|j: int| 0 <= j < i ==> a@[j] == b@[j],
        decreases n - i,
    {
        if a.get_char(i) != b.get_char(i) {
            return false;
        }
        i = i + 1;
    }
    assert(a@ =~= b@);
    true
}

/// Whether `path` starts with the home marker.
pub fn starts_with_home_marker(path: &str) -> (r: bool)
    ensures
        r == has_home_marker(path@),
{
    let n = path.unicode_len();
    n >= 1 && path.get_char(0) == '~' && (n == 1 || path.get_char(1) == '/')
}

/// Replaces a leading home marker of `path` by `home`, keeping the rest of
/// the path; any other path comes back unchanged.
pub fn expand_path(path: &str, home: &str) -> (r: String)
    ensures
        r@ == expand_spec(path@, home@),
{
    if starts_with_home_marker(path) {
        let n = path.unicode_len();
        if n == 1 {
            String::from_str(home)
        } else {
            join_path(home, path.substring_char(2, n))
        }
    } else {
        String::from_str(path)
    }
}

/// Relies on dirs::home_dir: the current user's home directory, if the
/// platform can tell; it depends on the environment, so nothing is
/// promised of it.
#[verifier::external_body]
fn home_dir_text() -> (r: Option<String>) {
    match dirs::home_dir() {
        Some(p) => p.into_os_string().into_string().ok(),
        None => None,
    }
}

/// Relies on dirs::config_dir: the platform's user configuration root, if
/// it can be found; it depends on the environment.
#[verifier::external_body]
fn config_root_text() -> (r: Option<String>) {
    match dirs::config_dir() {
        Some(p) => p.into_os_string().into_string().ok(),
        None => None,
    }
}

/// Expands `path` against the user's home directory. The home directory is
/// looked up only when the path carries the marker; `None` means it could
/// not be found.
pub fn expand_user_path(path: &str) -> (r: Option<String>)
    ensures
        !has_home_marker(path@) ==> (r is Some && r->0@ == path@),
        r is Some ==> exists|home: Seq<char>|
            r->0@ == expand_spec(path@, home),
{
    if starts_with_home_marker(path) {
        match home_dir_text() {
            Some(home) => Some(expand_path(path, home.as_str())),
            None => None,
        }
    } else {
        let r = String::from_str(path);
        assert(r@ == expand_spec(path@, Seq::<char>::empty()));
        Some(r)
    }
}

/// This tool's configuration directory: the `strand` directory under the
/// platform's configuration root, or `None` when that root is unknown.
pub fn get_config_dir() -> (r: Option<String>)
    ensures
        r is Some ==> exists|root: Seq<char>| r->0@ == join_spec(root, "strand"@),
{
    match config_root_text() {
        Some(root) => Some(join_path(root.as_str(), "strand")),
        None => None,
    }
}

} // verus!
