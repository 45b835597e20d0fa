//! Which executable a trusted program name resolves to. The caller probes
//! the filesystem (is it a file, is it executable, its canonical path, is a
//! directory writable by group or others) and this module decides.
//!
//! A candidate is accepted only if its canonical path lies under the
//! canonical path of a directory that is neither group- nor other-writable,
//! and its canonical file name is still the requested program name.

use vstd::prelude::*;

use crate::text::{starts_with_chars, str_eq};

verus! {

/// The only programs that are ever resolved.
pub open spec fn allowed_binary(name: Seq<char>) -> bool {
    name == "systemctl"@ || name == "journalctl"@
}

/// Whether `name` is one of the two programs that may be run.
pub fn is_allowed_binary(name: &str) -> (r: bool)
    ensures
        r == allowed_binary(name@),
{
    str_eq(name, "systemctl") || str_eq(name, "journalctl")
}

/// System directories searched before the caller's `PATH`.
pub open spec fn trusted_dir_names() -> Seq<Seq<char>> {
    seq!["/usr/bin"@, "/bin"@, "/usr/sbin"@, "/sbin"@, "/usr/local/bin"@]
}

/// System directories searched before the caller's `PATH`.
pub fn trusted_dirs() -> (r: Vec<String>)
    ensures
        r@.map_values(|s: String| s@) == trusted_dir_names(),
{
    let v = vec![
        String::from_str("/usr/bin"),
        String::from_str("/bin"),
        String::from_str("/usr/sbin"),
        String::from_str("/sbin"),
        String::from_str("/usr/local/bin"),
    ];
    assert(v@.map_values(|s: String| s@) =~= trusted_dir_names());
    v
}

/// What the caller found out about one directory that may serve as a
/// trusted root.
#[derive(Debug, Clone)]
pub struct RootProbe {
    /// Its canonical path; none if it could not be resolved.
    pub canonical: Option<String>,
    /// Whether it is neither group- nor other-writable.
    pub secure: bool,
}

/// What the caller found out about one candidate `dir/name`.
#[derive(Debug, Clone)]
pub struct CandidateProbe {
    /// The candidate path as formed.
    pub path: String,
    /// Whether it is a regular file.
    pub is_file: bool,
    /// Whether any execute bit is set.
    pub is_executable: bool,
    /// Its canonical path; none if it could not be resolved.
    pub canonical: Option<String>,
}

/// `root` is one of the secure, resolved roots of `probes`.
pub open spec fn secure_root(probes: Seq<RootProbe>, root: Seq<char>) -> bool {
    exists|i: int|
        0 <= i < probes.len() && probes[i].secure && (#[trigger] probes[i].canonical) is Some
            && probes[i].canonical->0@ == root
}

/// The canonical paths of the secure directories among `probes`, first
/// occurrence of each, in order.
pub fn canonical_trusted_roots(probes: &Vec<RootProbe>) -> (r: Vec<String>)
    ensures
        forall|k: int| 0 <= k < r@.len() ==> secure_root(probes@, #[trigger] r@[k]@),
        forall|i: int|
            0 <= i < probes@.len() && probes@[i].secure && (#[trigger] probes@[i].canonical) is Some
                ==> exists|k: int| 0 <= k < r@.len() && #[trigger] r@[k]@ == probes@[i].canonical->0@,
        forall|a: int, b: int| 0 <= a < b < r@.len() ==> #[trigger] r@[a]@ != #[trigger] r@[b]@,
{
    let mut out: Vec<String> = Vec::new();
    let mut i: usize = 0;
    while i < probes.len()
        invariant
            i <= probes@.len(),
            forall|k: int| 0 <= k < out@.len() ==> secure_root(probes@, #[trigger] out@[k]@),
            forall|j: int|
                0 <= j < i && probes@[j].secure && (#[trigger] probes@[j].canonical) is Some
                    ==> exists|k: int| 0 <= k < out@.len() && #[trigger] out@[k]@ == probes@[j].canonical->0@,
            forall|a: int, b: int| 0 <= a < b < out@.len() ==> #[trigger] out@[a]@ != #[trigger] out@[b]@,
        decreases probes@.len() - i,
    {
        let p = &probes[i];
        let ghost before = out@;
        if p.secure {
            match &p.canonical {
                Some(c) => {
                    let mut seen = false;
                    let mut k: usize = 0;
                    while k < out.len()
                        invariant
                            k <= out@.len(),
                            seen == exists|m: int| 0 <= m < k && #[trigger] out@[m]@ == c@,
                        decreases out@.len() - k,
                    {
                        if str_eq(out[k].as_str(), c.as_str()) {
                            seen = true;
                            assert(out@[k as int]@ == c@);
                        }
                        k += 1;
                    }
                    if !seen {
                        assert(secure_root(probes@, c@)) by {
                            assert(probes@[i as int].canonical == Some(*c));
                        }
                        out.push(c.clone());
                        assert(out@[out@.len() - 1]@ == c@);
                    }
                },
                None => {},
            }
        }
        proof {
            assert forall|j: int|
                0 <= j < i + 1 && probes@[j].secure && (#[trigger] probes@[j].canonical) is Some
                    implies exists|k: int| 0 <= k < out@.len() && #[trigger] out@[k]@ == probes@[j].canonical->0@ by {
                if j < i {
                    let k0 = choose|k: int| 0 <= k < before.len() && #[trigger] before[k]@ == probes@[j].canonical->0@;
                    assert(out@[k0] == before[k0]);
                }
            }
        }
        i += 1;
    }
    out
}

/// `path` lies under `root`, component by component, for canonical paths
/// (absolute, no `.` or `..`, no repeated or trailing separator).
pub open spec fn path_under(path: Seq<char>, root: Seq<char>) -> bool {
    ||| path == root
    ||| (root.len() > 0 && root.last() == '/' && root.len() <= path.len() && path.take(
        root.len() as int,
    ) == root)
    ||| (root.len() < path.len() && path.take(root.len() as int) == root && path[root.len() as int]
        == '/')
}

/// The characters after the last `/` of `path`.
pub open spec fn file_name(path: Seq<char>) -> Seq<char>
    decreases path.len(),
{
    if path.len() == 0 || path.last() == '/' {
        Seq::empty()
    } else {
        file_name(path.drop_last()).push(path.last())
    }
}

/// Whether `path` lies under `root` (see [`path_under`]).
pub fn is_path_under(path: &str, root: &str) -> (r: bool)
    ensures
        r == path_under(path@, root@),
{
    if str_eq(path, root) {
        return true;
    }
    let n = root.unicode_len();
    let m = path.unicode_len();
    if !starts_with_chars(path, root) {
        return false;
    }
    if n > 0 && root.get_char(n - 1) == '/' {
        return true;
    }
    n < m && path.get_char(n) == '/'
}

proof fn lemma_file_name_suffix(path: Seq<char>, k: int)
    requires
        0 <= k <= path.len(),
        forall|j: int| k <= j < path.len() ==> path[j] != '/',
        k == 0 || path[k - 1] == '/',
    ensures
        file_name(path) == path.skip(k),
    decreases path.len(),
{
    if path.len() > k {
        lemma_file_name_suffix(path.drop_last(), k);
        assert(path.drop_last().skip(k).push(path.last()) =~= path.skip(k));
    } else {
        assert(path.skip(k) =~= Seq::<char>::empty());
        if path.len() > 0 {
            assert(path.last() == '/');
        }
    }
}

/// Whether the last component of `path` is `name`.
pub fn file_name_is(path: &str, name: &str) -> (r: bool)
    ensures
        r == (file_name(path@) == name@),
{
    let m = path.unicode_len();
    let mut k: usize = m;
    while k > 0 && path.get_char(k - 1) != '/'
        invariant
            m == path@.len(),
            k <= m,
            forall|j: int| k <= j < m ==> path@[j] != '/',
        decreases k,
    {
        k -= 1;
    }
    proof {
        lemma_file_name_suffix(path@, k as int);
    }
    let tail = path.substring_char(k, m);
    str_eq(tail, name)
}

/// Whether a candidate whose canonical path is `canonical` is accepted
/// for `binary`: it lies under one of `roots` and is still named `binary`.
pub open spec fn accepted(canonical: Seq<char>, binary: Seq<char>, roots: Seq<String>) -> bool {
    file_name(canonical) == binary && exists|k: int|
        0 <= k < roots.len() && path_under(canonical, #[trigger] roots[k]@)
}

/// Whether the canonical path of a candidate is acceptable for `binary`.
pub fn canonical_trusted_candidate(canonical: &str, binary: &str, roots: &Vec<String>) -> (r: bool)
    ensures
        r == accepted(canonical@, binary@, roots@),
{
    let mut under = false;
    let mut k: usize = 0;
    while k < roots.len() && !under
        invariant
            k <= roots@.len(),
            under == exists|j: int| 0 <= j < k && path_under(canonical@, #[trigger] roots@[j]@),
        decreases roots@.len() - k,
    {
        if is_path_under(canonical, roots[k].as_str()) {
            under = true;
        }
        k += 1;
    }
    under && file_name_is(canonical, binary)
}

/// Candidate `i` is the first of its path among `candidates`.
pub open spec fn first_of_path(candidates: Seq<CandidateProbe>, i: int) -> bool {
    forall|j: int| 0 <= j < i ==> #[trigger] candidates[j].path@ != candidates[i].path@
}

/// Candidate `i` passes every check for `binary`.
pub open spec fn candidate_ok(candidates: Seq<CandidateProbe>, i: int, binary: Seq<char>, roots: Seq<
    String,
>) -> bool {
    &&& first_of_path(candidates, i)
    &&& candidates[i].is_file
    &&& candidates[i].is_executable
    &&& candidates[i].canonical is Some
    &&& accepted(candidates[i].canonical->0@, binary, roots)
}

/// The canonical path of the first candidate that passes every check: a
/// path seen before is skipped, it must be an executable regular file, and
/// its canonical path must be accepted. None if no candidate passes.
pub fn select_trusted_candidate(
    binary: &str,
    candidates: &Vec<CandidateProbe>,
    roots: &Vec<String>,
) -> (r: Option<String>)
    ensures
        r matches Some(c) ==> exists|i: int|
            0 <= i < candidates@.len() && #[trigger] candidate_ok(candidates@, i, binary@, roots@)
                && candidates@[i].canonical->0@ == c@ && forall|j: int|
                0 <= j < i ==> !#[trigger] candidate_ok(candidates@, j, binary@, roots@),
        r is None ==> forall|i: int|
            0 <= i < candidates@.len() ==> !#[trigger] candidate_ok(candidates@, i, binary@, roots@),
{
    let mut i: usize = 0;
    while i < candidates.len()
        invariant
            i <= candidates@.len(),
            forall|j: int| 0 <= j < i ==> !#[trigger] candidate_ok(candidates@, j, binary@, roots@),
        decreases candidates@.len() - i,
    {
        let c = &candidates[i];
        let mut fresh = true;
        let mut j: usize = 0;
        while j < i
            invariant
                j <= i < candidates@.len(),
                *c == candidates@[i as int],
                fresh == forall|k: int| 0 <= k < j ==> #[trigger] candidates@[k].path@ != candidates@[i as int].path@,
            decreases i - j,
        {
            if str_eq(candidates[j].path.as_str(), c.path.as_str()) {
                fresh = false;
                assert(candidates@[j as int].path@ == candidates@[i as int].path@);
            }
            j += 1;
        }
        if fresh && c.is_file && c.is_executable {
            match &c.canonical {
                Some(canon) => {
                    if canonical_trusted_candidate(canon.as_str(), binary, roots) {
                        assert(candidate_ok(candidates@, i as int, binary@, roots@));
                        return Some(canon.clone());
                    }
                },
                None => {},
            }
        }
        assert(!candidate_ok(candidates@, i as int, binary@, roots@));
        i += 1;
    }
    None
}

/// The error for a program that could not be resolved.
pub fn missing_binary_message(binary: &str) -> (r: String)
    ensures
        r@ == if binary@ == "systemctl"@ {
            "no systemctl command found, do use systemd?"@
        } else if binary@ == "journalctl"@ {
            "no journalctl command found, do use systemd?"@
        } else {
            "trusted '"@ + binary@ + "' not found in allowlisted directories (/usr/bin, /bin, /usr/sbin, /sbin, /usr/local/bin)"@
        },
{
    if str_eq(binary, "systemctl") {
        String::from_str("no systemctl command found, do use systemd?")
    } else if str_eq(binary, "journalctl") {
        String::from_str("no journalctl command found, do use systemd?")
    } else {
        let mut m = String::from_str("trusted '");
        m.append(binary);
        m.append("' not found in allowlisted directories (/usr/bin, /bin, /usr/sbin, /sbin, /usr/local/bin)");
        m
    }
}

/// The error for a program outside the two that may be run.
pub fn disallowed_binary_message(binary: &str) -> (r: String)
    ensures
        r@ == "binary '"@ + binary@ + "' is not in the allowed external command list"@,
{
    let mut m = String::from_str("binary '");
    m.append(binary);
    m.append("' is not in the allowed external command list");
    m
}

/// A resolved program is only ever one whose canonical path lies under a
/// directory that was probed as secure (neither group- nor other-writable),
/// and whose canonical file name is the requested name: a candidate in a
/// writable directory, or a link to a program of another name, never is.
pub proof fn lemma_resolution_is_trusted(
    binary: Seq<char>,
    probes: Seq<RootProbe>,
    roots: Seq<String>,
    candidates: Seq<CandidateProbe>,
    i: int,
)
    requires
        forall|k: int| 0 <= k < roots.len() ==> secure_root(probes, #[trigger] roots[k]@),
        0 <= i < candidates.len(),
        candidate_ok(candidates, i, binary, roots),
    ensures
        candidates[i].canonical is Some,
        file_name(candidates[i].canonical->0@) == binary,
        exists|root: Seq<char>|
            secure_root(probes, root) && path_under(candidates[i].canonical->0@, root),
{
    let c = candidates[i].canonical->0;
    let k = choose|k: int| 0 <= k < roots.len() && path_under(c@, #[trigger] roots[k]@);
    assert(secure_root(probes, roots[k]@));
}

} // verus!
