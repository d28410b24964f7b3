use vstd::prelude::*;
use vstd::string::*;
use crate::paths::{manifest_in, manifest_path, opt_view, parent, path_parent};

verus! {

/// The `k`-th directory of the upward walk from `start`: `start` itself,
/// then parent by parent; nothing once a directory has no parent.
pub open spec fn ancestor(start: Seq<char>, k: nat) -> Option<Seq<char>>
    decreases k,
{
    if k == 0 {
        Some(start)
    } else {
        match ancestor(start, (k - 1) as nat) {
            Some(dir) => path_parent(dir),
            None => None,
        }
    }
}

/// The paths that a list of existing manifest files holds.
pub open spec fn path_set(present: Seq<String>) -> Set<Seq<char>> {
    Set::new(|p: Seq<char>| exists|i: int| 0 <= i < present.len() && #[trigger] present[i]@ == p)
}

/// The walk goes on beyond level `j`: that directory exists in the chain,
/// holds no manifest and is not the boundary.
pub open spec fn passes(
    start: Seq<char>,
    stop_at: Option<Seq<char>>,
    present: Set<Seq<char>>,
    j: nat,
) -> bool {
    match ancestor(start, j) {
        Some(dir) => !present.contains(manifest_in(dir)) && stop_at != Some(dir),
        None => false,
    }
}

/// The walk reaches level `k`: it goes on beyond every level below.
pub open spec fn reaches(
    start: Seq<char>,
    stop_at: Option<Seq<char>>,
    present: Set<Seq<char>>,
    k: nat,
) -> bool {
    forall|j: nat| j < k ==> #[trigger] passes(start, stop_at, present, j)
}

/// The walk reaches level `k` and finds a manifest there.
pub open spec fn found_at(
    start: Seq<char>,
    stop_at: Option<Seq<char>>,
    present: Set<Seq<char>>,
    k: nat,
) -> bool {
    reaches(start, stop_at, present, k) && match ancestor(start, k) {
        Some(dir) => present.contains(manifest_in(dir)),
        None => false,
    }
}

/// The manifest that the upward search yields: the one at the level where
/// the walk finds one, nothing where there is no such level.
pub open spec fn located(
    start: Seq<char>,
    stop_at: Option<Seq<char>>,
    present: Set<Seq<char>>,
    r: Option<Seq<char>>,
) -> bool {
    match r {
        Some(m) => exists|k: nat| #[trigger]
            found_at(start, stop_at, present, k) && manifest_in(ancestor(start, k)->0) == m,
        None => forall|k: nat| !#[trigger] found_at(start, stop_at, present, k),
    }
}

/// Whether `path` is one of `present`.
fn is_present(present: &Vec<String>, path: &String) -> (r: bool)
    ensures
        r == path_set(present@).contains(path@),
{
    let mut i: usize = 0;
    while i < present.len()
        invariant
            i <= present.len(),
            forall|j: int| 0 <= j < i ==> present[j]@ != path@,
        decreases present.len() - i,
    {
        if present[i] == *path {
            return true;
        }
        i += 1;
    }
    false
}

/// Searches upward from `start` for a manifest, level by level: a manifest
/// directly inside the current directory is the result; otherwise the
/// search ends without one at the boundary `stop_at`, or where there is no
/// parent. `present` lists the manifest files that exist; both `start` and
/// `stop_at` are to be canonical, since directories are compared as text.
pub fn find_cargo_toml(start: &str, stop_at: Option<&str>, present: &Vec<String>) -> (r: Option<
    String,
>)
    ensures
        located(
            start@,
            match stop_at {
                Some(s) => Some(s@),
                None => None,
            },
            path_set(present@),
            match r {
                Some(m) => Some(m@),
                None => None,
            },
        ),
{
    let boundary: Option<String> = match stop_at {
        Some(s) => Some(String::from_str(s)),
        None => None,
    };
    let ghost stop = opt_view(boundary);
    let ghost files = path_set(present@);
    let mut current = String::from_str(start);
    let ghost mut k: nat = 0;
    loop
        invariant
            ancestor(start@, k) == Some(current@),
            reaches(start@, stop, files, k),
            files == path_set(present@),
            stop == opt_view(boundary),
            stop == (match stop_at {
                Some(s) => Some(s@),
                None => None,
            }),
        decreases current@.len(),
    {
        let manifest = manifest_path(current.as_str());
        if is_present(present, &manifest) {
            proof {
                assert(found_at(start@, stop, files, k));
            }
            return Some(manifest);
        }
        let at_boundary = match &boundary {
            Some(dir) => *dir == current,
            None => false,
        };
        let next = if at_boundary {
            None
        } else {
            parent(current.as_str())
        };
        match next {
            Some(up) => {
                proof {
                    assert(passes(start@, stop, files, k));
                    assert(ancestor(start@, k + 1) == path_parent(current@));
                    k = k + 1;
                }
                current = up;
            },
            None => {
                proof {
                    lemma_search_ends(start@, stop, files, k);
                }
                return None;
            },
        }
    }
}

/// Once the walk has reached a level without a manifest that is the
/// boundary or has no parent, no level holds a result.
proof fn lemma_search_ends(
    start: Seq<char>,
    stop_at: Option<Seq<char>>,
    present: Set<Seq<char>>,
    k: nat,
)
    requires
        reaches(start, stop_at, present, k),
        ancestor(start, k) is Some,
        !present.contains(manifest_in(ancestor(start, k)->0)),
        stop_at == ancestor(start, k) || path_parent(ancestor(start, k)->0) is None,
    ensures
        forall|n: nat| !#[trigger] found_at(start, stop_at, present, n),
{
    assert forall|n: nat| !#[trigger] found_at(start, stop_at, present, n) by {
        if found_at(start, stop_at, present, n) {
            if n < k {
                assert(passes(start, stop_at, present, n));
            } else if n > k {
                let up = (k + 1) as nat;
                assert(passes(start, stop_at, present, k));
                assert(ancestor(start, up) == path_parent(ancestor(start, k)->0));
                if n > up {
                    assert(passes(start, stop_at, present, up));
                }
            }
        }
    }
}

/// The search finds a manifest at one level at most.
pub proof fn lemma_found_once(
    start: Seq<char>,
    stop_at: Option<Seq<char>>,
    present: Set<Seq<char>>,
    a: nat,
    b: nat,
)
    requires
        found_at(start, stop_at, present, a),
        found_at(start, stop_at, present, b),
    ensures
        a == b,
{
    if a < b {
        assert(passes(start, stop_at, present, a));
    }
    if b < a {
        assert(passes(start, stop_at, present, b));
    }
}

/// The search has one outcome: two results that both meet `located` for
/// the same start, boundary and files are the same result.
pub proof fn lemma_located_unique(
    start: Seq<char>,
    stop_at: Option<Seq<char>>,
    present: Set<Seq<char>>,
    a: Option<Seq<char>>,
    b: Option<Seq<char>>,
)
    requires
        located(start, stop_at, present, a),
        located(start, stop_at, present, b),
    ensures
        a == b,
{
    if let Some(m) = a {
        let i = choose|k: nat| #[trigger]
            found_at(start, stop_at, present, k) && manifest_in(ancestor(start, k)->0) == m;
        if let Some(n) = b {
            let j = choose|k: nat| #[trigger]
                found_at(start, stop_at, present, k) && manifest_in(ancestor(start, k)->0) == n;
            lemma_found_once(start, stop_at, present, i, j);
        }
    } else if let Some(n) = b {
        let j = choose|k: nat| #[trigger]
            found_at(start, stop_at, present, k) && manifest_in(ancestor(start, k)->0) == n;
    }
}

/// A manifest that the search yields lies directly inside a directory of
/// the ancestor chain of `start`, and no directory of the chain below
/// that one is the boundary or holds a manifest: the search never goes on
/// beyond the boundary.
pub proof fn lemma_located_within_bounds(
    start: Seq<char>,
    stop_at: Option<Seq<char>>,
    present: Set<Seq<char>>,
    m: Seq<char>,
)
    requires
        located(start, stop_at, present, Some(m)),
    ensures
        exists|k: nat|
            {
                &&& #[trigger] ancestor(start, k) is Some
                &&& m == manifest_in(ancestor(start, k)->0)
                &&& present.contains(m)
                &&& forall|j: nat|
                    j < k ==> {
                        &&& #[trigger] ancestor(start, j) is Some
                        &&& stop_at != ancestor(start, j)
                        &&& !present.contains(manifest_in(ancestor(start, j)->0))
                    }
            },
{
    let k = choose|k: nat| #[trigger]
        found_at(start, stop_at, present, k) && manifest_in(ancestor(start, k)->0) == m;
    assert forall|j: nat| j < k implies {
        &&& #[trigger] ancestor(start, j) is Some
        &&& stop_at != ancestor(start, j)
        &&& !present.contains(manifest_in(ancestor(start, j)->0))
    } by {
        assert(passes(start, stop_at, present, j));
    }
    assert(ancestor(start, k) is Some);
}

/// With the boundary at the starting directory and no manifest in it,
/// the search yields nothing, whatever lies above.
pub proof fn lemma_boundary_at_start(start: Seq<char>, present: Set<Seq<char>>)
    requires
        !present.contains(manifest_in(start)),
    ensures
        located(start, Some(start), present, None),
{
    assert(reaches(start, Some(start), present, 0));
    lemma_search_ends(start, Some(start), present, 0);
}

} // verus!
