//! Resolving a command name against the search path.
//!
//! The embedding program performs the metadata queries; this module holds
//! the two decisions: how one directory's probe is classified, and which
//! directory's hit wins when several contain the name.

use vstd::prelude::*;
use vstd::string::StrSliceExecFns;
use vstd::string::StringExecFns;

verus! {

/// The outcome of probing one search-path directory for a command name.
pub enum ExecutableCandidate {
    /// A regular file with at least one execute permission bit set; the
    /// payload is the candidate path that was probed.
    Runnable(String),
    /// A regular file with no execute permission bit set.
    NotRunnable,
    /// No filesystem entry, or an entry that is not a regular file.
    NotFound,
}

/// The candidate path `directory/name` probed for an executable.
pub fn candidate_path(dir: &str, name: &str) -> (r: String)
    ensures
        r@ == dir@ + "/"@ + name@,
{
    let mut r = dir.to_owned();
    r.append("/");
    r.append(name);
    r
}

/// Classifies one directory probe from the plain facts the filesystem
/// reports: whether an entry is present at the candidate path, whether it is
/// a regular file, and its permission mode. "Runnable" means at least one
/// of the owner/group/other execute bits (mask 0o111) is set.
pub fn probe_outcome(entry_exists: bool, is_file: bool, mode: u32, path: String) -> (r:
    ExecutableCandidate)
    ensures
        !(entry_exists && is_file) ==> r is NotFound,
        entry_exists && is_file && mode & 0o111 == 0 ==> r is NotRunnable,
        entry_exists && is_file && mode & 0o111 != 0 ==> r == ExecutableCandidate::Runnable(path),
{
    if !entry_exists || !is_file {
        ExecutableCandidate::NotFound
    } else if mode & 0o111 != 0 {
        ExecutableCandidate::Runnable(path)
    } else {
        ExecutableCandidate::NotRunnable
    }
}

/// True when the candidate is a runnable file.
pub fn candidate_is_runnable(c: &ExecutableCandidate) -> (r: bool)
    ensures
        r == (c is Runnable),
{
    match c {
        ExecutableCandidate::Runnable(_) => true,
        _ => false,
    }
}

/// The path of the first runnable candidate, in search-path order.
pub open spec fn first_runnable(ps: Seq<ExecutableCandidate>) -> Option<Seq<char>>
    decreases ps.len(),
{
    if ps.len() == 0 {
        None
    } else {
        match ps[0] {
            ExecutableCandidate::Runnable(p) => Some(p@),
            _ => first_runnable(ps.drop_first()),
        }
    }
}

/// Resolution fails exactly when no directory holds a runnable file.
pub proof fn lemma_first_runnable_none(ps: Seq<ExecutableCandidate>)
    ensures
        first_runnable(ps) is None <==> forall|k: int|
            0 <= k < ps.len() ==> !(ps[k] is Runnable),
    decreases ps.len(),
{
    if ps.len() > 0 {
        lemma_first_runnable_none(ps.drop_first());
        if first_runnable(ps) is None {
            assert forall|k: int| 0 <= k < ps.len() implies !(ps[k] is Runnable) by {
                if k > 0 {
                    assert(ps.drop_first()[k - 1] == ps[k]);
                }
            }
        } else {
            if !(ps[0] is Runnable) {
                let k0 = choose|k: int|
                    0 <= k < ps.drop_first().len() && ps.drop_first()[k] is Runnable;
                assert(ps[k0 + 1] is Runnable);
            }
        }
    }
}

/// The earliest runnable candidate is the one resolution returns.
pub proof fn lemma_first_runnable_index(ps: Seq<ExecutableCandidate>, i: int)
    requires
        0 <= i < ps.len(),
        ps[i] is Runnable,
        forall|k: int| 0 <= k < i ==> !(ps[k] is Runnable),
    ensures
        first_runnable(ps) == Some(ps[i]->Runnable_0@),
    decreases ps.len(),
{
    if i == 0 {
    } else {
        assert(!(ps[0] is Runnable));
        assert(ps.drop_first()[i - 1] == ps[i]);
        assert forall|k: int| 0 <= k < i - 1 implies !(ps.drop_first()[k] is Runnable) by {
            assert(ps.drop_first()[k] == ps[k + 1]);
        }
        lemma_first_runnable_index(ps.drop_first(), i - 1);
    }
}

/// Some directory holds a runnable file, so resolution returns the path
/// from the earliest such directory, which is no later than the given one.
pub proof fn lemma_first_runnable_earliest(ps: Seq<ExecutableCandidate>, i: int)
    requires
        0 <= i < ps.len(),
        ps[i] is Runnable,
    ensures
        exists|k: int|
            0 <= k <= i && #[trigger] (ps[k] is Runnable) && (forall|m: int|
                0 <= m < k ==> !(ps[m] is Runnable)) && first_runnable(ps) == Some(
                ps[k]->Runnable_0@,
            ),
    decreases i,
{
    if forall|m: int| 0 <= m < i ==> !(#[trigger] (ps[m] is Runnable)) {
        lemma_first_runnable_index(ps, i);
    } else {
        let j = choose|m: int| 0 <= m < i && #[trigger] (ps[m] is Runnable);
        lemma_first_runnable_earliest(ps, j);
    }
}

/// Search-path precedence: when two directories both hold a runnable file
/// of the probed name, resolution returns the earlier directory's path,
/// never the later one's.
pub proof fn law_search_path_precedence(ps: Seq<ExecutableCandidate>, i: int, j: int)
    requires
        0 <= i < j < ps.len(),
        ps[i] is Runnable,
        ps[j] is Runnable,
    ensures
        exists|k: int|
            0 <= k <= i && k < j && #[trigger] (ps[k] is Runnable) && first_runnable(ps) == Some(
                ps[k]->Runnable_0@,
            ),
{
    lemma_first_runnable_earliest(ps, i);
}

/// First-match-wins search over the per-directory probe results, one per
/// search-path directory in precedence order: the first `Runnable`
/// candidate's path, or `None` when no directory yields one.
pub fn resolve_first(probes: &Vec<ExecutableCandidate>) -> (r: Option<String>)
    ensures
        match r {
            Some(p) => first_runnable(probes@) == Some(p@),
            None => first_runnable(probes@) is None,
        },
{
    let mut i: usize = 0;
    proof {
        assert(probes@.skip(0) =~= probes@);
    }
    while i < probes.len()
        invariant
            i <= probes@.len(),
            first_runnable(probes@) == first_runnable(probes@.skip(i as int)),
        decreases probes@.len() - i,
    {
        proof {
            assert(probes@.skip(i as int)[0] == probes@[i as int]);
        }
        match &probes[i] {
            ExecutableCandidate::Runnable(p) => {
                return Some(p.clone());
            },
            _ => {
                proof {
                    assert(probes@.skip(i as int).drop_first() =~= probes@.skip(i as int + 1));
                }
                i += 1;
            },
        }
    }
    proof {
        assert(probes@.skip(i as int) =~= Seq::<ExecutableCandidate>::empty());
    }
    None
}

} // verus!
