//! Finding the project root: the nearest directory, from the common
//! ancestor of what is being built upwards, that holds the marker
//! directory; the common ancestor itself where none does.

use vstd::prelude::*;
use vstd::string::StringExecFns;
use crate::error::{RedoError, RedoErrorView, TargetOrigin};
use crate::paths::{common, common_prefix, join, join_spec, parent, parent_of, texts};

verus! {

/// The name of the directory that marks a project root.
pub const MARKER: &'static str = ".redo";

/// The target that stands in where none is named.
pub const DEFAULT_TARGET: &'static str = "all";

/// The targets to go by: those given, or the default target alone.
pub open spec fn effective_targets(targets: Seq<Seq<char>>) -> Seq<Seq<char>> {
    if targets.len() == 0 {
        seq![DEFAULT_TARGET@]
    } else {
        targets
    }
}

/// Whether every target has a parent directory.
pub open spec fn have_parents(targets: Seq<Seq<char>>) -> bool {
    forall|i: int| 0 <= i < targets.len() ==> parent_of(#[trigger] targets[i]) is Some
}

/// Whether target `i` is the first without a parent directory.
pub open spec fn first_orphan(targets: Seq<Seq<char>>, i: int) -> bool {
    &&& 0 <= i < targets.len()
    &&& parent_of(targets[i]) is None
    &&& forall|j: int| 0 <= j < i ==> parent_of(#[trigger] targets[j]) is Some
}

/// The first target without a parent directory, where there is one.
pub open spec fn orphan(targets: Seq<Seq<char>>) -> Seq<char> {
    targets[choose|i: int| first_orphan(targets, i)]
}

/// The parent directory of each target, as seen from `cwd`.
pub open spec fn dirs_of(targets: Seq<Seq<char>>, cwd: Seq<char>) -> Seq<Seq<char>> {
    Seq::new(targets.len(), |i: int| join_spec(cwd, parent_of(targets[i])->0))
}

/// The common ancestor of the targets' directories and of `cwd`: the
/// project root while no marker says otherwise.
pub open spec fn common_base(targets: Seq<Seq<char>>, cwd: Seq<char>) -> Result<
    Seq<char>,
    RedoErrorView,
> {
    let ts = effective_targets(targets);
    if !have_parents(ts) {
        Err(RedoErrorView::InvalidTarget(orphan(ts), TargetOrigin::Named))
    } else {
        match common_prefix(dirs_of(ts, cwd).push(cwd)) {
            Some(b) => Ok(b),
            None => Err(RedoErrorView::NoCommonBase),
        }
    }
}

/// A directory and those above it, nearest first.
pub open spec fn ancestors(p: Seq<char>) -> Seq<Seq<char>>
    decreases p.len(),
{
    match parent_of(p) {
        Some(q) => if q.len() < p.len() {
            seq![p] + ancestors(q)
        } else {
            seq![p]
        },
        None => seq![p],
    }
}

/// Where the marker of each directory would be.
pub open spec fn markers(dirs: Seq<Seq<char>>) -> Seq<Seq<char>> {
    Seq::new(dirs.len(), |i: int| join_spec(dirs[i], MARKER@))
}

/// Whether the marker of directory `i` was found. Directories that
/// `present` does not reach count as unmarked.
pub open spec fn marked(present: Seq<bool>, i: int) -> bool {
    0 <= i < present.len() && present[i]
}

/// Whether directory `i` is the first of the first `n` whose marker was found.
pub open spec fn nearest_marked(present: Seq<bool>, n: int, i: int) -> bool {
    &&& 0 <= i < n
    &&& marked(present, i)
    &&& forall|j: int| 0 <= j < i ==> !marked(present, j)
}

/// Whether the marker of one of the first `n` directories was found.
pub open spec fn any_marked(present: Seq<bool>, n: int) -> bool {
    exists|i: int| 0 <= i < n && marked(present, i)
}

/// The project root among `chain`, a directory followed by those above it:
/// the first whose marker was found, or the directory itself where none was.
pub open spec fn chosen_base(chain: Seq<Seq<char>>, present: Seq<bool>) -> Seq<char> {
    if any_marked(present, chain.len() as int) {
        chain[choose|i: int| nearest_marked(present, chain.len() as int, i)]
    } else {
        chain[0]
    }
}

/// The project root for a common ancestor `base`, given for it and for each
/// directory above it, nearest first, whether its marker was found.
pub open spec fn resolved_base(base: Seq<char>, present: Seq<bool>) -> Seq<char> {
    chosen_base(ancestors(base), present)
}

/// Two directories cannot both be the first that is marked.
pub proof fn lemma_nearest_unique(present: Seq<bool>, n: int, i: int, k: int)
    requires
        nearest_marked(present, n, i),
        nearest_marked(present, n, k),
    ensures
        i == k,
{
    if i < k {
        assert(!marked(present, i));
    } else if k < i {
        assert(!marked(present, k));
    }
}

/// The root is the common ancestor where no marker was found at or above
/// it, and the nearest marked directory otherwise.
pub proof fn lemma_chosen_base(chain: Seq<Seq<char>>, present: Seq<bool>)
    ensures
        !any_marked(present, chain.len() as int) ==> chosen_base(chain, present) == chain[0],
        forall|i: int| #[trigger]
            nearest_marked(present, chain.len() as int, i) ==> chosen_base(chain, present)
                == chain[i],
{
    let n = chain.len() as int;
    assert forall|i: int| #[trigger] nearest_marked(present, n, i) implies chosen_base(
        chain,
        present,
    ) == chain[i] by {
        assert(marked(present, i));
        let k = choose|k: int| nearest_marked(present, n, k);
        lemma_nearest_unique(present, n, i, k);
    }
}

/// For targets with the common ancestor `base`, the project root is `base`
/// where no marker was found in it or above it, and otherwise the nearest
/// directory, from `base` upwards, whose marker was found.
pub proof fn lemma_resolved_base(base: Seq<char>, present: Seq<bool>)
    ensures
        !any_marked(present, ancestors(base).len() as int) ==> resolved_base(base, present) == base,
        forall|i: int| #[trigger]
            nearest_marked(present, ancestors(base).len() as int, i) ==> resolved_base(
                base,
                present,
            ) == ancestors(base)[i],
{
    lemma_chosen_base(ancestors(base), present);
    lemma_ancestors_first(base);
}

/// The chain of a directory starts with the directory.
pub proof fn lemma_ancestors_first(p: Seq<char>)
    ensures
        ancestors(p).len() > 0,
        ancestors(p)[0] == p,
{
}

/// The parent directory of each target, as seen from `cwd`; for no
/// targets, that of the default target. Fails on the first target that
/// has no parent directory.
pub fn target_dirs(targets: &Vec<String>, cwd: &str) -> (r: Result<Vec<String>, RedoError>)
    ensures
        r is Ok <==> have_parents(effective_targets(texts(targets@))),
        r matches Ok(dirs) ==> texts(dirs@) == dirs_of(effective_targets(texts(targets@)), cwd@),
        r matches Err(e) ==> e@ == RedoErrorView::InvalidTarget(
            orphan(effective_targets(texts(targets@))),
            TargetOrigin::Named,
        ),
{
    let ghost ts = effective_targets(texts(targets@));
    let mut dirs: Vec<String> = Vec::new();
    if targets.len() == 0 {
        match parent(DEFAULT_TARGET) {
            Some(par) => {
                dirs.push(join(cwd, par.as_str()));
                assert(texts(dirs@) =~= dirs_of(ts, cwd@));
                return Ok(dirs);
            },
            None => {
                assert(first_orphan(ts, 0));
                proof {
                    lemma_orphan(ts, 0);
                }
                return Err(
                    RedoError::InvalidTarget(String::from_str(DEFAULT_TARGET), TargetOrigin::Named),
                );
            },
        }
    }
    assert(ts =~= texts(targets@));
    let mut i: usize = 0;
    while i < targets.len()
        invariant
            i <= targets.len(),
            ts == texts(targets@),
            dirs@.len() == i,
            forall|j: int| 0 <= j < i ==> parent_of(#[trigger] ts[j]) is Some,
            forall|j: int| 0 <= j < i ==> (#[trigger] dirs@[j])@ == join_spec(cwd@, parent_of(ts[j])->0),
        decreases targets.len() - i,
    {
        match parent(targets[i].as_str()) {
            Some(par) => {
                dirs.push(join(cwd, par.as_str()));
            },
            None => {
                assert(first_orphan(ts, i as int));
                proof {
                    lemma_orphan(ts, i as int);
                }
                return Err(RedoError::InvalidTarget(targets[i].clone(), TargetOrigin::Named));
            },
        }
        i = i + 1;
    }
    assert(texts(dirs@) =~= dirs_of(ts, cwd@));
    Ok(dirs)
}

proof fn lemma_orphan(targets: Seq<Seq<char>>, i: int)
    requires
        first_orphan(targets, i),
    ensures
        !have_parents(targets),
        orphan(targets) == targets[i],
{
    let k = choose|k: int| first_orphan(targets, k);
    if i < k {
        assert(parent_of(targets[i]) is Some);
    } else if k < i {
        assert(parent_of(targets[k]) is Some);
    }
}

/// The common ancestor of the targets' directories and of `cwd`.
pub fn find_common_base(targets: &Vec<String>, cwd: &str) -> (r: Result<String, RedoError>)
    ensures
        match r {
            Ok(b) => common_base(texts(targets@), cwd@) == Ok::<Seq<char>, RedoErrorView>(b@),
            Err(e) => common_base(texts(targets@), cwd@) == Err::<Seq<char>, RedoErrorView>(e@),
        },
{
    let mut dirs = match target_dirs(targets, cwd) {
        Ok(dirs) => dirs,
        Err(e) => {
            return Err(e);
        },
    };
    let ghost before = texts(dirs@);
    dirs.push(String::from_str(cwd));
    assert(texts(dirs@) =~= before.push(cwd@));
    match common(&dirs) {
        Some(b) => Ok(b),
        None => Err(RedoError::NoCommonBase),
    }
}

/// A directory and those above it, nearest first.
pub fn ancestor_chain(dir: &str) -> (r: Vec<String>)
    ensures
        texts(r@) == ancestors(dir@),
{
    let mut chain: Vec<String> = Vec::new();
    let mut cur = String::from_str(dir);
    loop
        invariant
            texts(chain@) + ancestors(cur@) == ancestors(dir@),
        decreases cur@.len(),
    {
        let next = parent(cur.as_str());
        let ghost before = texts(chain@);
        let ghost here = cur@;
        match next {
            Some(q) => {
                chain.push(cur);
                assert(texts(chain@) =~= before.push(here));
                assert(texts(chain@) + ancestors(q@) =~= before + ancestors(here));
                cur = q;
            },
            None => {
                chain.push(cur);
                assert(texts(chain@) =~= before + ancestors(here));
                return chain;
            },
        }
    }
}

/// Where the marker of each directory would be.
pub fn marker_paths(dirs: &Vec<String>) -> (r: Vec<String>)
    ensures
        texts(r@) == markers(texts(dirs@)),
{
    let mut out: Vec<String> = Vec::new();
    let mut i: usize = 0;
    while i < dirs.len()
        invariant
            i <= dirs.len(),
            out@.len() == i,
            forall|j: int| 0 <= j < i ==> (#[trigger] out@[j])@ == join_spec(dirs@[j]@, MARKER@),
        decreases dirs.len() - i,
    {
        out.push(join(dirs[i].as_str(), MARKER));
        i = i + 1;
    }
    assert(texts(out@) =~= markers(texts(dirs@)));
    out
}

/// The project root for the common ancestor `base`. `present` says, for
/// `base` and for each directory above it, nearest first, whether its
/// marker was found.
pub fn resolve_base(base: &str, present: &Vec<bool>) -> (r: String)
    ensures
        r@ == resolved_base(base@, present@),
{
    let chain = ancestor_chain(base);
    proof {
        lemma_ancestors_first(base@);
    }
    let ghost n = chain@.len() as int;
    let mut i: usize = 0;
    while i < chain.len() && i < present.len()
        invariant
            i <= chain.len(),
            n == chain@.len(),
            texts(chain@) == ancestors(base@),
            forall|j: int| 0 <= j < i ==> !marked(present@, j),
        decreases chain.len() - i,
    {
        if present[i] {
            assert(nearest_marked(present@, n, i as int));
            assert(marked(present@, i as int));
            proof {
                lemma_chosen_base(texts(chain@), present@);
                assert(texts(chain@)[i as int] == chain@[i as int]@);
            }
            return chain[i].clone();
        }
        i = i + 1;
    }
    assert(!any_marked(present@, n));
    assert(texts(chain@)[0] == chain@[0]@);
    chain[0].clone()
}

} // verus!
