//! What the first process of a tree prepares: the directories in which the
//! helper commands are looked up, and the search path that starts with them.

use vstd::prelude::*;
use vstd::string::StringExecFns;
use crate::paths::{equal, join, join_spec, parent, parent_of, same_path, texts};

verus! {

/// The name of the file whose presence in a directory shows that the
/// helper commands are installed there.
pub const SENTINEL: &'static str = "redo-unlocked";

/// The directories of the executable as it was started and as it resolves,
/// in that order, without those that cannot be named.
pub open spec fn exe_dirs(exe: Seq<char>, resolved: Seq<char>) -> Seq<Seq<char>> {
    let first = match parent_of(exe) {
        Some(d) => seq![d],
        None => Seq::<Seq<char>>::empty(),
    };
    match parent_of(resolved) {
        Some(d) => first.push(d),
        None => first,
    }
}

/// `../lib/redo` as seen from `dir`.
pub open spec fn lib_dir(dir: Seq<char>) -> Seq<char> {
    join_spec(join_spec(join_spec(dir, ".."@), "lib"@), "redo"@)
}

/// `../redo` as seen from `dir`.
pub open spec fn share_dir(dir: Seq<char>) -> Seq<char> {
    join_spec(join_spec(dir, ".."@), "redo"@)
}

/// The directories in which the helper commands may be installed: for each
/// directory of the executable its `../lib/redo`, then for each its
/// `../redo`, then the directories themselves.
pub open spec fn candidates(exe: Seq<char>, resolved: Seq<char>) -> Seq<Seq<char>> {
    let dirs = exe_dirs(exe, resolved);
    Seq::new(dirs.len(), |i: int| lib_dir(dirs[i])) + Seq::new(
        dirs.len(),
        |i: int| share_dir(dirs[i]),
    ) + dirs
}

/// Whether `dir` equals, as a path, one of `kept`.
pub open spec fn is_kept(kept: Seq<Seq<char>>, dir: Seq<char>) -> bool {
    exists|j: int| 0 <= j < kept.len() && same_path(#[trigger] kept[j], dir)
}

/// `dirs` without repetitions: each directory that equals, as a path, none
/// of those kept before it, in the order of `dirs`.
pub open spec fn unique(dirs: Seq<Seq<char>>) -> Seq<Seq<char>>
    decreases dirs.len(),
{
    if dirs.len() == 0 {
        dirs
    } else {
        let kept = unique(dirs.drop_last());
        if is_kept(kept, dirs.last()) {
            kept
        } else {
            kept.push(dirs.last())
        }
    }
}

/// Where the sentinel of each directory would be.
pub open spec fn sentinels(dirs: Seq<Seq<char>>) -> Seq<Seq<char>> {
    Seq::new(dirs.len(), |i: int| join_spec(dirs[i], SENTINEL@))
}

/// Whether no sentinel was found, so that a directory of links to the
/// executable has to stand in for an installation.
pub open spec fn links_needed(found: Seq<bool>) -> bool {
    forall|i: int| 0 <= i < found.len() ==> !#[trigger] found[i]
}

/// The names under which the executable is reached as a helper command.
pub open spec fn helper_names() -> Seq<Seq<char>> {
    seq![
        "redo"@,
        "redo-always"@,
        "redo-ifchange"@,
        "redo-ifcreate"@,
        "redo-log"@,
        "redo-ood"@,
        "redo-sources"@,
        "redo-stamp"@,
        "redo-targets"@,
        "redo-unlocked"@,
        "redo-whichdo"@,
    ]
}

/// Where each helper command's link stands in the directory `dir`.
pub open spec fn links_in(dir: Seq<char>) -> Seq<Seq<char>> {
    Seq::new(helper_names().len(), |i: int| join_spec(dir, helper_names()[i]))
}

/// The directories, each followed by a colon.
pub open spec fn listed(dirs: Seq<Seq<char>>) -> Seq<char>
    decreases dirs.len(),
{
    if dirs.len() == 0 {
        Seq::<char>::empty()
    } else {
        listed(dirs.drop_last()) + dirs.last() + seq![':']
    }
}

/// The search path that looks in `dirs` first and then where `old` looks.
pub open spec fn search_path(dirs: Seq<Seq<char>>, old: Seq<char>) -> Seq<char> {
    listed(dirs) + old
}

/// The directory of links that goes into the search path: the one that was
/// made, where no sentinel was found.
pub open spec fn links_used(found: Seq<bool>, links: Option<Seq<char>>) -> Option<Seq<char>> {
    if links_needed(found) {
        links
    } else {
        None
    }
}

/// The directories to look in: the candidates without repetitions, then the
/// directory of links where one is used.
pub open spec fn search_dirs(
    exe: Seq<char>,
    resolved: Seq<char>,
    found: Seq<bool>,
    links: Option<Seq<char>>,
) -> Seq<Seq<char>> {
    match links_used(found, links) {
        Some(d) => unique(candidates(exe, resolved)).push(d),
        None => unique(candidates(exe, resolved)),
    }
}

/// No directory is kept twice, as paths compare.
pub proof fn lemma_unique_distinct(dirs: Seq<Seq<char>>)
    ensures
        forall|i: int, j: int|
            0 <= i < j < unique(dirs).len() ==> !same_path(
                #[trigger] unique(dirs)[i],
                #[trigger] unique(dirs)[j],
            ),
    decreases dirs.len(),
{
    if dirs.len() > 0 {
        let kept = unique(dirs.drop_last());
        lemma_unique_distinct(dirs.drop_last());
        if !is_kept(kept, dirs.last()) {
            let u = unique(dirs);
            assert forall|i: int, j: int| 0 <= i < j < u.len() implies !same_path(
                #[trigger] u[i],
                #[trigger] u[j],
            ) by {
                if j == kept.len() {
                    assert(u[i] == kept[i]);
                    assert(u[j] == dirs.last());
                } else {
                    assert(u[i] == kept[i]);
                    assert(u[j] == kept[j]);
                }
            }
        }
    }
}

/// Every directory given equals, as a path, one that is kept, provided that
/// each equals itself.
pub proof fn lemma_unique_covers(dirs: Seq<Seq<char>>)
    requires
        forall|i: int| 0 <= i < dirs.len() ==> same_path(#[trigger] dirs[i], dirs[i]),
    ensures
        forall|i: int| 0 <= i < dirs.len() ==> is_kept(unique(dirs), #[trigger] dirs[i]),
    decreases dirs.len(),
{
    if dirs.len() > 0 {
        let init = dirs.drop_last();
        let kept = unique(init);
        lemma_unique_covers(init);
        let u = unique(dirs);
        assert forall|i: int| 0 <= i < dirs.len() implies is_kept(u, #[trigger] dirs[i]) by {
            if i < init.len() {
                assert(init[i] == dirs[i]);
                assert(is_kept(kept, init[i]));
                let j = choose|j: int| 0 <= j < kept.len() && same_path(#[trigger] kept[j], dirs[i]);
                assert(u[j] == kept[j]);
            } else if is_kept(kept, dirs.last()) {
            } else {
                assert(u[kept.len() as int] == dirs.last());
                assert(same_path(u[kept.len() as int], dirs[i]));
            }
        }
    }
}

fn push_exe_dir(dirs: &mut Vec<String>, exe: &str)
    ensures
        texts(final(dirs)@) == match parent_of(exe@) {
            Some(d) => texts(old(dirs)@).push(d),
            None => texts(old(dirs)@),
        },
{
    match parent(exe) {
        Some(d) => {
            dirs.push(d);
            assert(texts(dirs@) =~= texts(old(dirs)@).push(d@));
        },
        None => {},
    }
}

/// The directories in which the helper commands may be installed, given
/// the path of the executable as it was started and as it resolves.
pub fn search_candidates(exe: &str, resolved: &str) -> (r: Vec<String>)
    ensures
        texts(r@) == candidates(exe@, resolved@),
{
    let mut dirs: Vec<String> = Vec::new();
    assert(texts(dirs@) =~= Seq::<Seq<char>>::empty());
    push_exe_dir(&mut dirs, exe);
    push_exe_dir(&mut dirs, resolved);
    assert(texts(dirs@) =~= exe_dirs(exe@, resolved@));
    let ghost ds = texts(dirs@);
    let n = dirs.len();
    let mut out: Vec<String> = Vec::new();
    let mut i: usize = 0;
    while i < n
        invariant
            i <= n,
            n == dirs@.len(),
            out@.len() == i,
            forall|k: int| 0 <= k < i ==> (#[trigger] out@[k])@ == lib_dir(dirs@[k]@),
        decreases n - i,
    {
        let up = join(dirs[i].as_str(), "..");
        let lib = join(up.as_str(), "lib");
        out.push(join(lib.as_str(), "redo"));
        i = i + 1;
    }
    i = 0;
    while i < n
        invariant
            i <= n,
            n == dirs@.len(),
            out@.len() == n + i,
            forall|k: int| 0 <= k < n ==> (#[trigger] out@[k])@ == lib_dir(dirs@[k]@),
            forall|k: int| 0 <= k < i ==> (#[trigger] out@[n + k])@ == share_dir(dirs@[k]@),
        decreases n - i,
    {
        let up = join(dirs[i].as_str(), "..");
        out.push(join(up.as_str(), "redo"));
        i = i + 1;
    }
    i = 0;
    while i < n
        invariant
            i <= n,
            n == dirs@.len(),
            out@.len() == n + n + i,
            forall|k: int| 0 <= k < n ==> (#[trigger] out@[k])@ == lib_dir(dirs@[k]@),
            forall|k: int| 0 <= k < n ==> (#[trigger] out@[n + k])@ == share_dir(dirs@[k]@),
            forall|k: int| 0 <= k < i ==> (#[trigger] out@[n + n + k])@ == dirs@[k]@,
        decreases n - i,
    {
        out.push(dirs[i].clone());
        i = i + 1;
    }
    proof {
        let want = candidates(exe@, resolved@);
        let got = texts(out@);
        assert(got.len() == want.len());
        assert forall|k: int| 0 <= k < got.len() implies got[k] == want[k] by {
            if k < n {
                assert(out@[k]@ == lib_dir(dirs@[k]@));
            } else if k < n + n {
                assert(out@[n + (k - n)]@ == share_dir(dirs@[k - n]@));
            } else {
                assert(out@[n + n + (k - n - n)]@ == dirs@[k - n - n]@);
            }
        }
        assert(got =~= want);
    }
    out
}

fn kept_already(kept: &Vec<String>, dir: &str) -> (r: bool)
    ensures
        r == is_kept(texts(kept@), dir@),
{
    let mut j: usize = 0;
    while j < kept.len()
        invariant
            j <= kept.len(),
            forall|k: int| 0 <= k < j ==> !same_path(#[trigger] texts(kept@)[k], dir@),
        decreases kept.len() - j,
    {
        if equal(kept[j].as_str(), dir) {
            assert(same_path(texts(kept@)[j as int], dir@));
            return true;
        }
        j = j + 1;
    }
    false
}

/// `dirs` without repetitions, in their order.
pub fn unique_dirs(dirs: &Vec<String>) -> (r: Vec<String>)
    ensures
        texts(r@) == unique(texts(dirs@)),
{
    let mut kept: Vec<String> = Vec::new();
    let mut i: usize = 0;
    assert(texts(dirs@).take(0) =~= Seq::<Seq<char>>::empty());
    assert(texts(kept@) =~= Seq::<Seq<char>>::empty());
    while i < dirs.len()
        invariant
            i <= dirs.len(),
            texts(kept@) == unique(texts(dirs@).take(i as int)),
        decreases dirs.len() - i,
    {
        let ghost before = texts(kept@);
        let ghost upto = texts(dirs@).take(i as int + 1);
        assert(upto.drop_last() =~= texts(dirs@).take(i as int));
        assert(upto.last() == dirs@[i as int]@);
        if !kept_already(&kept, dirs[i].as_str()) {
            kept.push(dirs[i].clone());
            assert(texts(kept@) =~= before.push(dirs@[i as int]@));
        }
        i = i + 1;
    }
    assert(texts(dirs@).take(dirs@.len() as int) =~= texts(dirs@));
    kept
}

/// Where the sentinel of each directory would be.
pub fn sentinel_paths(dirs: &Vec<String>) -> (r: Vec<String>)
    ensures
        texts(r@) == sentinels(texts(dirs@)),
{
    let mut out: Vec<String> = Vec::new();
    let mut i: usize = 0;
    while i < dirs.len()
        invariant
            i <= dirs.len(),
            out@.len() == i,
            forall|j: int| 0 <= j < i ==> (#[trigger] out@[j])@ == join_spec(dirs@[j]@, SENTINEL@),
        decreases dirs.len() - i,
    {
        out.push(join(dirs[i].as_str(), SENTINEL));
        i = i + 1;
    }
    assert(texts(out@) =~= sentinels(texts(dirs@)));
    out
}

/// Whether a directory of links has to be made: `found` says of each
/// candidate whether its sentinel exists.
pub fn needs_links_dir(found: &Vec<bool>) -> (r: bool)
    ensures
        r == links_needed(found@),
{
    let mut i: usize = 0;
    while i < found.len()
        invariant
            i <= found.len(),
            forall|j: int| 0 <= j < i ==> !#[trigger] found@[j],
        decreases found.len() - i,
    {
        if found[i] {
            return false;
        }
        i = i + 1;
    }
    true
}

/// Where each helper command's link stands in the directory `dir`.
pub fn link_paths(dir: &str) -> (r: Vec<String>)
    ensures
        texts(r@) == links_in(dir@),
{
    let mut out: Vec<String> = Vec::new();
    out.push(join(dir, "redo"));
    out.push(join(dir, "redo-always"));
    out.push(join(dir, "redo-ifchange"));
    out.push(join(dir, "redo-ifcreate"));
    out.push(join(dir, "redo-log"));
    out.push(join(dir, "redo-ood"));
    out.push(join(dir, "redo-sources"));
    out.push(join(dir, "redo-stamp"));
    out.push(join(dir, "redo-targets"));
    out.push(join(dir, "redo-unlocked"));
    out.push(join(dir, "redo-whichdo"));
    assert(texts(out@) =~= links_in(dir@));
    out
}

/// The search path that looks in `dirs` first and then where `old` looks.
pub fn make_search_path(dirs: &Vec<String>, old: &str) -> (r: String)
    ensures
        r@ == search_path(texts(dirs@), old@),
{
    let mut out = String::new();
    let mut i: usize = 0;
    assert(texts(dirs@).take(0) =~= Seq::<Seq<char>>::empty());
    proof {
        reveal_strlit(":");
    }
    while i < dirs.len()
        invariant
            i <= dirs.len(),
            ":"@ == seq![':'],
            out@ == listed(texts(dirs@).take(i as int)),
        decreases dirs.len() - i,
    {
        let ghost upto = texts(dirs@).take(i as int + 1);
        assert(upto.drop_last() =~= texts(dirs@).take(i as int));
        assert(upto.last() == dirs@[i as int]@);
        out.append(dirs[i].as_str());
        out.append(":");
        i = i + 1;
    }
    assert(texts(dirs@).take(dirs@.len() as int) =~= texts(dirs@));
    out.append(old);
    out
}

} // verus!
