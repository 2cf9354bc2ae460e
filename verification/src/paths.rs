//! Directory arithmetic on plain path strings: the parent directory of a
//! link file, the deduplicated union of runtime library directories, and the
//! separator-joined search path handed to dependent build steps.

use vstd::prelude::*;

verus! {

/// Index of the last '/' in s, or -1 when there is none.
pub open spec fn last_sep(s: Seq<char>) -> int
    decreases s.len(),
{
    if s.len() == 0 {
        -1
    } else if s.last() == '/' {
        s.len() - 1
    } else {
        last_sep(s.drop_last())
    }
}

/// The directory containing the named entry: the text before the final
/// separator, the root itself for an entry directly under it, and nothing
/// for a bare name without a separator.
pub open spec fn parent_dir(s: Seq<char>) -> Option<Seq<char>> {
    let k = last_sep(s);
    if k < 0 {
        None
    } else if k == 0 {
        Some(seq!['/'])
    } else {
        Some(s.take(k))
    }
}

proof fn lemma_last_sep_at(s: Seq<char>, k: int)
    requires
        0 <= k < s.len(),
        s[k] == '/',
        forall|j: int| k < j < s.len() ==> s[j] != '/',
    ensures
        last_sep(s) == k,
    decreases s.len(),
{
    if k == s.len() - 1 {
    } else {
        assert(s.last() != '/');
        lemma_last_sep_at(s.drop_last(), k);
    }
}

proof fn lemma_last_sep_none(s: Seq<char>)
    requires
        forall|j: int| 0 <= j < s.len() ==> s[j] != '/',
    ensures
        last_sep(s) == -1,
    decreases s.len(),
{
    if s.len() == 0 {
    } else {
        lemma_last_sep_none(s.drop_last());
    }
}

/// The directory containing the named entry, if the path has one.
pub fn parent_of_path(p: &str) -> (r: Option<String>)
    ensures
        match r {
            Some(d) => parent_dir(p@) == Some(d@),
            None => parent_dir(p@) is None,
        },
{
    let n = p.unicode_len();
    let mut i: usize = n;
    while i > 0
        invariant
            i <= n,
            n == p@.len(),
            forall|j: int| i <= j < n ==> p@[j] != '/',
        decreases i,
    {
        if p.get_char(i - 1) == '/' {
            proof {
                lemma_last_sep_at(p@, i - 1);
            }
            if i == 1 {
                let root = String::from_str("/");
                proof {
                    reveal_strlit("/");
                    assert(root@ =~= seq!['/']);
                }
                return Some(root);
            }
            let d = p.substring_char(0, i - 1).to_owned();
            proof {
                assert(d@ =~= p@.take(i - 1));
            }
            return Some(d);
        }
        i = i - 1;
    }
    proof {
        lemma_last_sep_none(p@);
    }
    None
}

/// First-occurrence deduplication: the input with every repetition of an
/// earlier entry removed, in the original order.
pub open spec fn dedup_first(s: Seq<Seq<char>>) -> Seq<Seq<char>>
    decreases s.len(),
{
    if s.len() == 0 {
        Seq::empty()
    } else {
        let d = dedup_first(s.drop_last());
        if d.contains(s.last()) {
            d
        } else {
            d.push(s.last())
        }
    }
}

/// Deduplication keeps exactly the entries of the input.
pub proof fn lemma_dedup_first_same_entries(s: Seq<Seq<char>>)
    ensures
        forall|x: Seq<char>| #[trigger] dedup_first(s).contains(x) <==> s.contains(x),
    decreases s.len(),
{
    if s.len() == 0 {
    } else {
        lemma_dedup_first_same_entries(s.drop_last());
        let d = dedup_first(s.drop_last());
        assert forall|x: Seq<char>| s.contains(x) implies #[trigger] dedup_first(s).contains(x) by {
            let i = choose|i: int| 0 <= i < s.len() && s[i] == x;
            if i < s.len() - 1 {
                assert(s.drop_last()[i] == x);
                assert(s.drop_last().contains(x));
                assert(d.contains(x));
                let j = choose|j: int| 0 <= j < d.len() && d[j] == x;
                assert(dedup_first(s)[j] == x);
                assert(dedup_first(s).contains(x));
            } else {
                assert(s.last() == x);
                if d.contains(x) {
                    assert(dedup_first(s) == d);
                } else {
                    assert(dedup_first(s).last() == x);
                    assert(dedup_first(s).contains(x));
                }
            }
        }
        assert forall|x: Seq<char>| #[trigger] dedup_first(s).contains(x) implies s.contains(x) by {
            let j = choose|j: int| 0 <= j < dedup_first(s).len() && dedup_first(s)[j] == x;
            if j < d.len() {
                assert(d[j] == x);
                assert(d.contains(x));
                assert(s.drop_last().contains(x));
                let i = choose|i: int| 0 <= i < s.drop_last().len() && s.drop_last()[i] == x;
                assert(s[i] == x);
                assert(s.contains(x));
            } else {
                assert(x == s.last());
                assert(s[s.len() - 1] == x);
                assert(s.contains(x));
            }
        }
    }
}

/// Deduplication leaves no entry twice.
pub proof fn lemma_dedup_first_no_duplicates(s: Seq<Seq<char>>)
    ensures
        forall|i: int, j: int|
            0 <= i < j < dedup_first(s).len() ==> dedup_first(s)[i] != dedup_first(s)[j],
    decreases s.len(),
{
    if s.len() == 0 {
    } else {
        lemma_dedup_first_no_duplicates(s.drop_last());
        let d = dedup_first(s.drop_last());
        if d.contains(s.last()) {
        } else {
            assert forall|i: int, j: int|
                0 <= i < j < dedup_first(s).len() implies dedup_first(s)[i] != dedup_first(s)[j] by {
                if j < d.len() {
                } else {
                    assert(dedup_first(s)[j] == s.last());
                    assert(dedup_first(s)[i] == d[i]);
                    assert(!d.contains(s.last()));
                }
            }
        }
    }
}

/// Parent directories of the direct link files, in order, entries without a
/// parent skipped.
pub open spec fn parent_dirs(files: Seq<Seq<char>>) -> Seq<Seq<char>>
    decreases files.len(),
{
    if files.len() == 0 {
        Seq::empty()
    } else {
        let d = parent_dirs(files.drop_last());
        match parent_dir(files.last()) {
            Some(p) => d.push(p),
            None => d,
        }
    }
}

/// A directory is among the parents exactly when some link file lies in it.
pub proof fn lemma_parent_dirs_membership(files: Seq<Seq<char>>)
    ensures
        forall|x: Seq<char>| #[trigger] parent_dirs(files).contains(x)
            <==> exists|i: int| 0 <= i < files.len() && parent_dir(#[trigger] files[i]) == Some(x),
    decreases files.len(),
{
    if files.len() == 0 {
    } else {
        lemma_parent_dirs_membership(files.drop_last());
        let d = parent_dirs(files.drop_last());
        assert forall|x: Seq<char>|
            (exists|i: int| 0 <= i < files.len() && parent_dir(#[trigger] files[i]) == Some(x))
            implies #[trigger] parent_dirs(files).contains(x) by {
            let i = choose|i: int| 0 <= i < files.len() && parent_dir(files[i]) == Some(x);
            if i < files.len() - 1 {
                assert(files.drop_last()[i] == files[i]);
                assert(d.contains(x));
                let j = choose|j: int| 0 <= j < d.len() && d[j] == x;
                assert(parent_dirs(files)[j] == x);
                assert(parent_dirs(files).contains(x));
            } else {
                assert(files.last() == files[i]);
                assert(parent_dirs(files).last() == x);
                assert(parent_dirs(files).contains(x));
            }
        }
        assert forall|x: Seq<char>| #[trigger] parent_dirs(files).contains(x)
            implies exists|i: int| 0 <= i < files.len() && parent_dir(#[trigger] files[i]) == Some(x) by {
            let j = choose|j: int| 0 <= j < parent_dirs(files).len() && parent_dirs(files)[j] == x;
            if j < d.len() {
                assert(d[j] == x);
                assert(d.contains(x));
                let i = choose|i: int| 0 <= i < files.drop_last().len() && parent_dir(#[trigger] files.drop_last()[i]) == Some(x);
                assert(files[i] == files.drop_last()[i]);
                assert(parent_dir(files[i]) == Some(x));
            } else {
                assert(parent_dirs(files).last() == x);
                assert(parent_dir(files[files.len() - 1]) == Some(x));
            }
        }
    }
}

/// The runtime directory candidates: parents of the direct link files first,
/// then the explicit link-search directories.
pub open spec fn dir_candidates(files: Seq<Seq<char>>, dirs: Seq<Seq<char>>) -> Seq<Seq<char>> {
    parent_dirs(files) + dirs
}

/// The set of runtime library directories: the union of the link files'
/// parent directories and the explicit link-search directories.
pub open spec fn dir_set(files: Seq<Seq<char>>, dirs: Seq<Seq<char>>) -> Set<Seq<char>> {
    dir_candidates(files, dirs).to_set()
}

/// The directory set is independent of input order and of repetitions: it
/// depends only on which link files and which search directories occur.
pub proof fn lemma_dir_set_order_independent(
    files1: Seq<Seq<char>>,
    dirs1: Seq<Seq<char>>,
    files2: Seq<Seq<char>>,
    dirs2: Seq<Seq<char>>,
)
    requires
        files1.to_set() == files2.to_set(),
        dirs1.to_set() == dirs2.to_set(),
    ensures
        dir_set(files1, dirs1) == dir_set(files2, dirs2),
{
    lemma_parent_dirs_membership(files1);
    lemma_parent_dirs_membership(files2);
    assert forall|x: Seq<char>| #[trigger] dir_set(files1, dirs1).contains(x)
        implies dir_set(files2, dirs2).contains(x) by {
        lemma_dir_set_member(files1, dirs1, x);
        lemma_dir_set_member(files2, dirs2, x);
        if parent_dirs(files1).contains(x) {
            let i = choose|i: int| 0 <= i < files1.len() && parent_dir(#[trigger] files1[i]) == Some(x);
            assert(files1.contains(files1[i]));
            assert(files2.to_set().contains(files1[i]));
            let k = choose|k: int| 0 <= k < files2.len() && files2[k] == files1[i];
            assert(parent_dir(files2[k]) == Some(x));
        } else {
            assert(dirs1.contains(x));
            assert(dirs2.to_set().contains(x));
        }
    }
    assert forall|x: Seq<char>| #[trigger] dir_set(files2, dirs2).contains(x)
        implies dir_set(files1, dirs1).contains(x) by {
        lemma_dir_set_member(files1, dirs1, x);
        lemma_dir_set_member(files2, dirs2, x);
        if parent_dirs(files2).contains(x) {
            let i = choose|i: int| 0 <= i < files2.len() && parent_dir(#[trigger] files2[i]) == Some(x);
            assert(files2.contains(files2[i]));
            assert(files1.to_set().contains(files2[i]));
            let k = choose|k: int| 0 <= k < files1.len() && files1[k] == files2[i];
            assert(parent_dir(files1[k]) == Some(x));
        } else {
            assert(dirs2.contains(x));
            assert(dirs1.to_set().contains(x));
        }
    }
    assert(dir_set(files1, dirs1) =~= dir_set(files2, dirs2));
}

/// Membership in the directory set, unfolded to the two sources.
pub proof fn lemma_dir_set_member(files: Seq<Seq<char>>, dirs: Seq<Seq<char>>, x: Seq<char>)
    ensures
        dir_set(files, dirs).contains(x) <==> (parent_dirs(files).contains(x) || dirs.contains(x)),
{
    let cands = dir_candidates(files, dirs);
    if parent_dirs(files).contains(x) {
        let i = choose|i: int| 0 <= i < parent_dirs(files).len() && parent_dirs(files)[i] == x;
        assert(cands[i] == x);
        assert(cands.contains(x));
    }
    if dirs.contains(x) {
        let i = choose|i: int| 0 <= i < dirs.len() && dirs[i] == x;
        assert(cands[parent_dirs(files).len() + i] == x);
        assert(cands.contains(x));
    }
    if cands.contains(x) {
        let i = choose|i: int| 0 <= i < cands.len() && cands[i] == x;
        if i < parent_dirs(files).len() {
            assert(parent_dirs(files)[i] == x);
        } else {
            assert(dirs[i - parent_dirs(files).len()] == x);
        }
    }
}

/// Whether some entry of v reads the same as x.
fn contains_string(v: &Vec<String>, x: &String) -> (r: bool)
    ensures
        r == v.deep_view().contains(x@),
{
    let mut i: usize = 0;
    while i < v.len()
        invariant
            i <= v@.len(),
            forall|k: int| 0 <= k < i ==> v.deep_view()[k] != x@,
        decreases v@.len() - i,
    {
        if v[i].eq(x) {
            assert(v.deep_view()[i as int] == x@);
            return true;
        }
        i = i + 1;
    }
    false
}

/// The deduplicated runtime library directories: parents of the direct link
/// files and the explicit link-search directories, first occurrence kept, in
/// the candidates' order.
pub fn runtime_lib_dirs(link_files: &Vec<String>, link_dirs: &Vec<String>) -> (r: Vec<String>)
    ensures
        r.deep_view() == dedup_first(dir_candidates(link_files.deep_view(), link_dirs.deep_view())),
        r.deep_view().to_set() == dir_set(link_files.deep_view(), link_dirs.deep_view()),
        forall|i: int, j: int| 0 <= i < j < r.deep_view().len() ==> r.deep_view()[i] != r.deep_view()[j],
{
    let ghost cands = dir_candidates(link_files.deep_view(), link_dirs.deep_view());
    let mut out: Vec<String> = Vec::new();
    let mut i: usize = 0;
    proof {
        assert(parent_dirs(link_files.deep_view().take(0)) =~= Seq::<Seq<char>>::empty());
        assert(out.deep_view() =~= dedup_first(parent_dirs(link_files.deep_view().take(0))));
    }
    while i < link_files.len()
        invariant
            i <= link_files@.len(),
            out.deep_view() == dedup_first(parent_dirs(link_files.deep_view().take(i as int))),
        decreases link_files@.len() - i,
    {
        let ghost pre = parent_dirs(link_files.deep_view().take(i as int));
        assert(link_files.deep_view()[i as int] == link_files@[i as int]@);
        match parent_of_path(link_files[i].as_str()) {
            Some(d) => {
                let ghost old_dv = out.deep_view();
                let ghost dv = d@;
                let dup = contains_string(&out, &d);
                proof {
                    lemma_take_one_more(link_files.deep_view(), i as int);
                    assert(pre.push(dv).drop_last() =~= pre);
                    assert(pre.push(dv).last() == dv);
                }
                if !dup {
                    out.push(d);
                    proof {
                        assert(out.deep_view() =~= old_dv.push(dv));
                    }
                }
            },
            None => {
                proof {
                    lemma_take_one_more(link_files.deep_view(), i as int);
                }
            },
        }
        i = i + 1;
    }
    proof {
        assert(link_files.deep_view().take(link_files.deep_view().len() as int) =~= link_files.deep_view());
    }
    let mut j: usize = 0;
    while j < link_dirs.len()
        invariant
            j <= link_dirs@.len(),
            out.deep_view() == dedup_first(
                parent_dirs(link_files.deep_view()) + link_dirs.deep_view().take(j as int),
            ),
        decreases link_dirs@.len() - j,
    {
        let ghost pre = parent_dirs(link_files.deep_view()) + link_dirs.deep_view().take(j as int);
        let ghost old_dv = out.deep_view();
        let dup = contains_string(&out, &link_dirs[j]);
        proof {
            let next = parent_dirs(link_files.deep_view()) + link_dirs.deep_view().take(j as int + 1);
            assert(next.drop_last() =~= pre);
            assert(next.last() == link_dirs.deep_view()[j as int]);
        }
        if !dup {
            let d = link_dirs[j].clone();
            assert(d@ == link_dirs.deep_view()[j as int]);
            out.push(d);
            proof {
                assert(out.deep_view() =~= old_dv.push(link_dirs.deep_view()[j as int]));
            }
        }
        j = j + 1;
    }
    proof {
        assert(parent_dirs(link_files.deep_view()) + link_dirs.deep_view().take(link_dirs.deep_view().len() as int)
            =~= cands);
        lemma_dedup_first_same_entries(cands);
        lemma_dedup_first_no_duplicates(cands);
        assert(out.deep_view().to_set() =~= dir_set(link_files.deep_view(), link_dirs.deep_view()));
    }
    out
}

/// One step of the file walk: the candidates of one more file are the
/// candidates so far, plus its parent when it has one.
proof fn lemma_take_one_more(files: Seq<Seq<char>>, i: int)
    requires
        0 <= i < files.len(),
    ensures
        parent_dirs(files.take(i + 1)) == (match parent_dir(files[i]) {
            Some(p) => parent_dirs(files.take(i)).push(p),
            None => parent_dirs(files.take(i)),
        }),
{
    assert(files.take(i + 1).drop_last() =~= files.take(i));
    assert(files.take(i + 1).last() == files[i]);
}

/// parts joined with ':' between consecutive entries.
pub open spec fn joined(parts: Seq<Seq<char>>) -> Seq<char>
    decreases parts.len(),
{
    if parts.len() == 0 {
        Seq::empty()
    } else if parts.len() == 1 {
        parts[0]
    } else {
        joined(parts.drop_last()) + seq![':'] + parts.last()
    }
}

/// The entries joined with the path-list separator ':'.
pub fn join_paths(parts: &Vec<String>) -> (r: String)
    ensures
        r@ == joined(parts.deep_view()),
{
    let mut out = String::new();
    let mut i: usize = 0;
    proof {
        assert(out@ =~= joined(parts.deep_view().take(0)));
    }
    while i < parts.len()
        invariant
            i <= parts@.len(),
            out@ == joined(parts.deep_view().take(i as int)),
        decreases parts@.len() - i,
    {
        proof {
            assert(parts.deep_view().take(i as int + 1).drop_last() =~= parts.deep_view().take(i as int));
            assert(parts.deep_view().take(i as int + 1).last() == parts.deep_view()[i as int]);
        }
        if i > 0 {
            out.append(":");
            proof {
                reveal_strlit(":");
                assert(":"@ =~= seq![':']);
            }
        }
        out.append(parts[i].as_str());
        i = i + 1;
    }
    proof {
        assert(parts.deep_view().take(parts.deep_view().len() as int) =~= parts.deep_view());
    }
    out
}

} // verus!
