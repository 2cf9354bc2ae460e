//! The version order the minimum-version floor is checked against.
//!
//! A version string is split at the dots into components. Components compare
//! numerically: leading zero characters are ignored, a longer remainder is
//! larger, and equal-length remainders compare character by character by code
//! point. Component lists compare by the first difference; a list that
//! extends an equal prefix is larger, so "2024.1" is above "2024".

use vstd::prelude::*;

verus! {

/// The component with its leading '0' characters removed.
pub open spec fn strip_zeros(s: Seq<char>) -> Seq<char>
    decreases s.len(),
{
    if s.len() > 0 && s[0] == '0' {
        strip_zeros(s.drop_first())
    } else {
        s
    }
}

/// Strict lexicographic order on character sequences by code point; a proper
/// prefix is below the longer sequence.
pub open spec fn lex_lt(a: Seq<char>, b: Seq<char>) -> bool
    decreases a.len(),
{
    if b.len() == 0 {
        false
    } else if a.len() == 0 {
        true
    } else if a[0] != b[0] {
        (a[0] as u32) < (b[0] as u32)
    } else {
        lex_lt(a.drop_first(), b.drop_first())
    }
}

/// Numeric order on single version components.
pub open spec fn comp_lt(a: Seq<char>, b: Seq<char>) -> bool {
    let x = strip_zeros(a);
    let y = strip_zeros(b);
    if x.len() != y.len() {
        x.len() < y.len()
    } else {
        lex_lt(x, y)
    }
}

/// Order on component lists: the first component where the two differ
/// decides, and past an equal prefix the longer list is larger.
pub open spec fn comps_lt(a: Seq<Seq<char>>, b: Seq<Seq<char>>) -> bool
    decreases a.len(),
{
    if b.len() == 0 {
        false
    } else if a.len() == 0 {
        true
    } else if comp_lt(a[0], b[0]) {
        true
    } else if comp_lt(b[0], a[0]) {
        false
    } else {
        comps_lt(a.drop_first(), b.drop_first())
    }
}

/// Index of the first '.' in s, or s.len() when there is none.
pub open spec fn first_dot(s: Seq<char>) -> nat
    decreases s.len(),
{
    if s.len() == 0 {
        0
    } else if s[0] == '.' {
        0
    } else {
        1 + first_dot(s.drop_first())
    }
}

/// The first dot stands exactly where a dot first occurs.
proof fn lemma_first_dot_at(s: Seq<char>, k: nat)
    requires
        k < s.len(),
        s[k as int] == '.',
        forall|j: int| 0 <= j < k ==> s[j] != '.',
    ensures
        first_dot(s) == k,
    decreases s.len(),
{
    if k == 0 {
    } else {
        assert(s[0] != '.');
        lemma_first_dot_at(s.drop_first(), (k - 1) as nat);
    }
}

/// A string without any dot is one single component.
proof fn lemma_first_dot_none(s: Seq<char>)
    requires
        forall|j: int| 0 <= j < s.len() ==> s[j] != '.',
    ensures
        first_dot(s) == s.len(),
    decreases s.len(),
{
    if s.len() == 0 {
    } else {
        lemma_first_dot_none(s.drop_first());
    }
}

/// The dot-separated components of a version string.
pub open spec fn split_dots(s: Seq<char>) -> Seq<Seq<char>>
    decreases s.len(),
{
    if first_dot(s) >= s.len() {
        seq![s]
    } else {
        seq![s.take(first_dot(s) as int)] + split_dots(s.skip(first_dot(s) as int + 1))
    }
}

/// v is strictly below floor in the version order.
pub open spec fn spec_version_below(v: Seq<char>, floor: Seq<char>) -> bool {
    comps_lt(split_dots(v), split_dots(floor))
}

/// The fixed calendar-year version every probed library must report at least.
pub open spec fn spec_minimum_version() -> Seq<char> {
    "2024"@
}

/// The fixed calendar-year version every probed library must report at least.
pub fn minimum_version() -> (r: &'static str)
    ensures
        r@ == spec_minimum_version(),
{
    "2024"
}

/// Count of leading '0' characters, so that the stripped component is the
/// remaining suffix.
fn leading_zeros(s: &str) -> (r: usize)
    ensures
        r <= s@.len(),
        strip_zeros(s@) == s@.skip(r as int),
{
    let n = s.unicode_len();
    proof {
        assert(s@.skip(0) =~= s@);
    }
    let mut i: usize = 0;
    while i < n
        invariant
            i <= n,
            n == s@.len(),
            strip_zeros(s@) == strip_zeros(s@.skip(i as int)),
        decreases n - i,
    {
        if s.get_char(i) != '0' {
            assert(s@.skip(i as int)[0] == s@[i as int]);
            return i;
        }
        proof {
            assert(s@.skip(i as int).drop_first() =~= s@.skip(i as int + 1));
        }
        i = i + 1;
    }
    proof {
        assert(s@.skip(n as int) =~= Seq::<char>::empty());
    }
    n
}

/// Whether the suffix of a starting at ai is lexicographically below the
/// suffix of b starting at bi.
fn lex_lt_from(a: &str, ai: usize, b: &str, bi: usize) -> (r: bool)
    requires
        ai <= a@.len(),
        bi <= b@.len(),
    ensures
        r == lex_lt(a@.skip(ai as int), b@.skip(bi as int)),
{
    let an = a.unicode_len();
    let bn = b.unicode_len();
    let mut i: usize = ai;
    let mut j: usize = bi;
    while i < an && j < bn
        invariant
            ai <= i <= an,
            bi <= j <= bn,
            an == a@.len(),
            bn == b@.len(),
            lex_lt(a@.skip(ai as int), b@.skip(bi as int)) == lex_lt(a@.skip(i as int), b@.skip(j as int)),
        decreases an - i,
    {
        let ca = a.get_char(i);
        let cb = b.get_char(j);
        assert(a@.skip(i as int)[0] == a@[i as int]);
        assert(b@.skip(j as int)[0] == b@[j as int]);
        if ca != cb {
            return (ca as u32) < (cb as u32);
        }
        proof {
            assert(a@.skip(i as int).drop_first() =~= a@.skip(i as int + 1));
            assert(b@.skip(j as int).drop_first() =~= b@.skip(j as int + 1));
        }
        i = i + 1;
        j = j + 1;
    }
    proof {
        if j == bn {
            assert(b@.skip(j as int) =~= Seq::<char>::empty());
        } else {
            assert(a@.skip(i as int) =~= Seq::<char>::empty());
        }
    }
    j < bn
}

/// Whether component a is numerically below component b.
fn component_below(a: &str, b: &str) -> (r: bool)
    ensures
        r == comp_lt(a@, b@),
{
    let za = leading_zeros(a);
    let zb = leading_zeros(b);
    let la = a.unicode_len() - za;
    let lb = b.unicode_len() - zb;
    if la != lb {
        la < lb
    } else {
        lex_lt_from(a, za, b, zb)
    }
}

/// The dot-separated components of a version string.
pub fn split_version(s: &str) -> (r: Vec<String>)
    ensures
        r.deep_view() == split_dots(s@),
{
    let n = s.unicode_len();
    let mut r: Vec<String> = Vec::new();
    proof {
        assert(s@.skip(0) =~= s@);
        assert(r.deep_view() + split_dots(s@) =~= split_dots(s@));
    }
    let mut start: usize = 0;
    let mut i: usize = 0;
    while i < n
        invariant
            start <= i <= n,
            n == s@.len(),
            split_dots(s@) == r.deep_view() + split_dots(s@.skip(start as int)),
            forall|k: int| start <= k < i ==> s@[k] != '.',
        decreases n - i,
    {
        if s.get_char(i) == '.' {
            let comp = s.substring_char(start, i).to_owned();
            proof {
                let rest = s@.skip(start as int);
                assert forall|j: int| 0 <= j < i - start implies rest[j] != '.' by {
                    assert(rest[j] == s@[start + j]);
                }
                lemma_first_dot_at(rest, (i - start) as nat);
                assert(rest.take(i - start as int) =~= comp@);
                assert(rest.skip(i - start as int + 1) =~= s@.skip(i as int + 1));
            }
            let ghost old_dv = r.deep_view();
            r.push(comp);
            proof {
                assert(r.deep_view() =~= old_dv + seq![comp@]);
                assert(old_dv + seq![comp@] + split_dots(s@.skip(i as int + 1)) =~= split_dots(s@));
            }
            start = i + 1;
        }
        i = i + 1;
    }
    let comp = s.substring_char(start, n).to_owned();
    proof {
        let rest = s@.skip(start as int);
        assert forall|j: int| 0 <= j < rest.len() implies rest[j] != '.' by {
            assert(rest[j] == s@[start + j]);
        }
        lemma_first_dot_none(rest);
        assert(rest =~= comp@);
    }
    let ghost old_dv = r.deep_view();
    r.push(comp);
    proof {
        assert(r.deep_view() =~= old_dv + seq![comp@]);
        assert(old_dv + seq![comp@] =~= split_dots(s@));
    }
    r
}

/// Whether component list a is below component list b.
fn components_below(a: &Vec<String>, b: &Vec<String>) -> (r: bool)
    ensures
        r == comps_lt(a.deep_view(), b.deep_view()),
{
    proof {
        assert(a.deep_view().skip(0) =~= a.deep_view());
        assert(b.deep_view().skip(0) =~= b.deep_view());
    }
    let mut i: usize = 0;
    while i < a.len() && i < b.len()
        invariant
            i <= a@.len(),
            i <= b@.len(),
            comps_lt(a.deep_view(), b.deep_view()) == comps_lt(
                a.deep_view().skip(i as int),
                b.deep_view().skip(i as int),
            ),
        decreases a@.len() - i,
    {
        assert(a.deep_view().skip(i as int)[0] == a.deep_view()[i as int]);
        assert(b.deep_view().skip(i as int)[0] == b.deep_view()[i as int]);
        if component_below(a[i].as_str(), b[i].as_str()) {
            return true;
        }
        if component_below(b[i].as_str(), a[i].as_str()) {
            return false;
        }
        proof {
            assert(a.deep_view().skip(i as int).drop_first() =~= a.deep_view().skip(i as int + 1));
            assert(b.deep_view().skip(i as int).drop_first() =~= b.deep_view().skip(i as int + 1));
        }
        i = i + 1;
    }
    proof {
        if i >= b.len() {
            assert(b.deep_view().skip(i as int) =~= Seq::<Seq<char>>::empty());
        } else {
            assert(a.deep_view().skip(i as int) =~= Seq::<Seq<char>>::empty());
        }
    }
    i < b.len()
}

/// Whether version v is strictly below floor in the version order.
pub fn version_below(v: &str, floor: &str) -> (r: bool)
    ensures
        r == spec_version_below(v@, floor@),
{
    let cv = split_version(v);
    let cf = split_version(floor);
    components_below(&cv, &cf)
}

} // verus!
