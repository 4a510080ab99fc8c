//! Route templates for the service's API: a static route with named
//! placeholder segments that calls fill in.

use vstd::prelude::*;

use crate::text::{chars_vec, copy_range, string_from_chars};

verus! {

/// Whether `pat` occurs in `s` at position `i`.
pub open spec fn occurs_at(s: Seq<char>, pat: Seq<char>, i: int) -> bool {
    0 <= i && i + pat.len() <= s.len() && s.subrange(i, i + pat.len()) == pat
}

/// The position of the first occurrence of `pat` in `s`, or `-1` when
/// there is none.
pub open spec fn find_pat(s: Seq<char>, pat: Seq<char>) -> int
    decreases s.len(),
{
    if pat.len() > s.len() {
        -1
    } else if s.take(pat.len() as int) == pat {
        0
    } else if s.len() == 0 {
        -1
    } else {
        let r = find_pat(s.drop_first(), pat);
        if r == -1 {
            -1
        } else {
            1 + r
        }
    }
}

/// The first occurrence reported by `find_pat` is one, is the first one,
/// and `-1` means there is none.
proof fn lemma_find_pat(s: Seq<char>, pat: Seq<char>)
    ensures
        find_pat(s, pat) == -1 ==> forall|i: int| !occurs_at(s, pat, i),
        find_pat(s, pat) != -1 ==> occurs_at(s, pat, find_pat(s, pat)),
        find_pat(s, pat) != -1 ==> forall|i: int| 0 <= i < find_pat(s, pat) ==> !occurs_at(
            s,
            pat,
            i,
        ),
    decreases s.len(),
{
    let f = find_pat(s, pat);
    if pat.len() > s.len() {
        assert forall|i: int| !occurs_at(s, pat, i) by {}
    } else if s.take(pat.len() as int) == pat {
        assert(s.subrange(0, pat.len() as int) =~= s.take(pat.len() as int));
    } else if s.len() == 0 {
        assert forall|i: int| !occurs_at(s, pat, i) by {
            if occurs_at(s, pat, i) {
                assert(s.subrange(i, i + pat.len()) =~= pat);
            }
        }
    } else {
        lemma_find_pat(s.drop_first(), pat);
        assert forall|i: int| 1 <= i && occurs_at(s, pat, i) implies occurs_at(
            s.drop_first(),
            pat,
            i - 1,
        ) by {
            assert(s.drop_first().subrange(i - 1, i - 1 + pat.len()) =~= s.subrange(
                i,
                i + pat.len(),
            ));
        }
        assert forall|i: int| occurs_at(s.drop_first(), pat, i) implies occurs_at(
            s,
            pat,
            i + 1,
        ) by {
            assert(s.subrange(i + 1, i + 1 + pat.len()) =~= s.drop_first().subrange(
                i,
                i + pat.len(),
            ));
        }
        if f == -1 {
            assert forall|i: int| !occurs_at(s, pat, i) by {
                if occurs_at(s, pat, i) {
                    if i == 0 {
                        assert(s.subrange(0, pat.len() as int) =~= s.take(pat.len() as int));
                    }
                }
            }
        }
    }
}

/// `s` with the first occurrence of `pat` replaced by `val`; `s` itself
/// when `pat` does not occur.
pub open spec fn replace_first(s: Seq<char>, pat: Seq<char>, val: Seq<char>) -> Seq<char> {
    let f = find_pat(s, pat);
    if f == -1 {
        s
    } else {
        s.take(f) + val + s.skip(f + pat.len())
    }
}

/// `s` with every occurrence of `pat` replaced by `val`, scanning left to
/// right without revisiting replaced text.
pub open spec fn replace_every(s: Seq<char>, pat: Seq<char>, val: Seq<char>) -> Seq<char>
    decreases s.len(),
    via replace_every_decreases
{
    if pat.len() == 0 {
        s
    } else {
        let f = find_pat(s, pat);
        if f == -1 {
            s
        } else {
            s.take(f) + val + replace_every(s.skip(f + pat.len()), pat, val)
        }
    }
}

#[via_fn]
proof fn replace_every_decreases(s: Seq<char>, pat: Seq<char>, val: Seq<char>) {
    lemma_find_pat(s, pat);
}

/// Whether `pat` occurs in `v` at position `i`, checked directly.
fn match_at(v: &Vec<char>, pat: &Vec<char>, i: usize) -> (r: bool)
    requires
        i + pat.len() <= v.len(),
    ensures
        r == occurs_at(v@, pat@, i as int),
{
    let m = pat.len();
    let mut k: usize = 0;
    while k < m
        invariant_except_break
            0 <= k <= m,
            m == pat.len(),
            i + m <= v.len(),
            forall|j: int| 0 <= j < k ==> v@[i + j] == pat@[j],
        ensures
            0 <= k <= m,
            m == pat.len(),
            i + m <= v.len(),
            forall|j: int| 0 <= j < k ==> v@[i + j] == pat@[j],
            k < m ==> v@[i + k] != pat@[k as int],
        decreases m - k,
    {
        if v[i + k] != pat[k] {
            break;
        }
        k += 1;
    }
    if k == m {
        proof {
            assert(v@.subrange(i as int, i + m) =~= pat@);
        }
        true
    } else {
        proof {
            if occurs_at(v@, pat@, i as int) {
                assert(v@.subrange(i as int, i + m)[k as int] == pat@[k as int]);
            }
        }
        false
    }
}

/// The position of the first occurrence of `pat` in `v` at or after 0, or
/// `None` when there is none.
fn find_in(v: &Vec<char>, pat: &Vec<char>) -> (r: Option<usize>)
    ensures
        match r {
            Some(i) => i as int == find_pat(v@, pat@),
            None => find_pat(v@, pat@) == -1,
        },
{
    let n = v.len();
    let m = pat.len();
    proof {
        lemma_find_pat(v@, pat@);
    }
    if m > n {
        return None;
    }
    if m == 0 {
        proof {
            assert(v@.take(0) =~= pat@);
        }
        return Some(0);
    }
    let mut i: usize = 0;
    while i <= n - m
        invariant_except_break
            0 <= i <= n - m + 1,
            n == v.len(),
            m == pat.len(),
            0 < m <= n,
            forall|j: int| 0 <= j < i ==> !occurs_at(v@, pat@, j),
        ensures
            forall|j: int| 0 <= j < i ==> !occurs_at(v@, pat@, j),
            i <= n - m + 1,
            i <= n - m ==> occurs_at(v@, pat@, i as int),
        decreases n - m + 1 - i,
    {
        if match_at(v, pat, i) {
            break;
        }
        i += 1;
    }
    if i <= n - m {
        proof {
            let f = find_pat(v@, pat@);
            if f == -1 {
                assert(false);
            }
            if f < i {
                assert(false);
            }
            if i < f {
                assert(false);
            }
        }
        Some(i)
    } else {
        proof {
            let f = find_pat(v@, pat@);
            if f != -1 {
                assert(occurs_at(v@, pat@, f));
                assert(false);
            }
        }
        None
    }
}

/// `v` with the first occurrence of `pat` replaced by `val`.
fn replace_first_chars(v: &Vec<char>, pat: &Vec<char>, val: &Vec<char>) -> (out: Vec<char>)
    ensures
        out@ == replace_first(v@, pat@, val@),
{
    match find_in(v, pat) {
        None => copy_range(v, 0, v.len()),
        Some(i) => {
            proof {
                lemma_find_pat(v@, pat@);
                assert(occurs_at(v@, pat@, i as int));
                assert(i + pat@.len() <= v@.len());
            }
            let mut out = copy_range(v, 0, i);
            let mut mid = copy_range(val, 0, val.len());
            let mut tail = copy_range(v, i + pat.len(), v.len());
            out.append(&mut mid);
            out.append(&mut tail);
            proof {
                assert(v@.subrange(0, v@.len() as int) =~= v@);
                assert(val@.subrange(0, val@.len() as int) =~= val@);
                assert(v@.subrange(0, i as int) =~= v@.take(i as int));
                assert(v@.subrange(i + pat@.len(), v@.len() as int) =~= v@.skip(i + pat@.len()));
            }
            out
        },
    }
}

/// A route template: a static route and the placeholder segments that
/// calls replace with concrete values.
#[derive(Debug, Clone, Copy, PartialEq, Eq)]
pub struct Url<const N: usize> {
    route: &'static str,
    replacements: [&'static str; N],
}

impl Url<0> {
    /// A route with no placeholders.
    pub fn from(route: &'static str) -> (r: Self)
        ensures
            r.spec_route() == route@,
    {
        Url { route, replacements: [] }
    }
}

impl<const N: usize> Url<N> {
    /// The raw route text.
    pub closed spec fn spec_route(&self) -> Seq<char> {
        self.route@
    }

    /// The placeholder segments, in order.
    pub closed spec fn spec_replacements(&self) -> Seq<Seq<char>> {
        Seq::new(N as nat, |i: int| self.replacements@[i]@)
    }

    /// A route with the given placeholder segments.
    pub fn new(route: &'static str, replacements: [&'static str; N]) -> (r: Self)
        ensures
            r.spec_route() == route@,
            r.spec_replacements().len() == N,
            forall|i: int|
                0 <= i < N ==> r.spec_replacements()[i] == (#[trigger] replacements@[i])@,
    {
        Url { route, replacements }
    }

    /// The raw route text.
    pub fn as_str(&self) -> (r: &'static str)
        ensures
            r@ == self.spec_route(),
    {
        self.route
    }

    /// The route with each placeholder replaced, in order, by the
    /// matching value: the first occurrence of each placeholder is
    /// replaced by the value at the same position.
    pub fn replace(&self, values: [&str; N]) -> (r: String)
        ensures
            r@ == spec_fill(
                self.spec_route(),
                self.spec_replacements(),
                Seq::new(N as nat, |i: int| values@[i]@),
            ),
    {
        let ghost pats = self.spec_replacements();
        let ghost vals = Seq::new(N as nat, |i: int| values@[i]@);
        let mut digest = chars_vec(self.route);
        proof {
            assert(pats.skip(0) =~= pats);
            assert(vals.skip(0) =~= vals);
        }
        let mut k: usize = 0;
        while k < N
            invariant
                0 <= k <= N,
                pats == self.spec_replacements(),
                vals == Seq::new(N as nat, |i: int| values@[i]@),
                spec_fill(self.spec_route(), pats, vals) == spec_fill(
                    digest@,
                    pats.skip(k as int),
                    vals.skip(k as int),
                ),
            decreases N - k,
        {
            let pat = chars_vec(self.replacements[k]);
            let val = chars_vec(values[k]);
            let next = replace_first_chars(&digest, &pat, &val);
            proof {
                assert(pats.skip(k as int)[0] == pat@);
                assert(vals.skip(k as int)[0] == val@);
                assert(pats.skip(k as int).drop_first() =~= pats.skip(k + 1));
                assert(vals.skip(k as int).drop_first() =~= vals.skip(k + 1));
            }
            digest = next;
            k += 1;
        }
        proof {
            assert(pats.skip(N as int) =~= Seq::<Seq<char>>::empty());
            assert(vals.skip(N as int) =~= Seq::<Seq<char>>::empty());
        }
        string_from_chars(&digest)
    }
}

/// The route with each placeholder in turn replaced (first occurrence
/// only) by the matching value.
pub open spec fn spec_fill(s: Seq<char>, pats: Seq<Seq<char>>, vals: Seq<Seq<char>>) -> Seq<char>
    decreases pats.len(),
{
    if pats.len() == 0 || vals.len() == 0 {
        s
    } else {
        spec_fill(replace_first(s, pats[0], vals[0]), pats.drop_first(), vals.drop_first())
    }
}

impl Url<1> {
    /// The route with every occurrence of its one placeholder replaced by
    /// the given value.
    pub fn insert(&self, value: &str) -> (r: String)
        requires
            self.spec_replacements()[0].len() > 0,
        ensures
            r@ == replace_every(self.spec_route(), self.spec_replacements()[0], value@),
    {
        let pat = chars_vec(self.replacements[0]);
        let val = chars_vec(value);
        let route = chars_vec(self.route);
        let mut out: Vec<char> = Vec::new();
        let mut rem = route;
        while rem.len() > 0
            invariant_except_break
                pat@.len() > 0,
                pat@ == self.spec_replacements()[0],
                val@ == value@,
                replace_every(self.spec_route(), pat@, val@) == out@ + replace_every(
                    rem@,
                    pat@,
                    val@,
                ),
            ensures
                replace_every(self.spec_route(), pat@, val@) == out@ + replace_every(
                    rem@,
                    pat@,
                    val@,
                ),
                find_pat(rem@, pat@) == -1,
            decreases rem.len(),
        {
            match find_in(&rem, &pat) {
                None => {
                    break;
                },
                Some(i) => {
                    proof {
                        lemma_find_pat(rem@, pat@);
                    }
                    let mut head = copy_range(&rem, 0, i);
                    let mut mid = copy_range(&val, 0, val.len());
                    let next = copy_range(&rem, i + pat.len(), rem.len());
                    out.append(&mut head);
                    out.append(&mut mid);
                    proof {
                        assert(val@.subrange(0, val@.len() as int) =~= val@);
                        assert(rem@.subrange(0, i as int) =~= rem@.take(i as int));
                        assert(rem@.subrange(i + pat@.len(), rem@.len() as int) =~= rem@.skip(
                            i + pat@.len(),
                        ));
                    }
                    rem = next;
                },
            }
        }
        let mut tail = rem;
        out.append(&mut tail);
        string_from_chars(&out)
    }
}

} // verus!
