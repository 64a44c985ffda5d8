//! Trimming of caller metadata: source paths are cut after the first
//! `/src/` (or a leading `src/`), function paths after the last `::`.
use vstd::prelude::*;
use vstd::string::StrSliceExecFns;

verus! {

/// The pattern stands in `s` at position `i`.
pub open spec fn match_at(s: Seq<char>, pat: Seq<char>, i: int) -> bool {
    s.subrange(i, i + pat.len()) == pat
}

/// What follows the first occurrence of `pat` in `s`, if there is one.
pub open spec fn after_first(s: Seq<char>, pat: Seq<char>) -> Option<Seq<char>>
    decreases s.len(),
{
    if pat.len() == 0 || s.len() < pat.len() {
        None
    } else if s.take(pat.len() as int) == pat {
        Some(s.skip(pat.len() as int))
    } else {
        after_first(s.skip(1), pat)
    }
}

/// What follows the last occurrence of `pat` in `s`, if there is one.
pub open spec fn after_last(s: Seq<char>, pat: Seq<char>) -> Option<Seq<char>>
    decreases s.len(),
{
    if pat.len() == 0 || s.len() < pat.len() {
        None
    } else {
        match after_last(s.skip(1), pat) {
            Some(r) => Some(r),
            None => if s.take(pat.len() as int) == pat {
                Some(s.skip(pat.len() as int))
            } else {
                None
            },
        }
    }
}

/// A source path trimmed for output: the part after the first `/src/`; or,
/// failing that, the part after a leading `src/`; or the path unchanged.
pub open spec fn trim_src_spec(s: Seq<char>) -> Seq<char> {
    match after_first(s, "/src/"@) {
        Some(r) => r,
        None => if s.len() >= "src/"@.len() && s.take("src/"@.len() as int) == "src/"@ {
            s.skip("src/"@.len() as int)
        } else {
            s
        },
    }
}

/// A function path trimmed for output: the part after the last `::`, or the
/// path unchanged when there is none.
pub open spec fn trim_fn_spec(s: Seq<char>) -> Seq<char> {
    match after_last(s, "::"@) {
        Some(r) => r,
        None => s,
    }
}

/// Whether `pat` stands at position `i` of `s`, by character comparison.
fn match_here(s: &str, pat: &str, i: usize) -> (b: bool)
    requires
        i + pat@.len() <= s@.len(),
        i + pat@.len() <= usize::MAX,
    ensures
        b == match_at(s@, pat@, i as int),
{
    let p = pat.unicode_len();
    let mut j: usize = 0;
    while j < p
        invariant
            p == pat@.len(),
            i + p <= s@.len(),
            i + p <= usize::MAX,
            j <= p,
            forall|k: int| 0 <= k < j ==> s@[i + k] == pat@[k],
        decreases p - j,
    {
        if s.get_char(i + j) != pat.get_char(j) {
            assert(s@.subrange(i as int, i as int + pat@.len())[j as int] != pat@[j as int]);
            return false;
        }
        j = j + 1;
    }
    assert(s@.subrange(i as int, i as int + pat@.len()) =~= pat@);
    true
}

/// The position of the first occurrence of `pat` in `s`, if any.
fn find_first(s: &str, pat: &str) -> (r: Option<usize>)
    requires
        pat@.len() >= 1,
    ensures
        match r {
            Some(i) => i + pat@.len() <= s@.len() && match_at(s@, pat@, i as int) && (forall|j: int|
                0 <= j < i ==> !match_at(s@, pat@, j)),
            None => forall|j: int|
                0 <= j <= s@.len() - pat@.len() ==> !match_at(s@, pat@, j),
        },
{
    let n = s.unicode_len();
    let p = pat.unicode_len();
    if p > n {
        return None;
    }
    let mut i: usize = 0;
    while i <= n - p
        invariant
            n == s@.len(),
            p == pat@.len(),
            1 <= p <= n,
            i <= n - p + 1,
            forall|j: int| 0 <= j < i ==> !match_at(s@, pat@, j),
        decreases n - i,
    {
        if match_here(s, pat, i) {
            return Some(i);
        }
        i = i + 1;
    }
    None
}

/// The position of the last occurrence of `pat` in `s`, if any.
fn find_last(s: &str, pat: &str) -> (r: Option<usize>)
    requires
        pat@.len() >= 1,
    ensures
        match r {
            Some(i) => i + pat@.len() <= s@.len() && match_at(s@, pat@, i as int) && (forall|j: int|
                i < j <= s@.len() - pat@.len() ==> !match_at(s@, pat@, j)),
            None => forall|j: int|
                0 <= j <= s@.len() - pat@.len() ==> !match_at(s@, pat@, j),
        },
{
    let n = s.unicode_len();
    let p = pat.unicode_len();
    if p > n {
        return None;
    }
    let mut i: usize = n - p + 1;
    while i > 0
        invariant
            n == s@.len(),
            p == pat@.len(),
            1 <= p <= n,
            i <= n - p + 1,
            forall|j: int| i <= j <= n - p ==> !match_at(s@, pat@, j),
        decreases i,
    {
        i = i - 1;
        if match_here(s, pat, i) {
            return Some(i);
        }
    }
    None
}

/// If `pat` stands at `i` and nowhere earlier, the first occurrence is at
/// `i` and what follows it is `s` without its first `i + pat.len()`
/// characters.
proof fn lemma_after_first_at(s: Seq<char>, pat: Seq<char>, i: int)
    requires
        pat.len() >= 1,
        0 <= i,
        i + pat.len() <= s.len(),
        match_at(s, pat, i),
        forall|j: int| 0 <= j < i ==> !match_at(s, pat, j),
    ensures
        after_first(s, pat) == Some(s.skip(i + pat.len())),
    decreases s.len(),
{
    assert(s.take(pat.len() as int) =~= s.subrange(0, pat.len() as int));
    if i == 0 {
        assert(s.take(pat.len() as int) == pat);
    } else {
        assert(!match_at(s, pat, 0));
        assert(s.take(pat.len() as int) != pat);
        let t = s.skip(1);
        assert forall|k: int| 0 <= k < i - 1 implies !match_at(t, pat, k) by {
            assert(t.subrange(k, k + pat.len()) =~= s.subrange(k + 1, k + 1 + pat.len()));
            assert(!match_at(s, pat, k + 1));
        }
        assert(t.subrange(i - 1, i - 1 + pat.len()) =~= s.subrange(i, i + pat.len()));
        lemma_after_first_at(t, pat, i - 1);
        assert(t.skip(i - 1 + pat.len()) =~= s.skip(i + pat.len()));
    }
}

/// If `pat` stands nowhere in `s`, there is no first occurrence.
proof fn lemma_after_first_none(s: Seq<char>, pat: Seq<char>)
    requires
        pat.len() >= 1,
        forall|j: int| 0 <= j <= s.len() - pat.len() ==> !match_at(s, pat, j),
    ensures
        after_first(s, pat) is None,
    decreases s.len(),
{
    if s.len() >= pat.len() {
        assert(s.take(pat.len() as int) =~= s.subrange(0, pat.len() as int));
        assert(!match_at(s, pat, 0));
        let t = s.skip(1);
        assert forall|k: int| 0 <= k <= t.len() - pat.len() implies !match_at(t, pat, k) by {
            assert(t.subrange(k, k + pat.len()) =~= s.subrange(k + 1, k + 1 + pat.len()));
            assert(!match_at(s, pat, k + 1));
        }
        lemma_after_first_none(t, pat);
    }
}

/// If `pat` stands at `i` and nowhere later, the last occurrence is at `i`
/// and what follows it is `s` without its first `i + pat.len()` characters.
proof fn lemma_after_last_at(s: Seq<char>, pat: Seq<char>, i: int)
    requires
        pat.len() >= 1,
        0 <= i,
        i + pat.len() <= s.len(),
        match_at(s, pat, i),
        forall|j: int| i < j <= s.len() - pat.len() ==> !match_at(s, pat, j),
    ensures
        after_last(s, pat) == Some(s.skip(i + pat.len())),
    decreases s.len(),
{
    let t = s.skip(1);
    if i == 0 {
        assert forall|k: int| 0 <= k <= t.len() - pat.len() implies !match_at(t, pat, k) by {
            assert(t.subrange(k, k + pat.len()) =~= s.subrange(k + 1, k + 1 + pat.len()));
            assert(!match_at(s, pat, k + 1));
        }
        lemma_after_first_none(t, pat);
        lemma_after_last_none(t, pat);
        assert(s.take(pat.len() as int) =~= s.subrange(0, pat.len() as int));
        assert(s.take(pat.len() as int) == pat);
    } else {
        assert forall|k: int| i - 1 < k <= t.len() - pat.len() implies !match_at(t, pat, k) by {
            assert(t.subrange(k, k + pat.len()) =~= s.subrange(k + 1, k + 1 + pat.len()));
            assert(!match_at(s, pat, k + 1));
        }
        assert(t.subrange(i - 1, i - 1 + pat.len()) =~= s.subrange(i, i + pat.len()));
        lemma_after_last_at(t, pat, i - 1);
        assert(t.skip(i - 1 + pat.len()) =~= s.skip(i + pat.len()));
    }
}

/// If `pat` stands nowhere in `s`, there is no last occurrence.
proof fn lemma_after_last_none(s: Seq<char>, pat: Seq<char>)
    requires
        pat.len() >= 1,
        forall|j: int| 0 <= j <= s.len() - pat.len() ==> !match_at(s, pat, j),
    ensures
        after_last(s, pat) is None,
    decreases s.len(),
{
    if s.len() >= pat.len() {
        assert(s.take(pat.len() as int) =~= s.subrange(0, pat.len() as int));
        assert(!match_at(s, pat, 0));
        let t = s.skip(1);
        assert forall|k: int| 0 <= k <= t.len() - pat.len() implies !match_at(t, pat, k) by {
            assert(t.subrange(k, k + pat.len()) =~= s.subrange(k + 1, k + 1 + pat.len()));
            assert(!match_at(s, pat, k + 1));
        }
        lemma_after_last_none(t, pat);
    }
}

/// Trim a source-file path for output: everything up to and including the
/// first `/src/` is dropped; failing that, a leading `src/` is dropped;
/// otherwise the path is returned unchanged.
pub fn trim_src_path(path: &str) -> (r: &str)
    ensures
        r@ == trim_src_spec(path@),
{
    proof {
        reveal_strlit("/src/");
        reveal_strlit("src/");
    }
    let n = path.unicode_len();
    match find_first(path, "/src/") {
        Some(i) => {
            proof {
                lemma_after_first_at(path@, "/src/"@, i as int);
            }
            let r = path.substring_char(i + 5, n);
            assert(r@ =~= path@.skip(i + "/src/"@.len()));
            r
        },
        None => {
            proof {
                lemma_after_first_none(path@, "/src/"@);
            }
            if n >= 4 && match_here(path, "src/", 0) {
                let r = path.substring_char(4, n);
                assert(path@.take("src/"@.len() as int) =~= path@.subrange(
                    0,
                    "src/"@.len() as int,
                ));
                assert(r@ =~= path@.skip("src/"@.len() as int));
                r
            } else {
                assert(n >= 4 ==> path@.take("src/"@.len() as int) =~= path@.subrange(
                    0,
                    "src/"@.len() as int,
                ));
                path
            }
        },
    }
}

/// Trim a function path for output: everything up to and including the last
/// `::` is dropped; a path without `::` is returned unchanged.
pub fn trim_fn_path(path: &str) -> (r: &str)
    ensures
        r@ == trim_fn_spec(path@),
{
    proof {
        reveal_strlit("::");
    }
    let n = path.unicode_len();
    match find_last(path, "::") {
        Some(i) => {
            proof {
                lemma_after_last_at(path@, "::"@, i as int);
            }
            let r = path.substring_char(i + 2, n);
            assert(r@ =~= path@.skip(i + "::"@.len()));
            r
        },
        None => {
            proof {
                lemma_after_last_none(path@, "::"@);
            }
            path
        },
    }
}

} // verus!
