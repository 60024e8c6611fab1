use vstd::prelude::*;

verus! {

/// `d` occurs in `s` at position `i`.
pub open spec fn occurs_at(s: Seq<char>, d: Seq<char>, i: int) -> bool {
    0 <= i && i + d.len() <= s.len() && s.subrange(i, i + d.len()) == d
}

/// `p` occurs somewhere in `s`.
pub open spec fn contains_seq(s: Seq<char>, p: Seq<char>) -> bool {
    exists|i: int| occurs_at(s, p, i)
}

/// What follows the leftmost occurrence of `d` in `s`, if `d` occurs at all.
pub open spec fn after_first(s: Seq<char>, d: Seq<char>) -> Option<Seq<char>>
    decreases s.len(),
{
    if d.len() == 0 || s.len() < d.len() {
        None
    } else if s.subrange(0, d.len() as int) == d {
        Some(s.subrange(d.len() as int, s.len() as int))
    } else {
        after_first(s.subrange(1, s.len() as int), d)
    }
}

/// `s` with every occurrence of `d` removed, scanning from the left.
pub open spec fn strip_all(s: Seq<char>, d: Seq<char>) -> Seq<char>
    decreases s.len(),
{
    if d.len() == 0 || s.len() == 0 {
        s
    } else if s.len() >= d.len() && s.subrange(0, d.len() as int) == d {
        strip_all(s.subrange(d.len() as int, s.len() as int), d)
    } else {
        seq![s[0]] + strip_all(s.subrange(1, s.len() as int), d)
    }
}

/// The pieces of `s` between occurrences of `d`, all but the first, joined
/// back together without `d`.
pub open spec fn tail_pieces(s: Seq<char>, d: Seq<char>) -> Seq<char> {
    match after_first(s, d) {
        Some(t) => strip_all(t, d),
        None => Seq::empty(),
    }
}

/// A character that may close a script statement: `;` or ASCII whitespace.
pub open spec fn is_statement_end(c: char) -> bool {
    c == ';' || c == ' ' || c == '\n' || c == '\r' || c == '\t'
}

/// `s` without its trailing run of statement-closing characters.
pub open spec fn strip_statement_end(s: Seq<char>) -> Seq<char>
    decreases s.len(),
{
    if s.len() > 0 && is_statement_end(s.last()) {
        strip_statement_end(s.drop_last())
    } else {
        s
    }
}

/// Relies on str::chars: the characters of a string, in order.
#[verifier::external_body]
pub(crate) fn chars_of(s: &str) -> (r: Vec<char>)
    ensures
        r@ == s@,
{
    s.chars().collect()
}

/// Relies on `FromIterator<char>` for String: the string of the given characters.
#[verifier::external_body]
pub(crate) fn string_of(c: &Vec<char>) -> (r: String)
    ensures
        r@ == c@,
{
    c.iter().collect()
}

/// Whether `d` occurs in `s` at position `i`.
pub fn starts_at(s: &Vec<char>, d: &Vec<char>, i: usize) -> (r: bool)
    requires
        i <= s@.len(),
    ensures
        r == (i + d@.len() <= s@.len() && s@.subrange(i as int, i + d@.len()) == d@),
{
    if d.len() > s.len() - i {
        return false;
    }
    let slen = s.len();
    let mut k: usize = 0;
    while k < d.len()
        invariant
            i + d@.len() <= s@.len(),
            s@.len() == slen,
            k <= d@.len(),
            forall|j: int| 0 <= j < k ==> s@[i + j] == d@[j],
        decreases d@.len() - k,
    {
        if s[i + k] != d[k] {
            assert(s@.subrange(i as int, i + d@.len())[k as int] != d@[k as int]);
            return false;
        }
        k = k + 1;
    }
    assert(s@.subrange(i as int, i + d@.len()) =~= d@);
    true
}

proof fn lemma_suffix_step(s: Seq<char>, i: int, n: int)
    requires
        0 <= i,
        0 <= n,
        i + n <= s.len(),
    ensures
        s.subrange(i, s.len() as int).subrange(n, s.len() - i) == s.subrange(i + n, s.len() as int),
        n <= s.len() - i ==> s.subrange(i, s.len() as int).subrange(0, n) == s.subrange(i, i + n),
{
    assert(s.subrange(i, s.len() as int).subrange(n, s.len() - i) =~= s.subrange(i + n, s.len() as int));
    assert(s.subrange(i, s.len() as int).subrange(0, n) =~= s.subrange(i, i + n));
}

/// Whether `p` occurs in `s`.
pub fn contains_chars(s: &Vec<char>, p: &Vec<char>) -> (r: bool)
    ensures
        r == contains_seq(s@, p@),
{
    let mut i: usize = 0;
    while i < s.len()
        invariant
            i <= s@.len(),
            forall|j: int| 0 <= j < i ==> !occurs_at(s@, p@, j),
        decreases s@.len() - i,
    {
        if starts_at(s, p, i) {
            assert(occurs_at(s@, p@, i as int));
            return true;
        }
        i = i + 1;
    }
    if starts_at(s, p, i) {
        assert(occurs_at(s@, p@, i as int));
        return true;
    }
    assert forall|j: int| !occurs_at(s@, p@, j) by {
        if 0 <= j && j + p@.len() <= s@.len() && j != i {
            assert(j < i);
        }
    }
    false
}

/// What follows the leftmost occurrence of `d` in `s`.
pub fn after_first_chars(s: &Vec<char>, d: &Vec<char>) -> (r: Option<Vec<char>>)
    ensures
        r matches Some(t) ==> after_first(s@, d@) == Some(t@),
        r is None ==> after_first(s@, d@) is None,
{
    if d.len() == 0 {
        return None;
    }
    let mut i: usize = 0;
    assert(s@.subrange(0, s@.len() as int) =~= s@);
    while i < s.len()
        invariant
            i <= s@.len(),
            d@.len() > 0,
            after_first(s@, d@) == after_first(s@.subrange(i as int, s@.len() as int), d@),
        decreases s@.len() - i,
    {
        let ghost rest = s@.subrange(i as int, s@.len() as int);
        if s.len() - i < d.len() {
            return None;
        }
        proof {
            lemma_suffix_step(s@, i as int, d@.len() as int);
        }
        if starts_at(s, d, i) {
            let mut t: Vec<char> = Vec::new();
            let mut k: usize = i + d.len();
            while k < s.len()
                invariant
                    i + d@.len() <= k <= s@.len(),
                    t@ == s@.subrange(i + d@.len(), k as int),
                decreases s@.len() - k,
            {
                t.push(s[k]);
                proof {
                    assert(t@ =~= s@.subrange(i + d@.len(), k + 1));
                }
                k = k + 1;
            }
            return Some(t);
        }
        proof {
            lemma_suffix_step(s@, i as int, 1);
        }
        i = i + 1;
    }
    proof {
        assert(s@.subrange(i as int, s@.len() as int).len() == 0);
    }
    None
}

/// `s` with every occurrence of `d` removed, scanning from the left.
pub fn strip_all_chars(s: &Vec<char>, d: &Vec<char>) -> (r: Vec<char>)
    ensures
        r@ == strip_all(s@, d@),
{
    if d.len() == 0 {
        let mut t: Vec<char> = Vec::new();
        let mut k: usize = 0;
        while k < s.len()
            invariant
                k <= s@.len(),
                t@ == s@.subrange(0, k as int),
            decreases s@.len() - k,
        {
            t.push(s[k]);
            proof {
                assert(t@ =~= s@.subrange(0, k + 1));
            }
            k = k + 1;
        }
        assert(t@ =~= s@);
        return t;
    }
    let mut out: Vec<char> = Vec::new();
    let mut i: usize = 0;
    assert(s@.subrange(0, s@.len() as int) =~= s@);
    assert(out@ + strip_all(s@, d@) =~= strip_all(s@, d@));
    while i < s.len()
        invariant
            i <= s@.len(),
            d@.len() > 0,
            strip_all(s@, d@) == out@ + strip_all(s@.subrange(i as int, s@.len() as int), d@),
        decreases s@.len() - i,
    {
        let ghost rest = s@.subrange(i as int, s@.len() as int);
        if starts_at(s, d, i) {
            proof {
                lemma_suffix_step(s@, i as int, d@.len() as int);
            }
            i = i + d.len();
        } else {
            proof {
                lemma_suffix_step(s@, i as int, 1);
                if s@.len() - i >= d@.len() {
                    lemma_suffix_step(s@, i as int, d@.len() as int);
                }
                assert(rest[0] == s@[i as int]);
                assert(out@ + (seq![s@[i as int]] + strip_all(rest.subrange(1, rest.len() as int), d@))
                    =~= out@.push(s@[i as int]) + strip_all(rest.subrange(1, rest.len() as int), d@));
            }
            out.push(s[i]);
            i = i + 1;
        }
    }
    proof {
        assert(s@.subrange(i as int, s@.len() as int).len() == 0);
        assert(out@ + strip_all(s@.subrange(i as int, s@.len() as int), d@) =~= out@);
    }
    out
}

/// The pieces of `s` between occurrences of `d`, all but the first, joined
/// back together without `d`.
pub fn tail_pieces_chars(s: &Vec<char>, d: &Vec<char>) -> (r: Vec<char>)
    ensures
        r@ == tail_pieces(s@, d@),
{
    match after_first_chars(s, d) {
        Some(t) => strip_all_chars(&t, d),
        None => Vec::new(),
    }
}

/// `s` without its trailing run of `;` and ASCII whitespace.
pub fn strip_statement_end_chars(s: &Vec<char>) -> (r: Vec<char>)
    ensures
        r@ == strip_statement_end(s@),
{
    let mut n: usize = s.len();
    assert(s@.subrange(0, n as int) =~= s@);
    while n > 0 && (s[n - 1] == ';' || s[n - 1] == ' ' || s[n - 1] == '\n' || s[n - 1] == '\r' || s[n - 1] == '\t')
        invariant
            n <= s@.len(),
            strip_statement_end(s@) == strip_statement_end(s@.subrange(0, n as int)),
        decreases n,
    {
        assert(s@.subrange(0, n as int).drop_last() =~= s@.subrange(0, n - 1));
        n = n - 1;
    }
    let mut t: Vec<char> = Vec::new();
    let mut k: usize = 0;
    while k < n
        invariant
            n <= s@.len(),
            k <= n,
            t@ == s@.subrange(0, k as int),
        decreases n - k,
    {
        t.push(s[k]);
        proof {
            assert(t@ =~= s@.subrange(0, k + 1));
        }
        k = k + 1;
    }
    t
}

} // verus!
