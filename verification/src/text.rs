//! Whitespace, trimming and tokens of a line of input.
//!
//! The contracts speak of a string as the sequence of its characters.

use vstd::prelude::*;

verus! {

/// Whether `c` has the Unicode property White_Space.
pub open spec fn is_whitespace(c: char) -> bool {
    let n = c as u32;
    ||| 0x09 <= n <= 0x0D
    ||| n == 0x20
    ||| n == 0x85
    ||| n == 0xA0
    ||| n == 0x1680
    ||| 0x2000 <= n <= 0x200A
    ||| n == 0x2028
    ||| n == 0x2029
    ||| n == 0x202F
    ||| n == 0x205F
    ||| n == 0x3000
}

/// Whether some character of `s` is whitespace.
pub open spec fn has_whitespace(s: Seq<char>) -> bool {
    exists|i: int| 0 <= i < s.len() && is_whitespace(#[trigger] s[i])
}

/// `s` without its leading whitespace.
pub open spec fn trimmed_start(s: Seq<char>) -> Seq<char>
    decreases s.len(),
{
    if s.len() > 0 && is_whitespace(s[0]) {
        trimmed_start(s.drop_first())
    } else {
        s
    }
}

/// `s` without its trailing whitespace.
pub open spec fn trimmed_end(s: Seq<char>) -> Seq<char>
    decreases s.len(),
{
    if s.len() > 0 && is_whitespace(s.last()) {
        trimmed_end(s.drop_last())
    } else {
        s
    }
}

/// `s` without its leading and trailing whitespace.
pub open spec fn trimmed(s: Seq<char>) -> Seq<char> {
    trimmed_end(trimmed_start(s))
}

/// Whether a token begins at index `i` of `s`: a character that is no
/// whitespace, at the front of `s` or behind a whitespace.
pub open spec fn is_token_start(s: Seq<char>, i: int) -> bool {
    &&& 0 <= i < s.len()
    &&& !is_whitespace(s[i])
    &&& (i == 0 || is_whitespace(s[i - 1]))
}

/// The number of tokens that splitting `s` on whitespace yields: the number of
/// maximal runs of characters that are no whitespace.
pub open spec fn token_count(s: Seq<char>) -> nat
    decreases s.len(),
{
    if s.len() == 0 {
        0
    } else if is_token_start(s, s.len() - 1) {
        token_count(s.drop_last()) + 1
    } else {
        token_count(s.drop_last())
    }
}

/// A non-empty sequence without whitespace: exactly one token and nothing else.
pub open spec fn is_single_token(s: Seq<char>) -> bool {
    s.len() > 0 && !has_whitespace(s)
}

/// Whether `p` is how `s` begins.
pub open spec fn begins_with(s: Seq<char>, p: Seq<char>) -> bool {
    p.len() <= s.len() && s.take(p.len() as int) == p
}

/// Leading whitespace up to the first character that is none is what
/// `trimmed_start` removes.
pub proof fn lemma_trimmed_start_skips(s: Seq<char>, i: int)
    requires
        0 <= i <= s.len(),
        forall|k: int| 0 <= k < i ==> is_whitespace(#[trigger] s[k]),
        i == s.len() || !is_whitespace(s[i]),
    ensures
        trimmed_start(s) == s.skip(i),
    decreases i,
{
    if i == 0 {
        assert(s.skip(0) =~= s);
    } else {
        let rest = s.drop_first();
        assert forall|k: int| 0 <= k < i - 1 implies is_whitespace(#[trigger] rest[k]) by {
            assert(rest[k] == s[k + 1]);
        }
        lemma_trimmed_start_skips(rest, i - 1);
        assert(rest.skip(i - 1) =~= s.skip(i));
    }
}

/// Trailing whitespace back to the last character that is none is what
/// `trimmed_end` removes.
pub proof fn lemma_trimmed_end_takes(s: Seq<char>, j: int)
    requires
        0 <= j <= s.len(),
        forall|k: int| j <= k < s.len() ==> is_whitespace(#[trigger] s[k]),
        j == 0 || !is_whitespace(s[j - 1]),
    ensures
        trimmed_end(s) == s.take(j),
    decreases s.len() - j,
{
    if j == s.len() {
        assert(s.take(j) =~= s);
    } else {
        let rest = s.drop_last();
        lemma_trimmed_end_takes(rest, j);
        assert(rest.take(j) =~= s.take(j));
    }
}

/// Between its first and its last character that are no whitespace lies what
/// `trimmed` keeps.
pub proof fn lemma_trimmed_is_subrange(s: Seq<char>, i: int, j: int)
    requires
        0 <= i <= j <= s.len(),
        forall|k: int| 0 <= k < i ==> is_whitespace(#[trigger] s[k]),
        forall|k: int| j <= k < s.len() ==> is_whitespace(#[trigger] s[k]),
        i == j || (!is_whitespace(s[i]) && !is_whitespace(s[j - 1])),
    ensures
        trimmed(s) == s.subrange(i, j),
{
    if i == j {
        assert forall|k: int| 0 <= k < s.len() implies is_whitespace(#[trigger] s[k]) by {}
        lemma_trimmed_start_skips(s, s.len() as int);
        assert(s.skip(s.len() as int) =~= Seq::<char>::empty());
        assert(s.subrange(i, j) =~= Seq::<char>::empty());
    } else {
        lemma_trimmed_start_skips(s, i);
        let t = s.skip(i);
        lemma_trimmed_end_takes(t, j - i);
        assert(t.take(j - i) =~= s.subrange(i, j));
    }
}

/// What `trimmed` returns neither begins nor ends with whitespace, and is a
/// part of `s` with nothing but whitespace before and behind it.
pub proof fn lemma_trimmed_bounds(s: Seq<char>) -> (b: (int, int))
    ensures
        0 <= b.0 <= b.1 <= s.len(),
        trimmed(s) == s.subrange(b.0, b.1),
        forall|k: int| 0 <= k < b.0 ==> is_whitespace(#[trigger] s[k]),
        forall|k: int| b.1 <= k < s.len() ==> is_whitespace(#[trigger] s[k]),
        b.0 == b.1 || (!is_whitespace(s[b.0]) && !is_whitespace(s[b.1 - 1])),
    decreases s.len(),
{
    if s.len() == 0 {
        lemma_trimmed_is_subrange(s, 0, 0);
        (0, 0)
    } else if is_whitespace(s[0]) {
        let rest = s.drop_first();
        let r = lemma_trimmed_bounds(rest);
        let b = (r.0 + 1, r.1 + 1);
        assert forall|k: int| 0 <= k < b.0 implies is_whitespace(#[trigger] s[k]) by {
            if k > 0 {
                assert(s[k] == rest[k - 1]);
            }
        }
        assert forall|k: int| b.1 <= k < s.len() implies is_whitespace(#[trigger] s[k]) by {
            assert(s[k] == rest[k - 1]);
        }
        lemma_trimmed_is_subrange(s, b.0, b.1);
        b
    } else if is_whitespace(s.last()) {
        let rest = s.drop_last();
        let r = lemma_trimmed_bounds(rest);
        assert forall|k: int| r.1 <= k < s.len() implies is_whitespace(#[trigger] s[k]) by {
            if k < s.len() - 1 {
                assert(s[k] == rest[k]);
            }
        }
        assert forall|k: int| 0 <= k < r.0 implies is_whitespace(#[trigger] s[k]) by {
            assert(s[k] == rest[k]);
        }
        lemma_trimmed_is_subrange(s, r.0, r.1);
        r
    } else {
        lemma_trimmed_is_subrange(s, 0, s.len() as int);
        (0, s.len() as int)
    }
}

/// Trimming what is trimmed changes nothing.
pub proof fn lemma_trimmed_idempotent(s: Seq<char>)
    ensures
        trimmed(trimmed(s)) == trimmed(s),
{
    let t = trimmed(s);
    let b = lemma_trimmed_bounds(s);
    if t.len() > 0 {
        assert(t[0] == s[b.0]);
        assert(t[t.len() - 1] == s[b.1 - 1]);
    }
    lemma_trimmed_is_subrange(t, 0, t.len() as int);
    assert(t.subrange(0, t.len() as int) =~= t);
}

/// A sequence without whitespace is one token, or empty.
pub proof fn lemma_token_count_without_whitespace(s: Seq<char>)
    requires
        !has_whitespace(s),
    ensures
        token_count(s) == if s.len() == 0 { 0nat } else { 1nat },
    decreases s.len(),
{
    if s.len() > 0 {
        let rest = s.drop_last();
        assert forall|i: int| 0 <= i < rest.len() implies !is_whitespace(#[trigger] rest[i]) by {
            assert(rest[i] == s[i]);
        }
        lemma_token_count_without_whitespace(rest);
        assert(!is_whitespace(s[s.len() - 1]));
        if s.len() > 1 {
            assert(!is_whitespace(s[s.len() - 2]));
        }
    }
}

/// A sequence with a character that is no whitespace has a token.
pub proof fn lemma_token_count_positive(s: Seq<char>, i: int)
    requires
        0 <= i < s.len(),
        !is_whitespace(s[i]),
    ensures
        token_count(s) >= 1,
    decreases s.len(),
{
    let last = s.len() - 1;
    if !is_token_start(s, last) {
        let rest = s.drop_last();
        if i < last {
            assert(rest[i] == s[i]);
            lemma_token_count_positive(rest, i);
        } else {
            assert(rest[last - 1] == s[last - 1]);
            lemma_token_count_positive(rest, last - 1);
        }
    }
}

/// Behind a whitespace the count starts afresh: the tokens of `a + b` are
/// those of `a` and those of `b`, where `a` is empty or ends with whitespace.
pub proof fn lemma_token_count_concat(a: Seq<char>, b: Seq<char>)
    requires
        a.len() == 0 || is_whitespace(a.last()),
    ensures
        token_count(a + b) == token_count(a) + token_count(b),
    decreases b.len(),
{
    if b.len() == 0 {
        assert(a + b =~= a);
    } else {
        let s = a + b;
        let last = s.len() - 1;
        assert(s.drop_last() =~= a + b.drop_last());
        lemma_token_count_concat(a, b.drop_last());
        assert(s[last] == b[b.len() - 1]);
        if b.len() > 1 {
            assert(s[last - 1] == b[b.len() - 2]);
        } else if a.len() > 0 {
            assert(s[last - 1] == a.last());
        }
        assert(is_token_start(s, last) == is_token_start(b, b.len() - 1));
    }
}

/// A whitespace between two characters that are none parts two tokens.
pub proof fn lemma_token_count_split(s: Seq<char>, i: int, j: int, k: int)
    requires
        0 <= i < j < k < s.len(),
        !is_whitespace(s[i]),
        is_whitespace(s[j]),
        !is_whitespace(s[k]),
    ensures
        token_count(s) >= 2,
{
    let a = s.take(j + 1);
    let b = s.skip(j + 1);
    assert(s =~= a + b);
    assert(a.last() == s[j]);
    lemma_token_count_concat(a, b);
    assert(a[i] == s[i]);
    lemma_token_count_positive(a, i);
    assert(b[k - j - 1] == s[k]);
    lemma_token_count_positive(b, k - j - 1);
}

/// Whether `c` is a whitespace character.
pub fn char_is_whitespace(c: char) -> (b: bool)
    ensures
        b == is_whitespace(c),
{
    let n: u32 = c as u32;
    (0x09 <= n && n <= 0x0D) || n == 0x20 || n == 0x85 || n == 0xA0 || n == 0x1680 || (0x2000 <= n
        && n <= 0x200A) || n == 0x2028 || n == 0x2029 || n == 0x202F || n == 0x205F || n == 0x3000
}

/// The characters of `s`, in order.
pub fn chars_of(s: &str) -> (v: Vec<char>)
    ensures
        v@ == s@,
{
    let mut v: Vec<char> = Vec::new();
    for c in it: s.chars()
        invariant
            v@ == it.seq().take(it.index() as int),
            it.seq() == s@,
    {
        v.push(c);
    }
    v
}

/// The part of `s` between its leading and its trailing whitespace.
pub fn trim(s: &str) -> (t: &str)
    ensures
        t@ == trimmed(s@),
{
    let cs = chars_of(s);
    let n: usize = cs.len();
    let mut start: usize = 0;
    while start < n && char_is_whitespace(cs[start])
        invariant
            start <= n,
            n == cs.len(),
            forall|k: int| 0 <= k < start ==> is_whitespace(#[trigger] cs@[k]),
        decreases n - start,
    {
        start += 1;
    }
    let mut end: usize = n;
    while end > start && char_is_whitespace(cs[end - 1])
        invariant
            start <= end <= n,
            n == cs.len(),
            forall|k: int| end <= k < n ==> is_whitespace(#[trigger] cs@[k]),
        decreases end,
    {
        end -= 1;
    }
    proof {
        lemma_trimmed_is_subrange(s@, start as int, end as int);
    }
    s.substring_char(start, end)
}

/// The number of tokens that splitting `s` on whitespace yields.
pub fn count_tokens(s: &str) -> (n: usize)
    ensures
        n == token_count(s@),
{
    let cs = chars_of(s);
    let len: usize = cs.len();
    let mut count: usize = 0;
    let mut after_whitespace: bool = true;
    let mut i: usize = 0;
    while i < len
        invariant
            i <= len,
            len == cs.len(),
            count <= i,
            count == token_count(cs@.take(i as int)),
            after_whitespace == (i == 0 || is_whitespace(cs@[i - 1])),
        decreases len - i,
    {
        let here_whitespace = char_is_whitespace(cs[i]);
        proof {
            let next = cs@.take(i + 1);
            assert(next.drop_last() =~= cs@.take(i as int));
            assert(next[i as int] == cs@[i as int]);
            assert(i > 0 ==> next[i - 1] == cs@[i - 1]);
        }
        if !here_whitespace && after_whitespace {
            count += 1;
        }
        after_whitespace = here_whitespace;
        i += 1;
    }
    proof {
        assert(cs@.take(len as int) =~= cs@);
    }
    count
}

/// Whether `s` begins with `prefix`.
pub fn starts_with(s: &str, prefix: &str) -> (b: bool)
    ensures
        b == begins_with(s@, prefix@),
{
    let cs = chars_of(s);
    let ps = chars_of(prefix);
    if ps.len() > cs.len() {
        return false;
    }
    let mut i: usize = 0;
    while i < ps.len()
        invariant
            i <= ps.len() <= cs.len(),
            cs@ == s@,
            ps@ == prefix@,
            forall|k: int| 0 <= k < i ==> cs@[k] == ps@[k],
        decreases ps.len() - i,
    {
        if cs[i] != ps[i] {
            proof {
                assert(cs@.take(ps@.len() as int)[i as int] != ps@[i as int]);
            }
            return false;
        }
        i += 1;
    }
    proof {
        assert(cs@.take(ps@.len() as int) =~= ps@);
    }
    true
}

} // verus!
