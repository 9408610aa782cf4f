use vstd::prelude::*;
use vstd::string::StrSliceExecFns;

verus! {

/// A URL template marks the spot for the query with the two characters `{}`.
pub open spec fn occurs_at(s: Seq<char>, i: int) -> bool {
    &&& 0 <= i
    &&& i + 2 <= s.len()
    &&& s[i] == '{'
    &&& s[i + 1] == '}'
}

/// How many positions at or after `i` start a placeholder. Two occurrences
/// can never overlap, since the placeholder's two characters differ.
pub open spec fn count_from(s: Seq<char>, i: int) -> nat
    decreases s.len() - i,
{
    if i + 2 > s.len() {
        0
    } else {
        (if occurs_at(s, i) {
            1nat
        } else {
            0nat
        }) + count_from(s, i + 1)
    }
}

/// The number of placeholder occurrences in a template.
pub open spec fn placeholder_count(s: Seq<char>) -> nat {
    count_from(s, 0)
}

/// The first position at or after `i` that starts a placeholder, or -1.
pub open spec fn first_at_from(s: Seq<char>, i: int) -> int
    decreases s.len() - i,
{
    if i + 2 > s.len() {
        -1
    } else if occurs_at(s, i) {
        i
    } else {
        first_at_from(s, i + 1)
    }
}

/// The first position of the placeholder in a template, or -1 if it has none.
pub open spec fn first_placeholder(s: Seq<char>) -> int {
    first_at_from(s, 0)
}

/// The template with its first placeholder replaced by `enc`. This is the
/// meaning of substitution for templates that hold exactly one placeholder.
pub open spec fn substituted(t: Seq<char>, enc: Seq<char>) -> Seq<char> {
    let i = first_placeholder(t);
    t.subrange(0, i) + enc + t.subrange(i + 2, t.len() as int)
}

/// A region with no occurrence contributes nothing to the count.
proof fn lemma_count_zero(s: Seq<char>, i: int)
    requires
        forall|j: int| i <= j ==> !occurs_at(s, j),
    ensures
        count_from(s, i) == 0,
    decreases s.len() - i,
{
    if i + 2 <= s.len() {
        lemma_count_zero(s, i + 1);
    }
}

/// Counting from earlier in the template never counts less.
proof fn lemma_count_mono(s: Seq<char>, i: int, j: int)
    requires
        i <= j,
    ensures
        count_from(s, i) >= count_from(s, j),
    decreases j - i,
{
    if i < j {
        lemma_count_mono(s, i + 1, j);
    }
}

/// Two distinct occurrences make the whole count at least two.
proof fn lemma_two_occurrences(s: Seq<char>, j: int, k: int)
    requires
        occurs_at(s, j),
        occurs_at(s, k),
        j < k,
    ensures
        count_from(s, 0) >= 2,
{
    lemma_count_mono(s, 0, j);
    lemma_count_mono(s, j + 1, k);
    assert(count_from(s, j) == 1 + count_from(s, j + 1));
    assert(count_from(s, k) == 1 + count_from(s, k + 1));
}

/// Nothing occurs strictly before the first occurrence.
proof fn lemma_first_from_least(s: Seq<char>, i: int, j: int)
    requires
        i <= j < first_at_from(s, i),
    ensures
        !occurs_at(s, j),
    decreases j - i,
{
    if i < j {
        lemma_first_from_least(s, i + 1, j);
    }
}

/// Substituting an encoded query that is nonempty and free of brace
/// characters into a template with exactly one placeholder leaves no
/// placeholder behind.
pub proof fn lemma_no_leftover_placeholder(t: Seq<char>, enc: Seq<char>)
    requires
        placeholder_count(t) == 1,
        enc.len() > 0,
        forall|k: int| 0 <= k < enc.len() ==> enc[k] != '{' && enc[k] != '}',
    ensures
        placeholder_count(substituted(t, enc)) == 0,
{
    lemma_count_pos_first(t, 0);
    let pl = first_placeholder(t);
    let el = enc.len() as int;
    let tl = t.len() as int;
    let r = substituted(t, enc);
    assert forall|j: int| 0 <= j implies !occurs_at(r, j) by {
        if occurs_at(r, j) {
            if j < pl - 1 {
                assert(r[j] == t[j]);
                assert(r[j + 1] == t[j + 1]);
                lemma_first_from_least(t, 0, j);
            } else if j == pl - 1 {
                assert(r[j + 1] == enc[0]);
            } else if j < pl + el {
                assert(r[j] == enc[j - pl]);
            } else {
                assert(r[j] == t[j - el + 2]);
                assert(r[j + 1] == t[j - el + 3]);
                assert(occurs_at(t, j - el + 2));
                lemma_two_occurrences(t, pl, j - el + 2);
            }
        }
    }
    lemma_count_zero(r, 0);
}

/// A positive count means a first occurrence exists.
pub proof fn lemma_count_pos_first(s: Seq<char>, i: int)
    requires
        count_from(s, i) > 0,
    ensures
        first_at_from(s, i) >= i,
        occurs_at(s, first_at_from(s, i)),
    decreases s.len() - i,
{
    if i + 2 <= s.len() && !occurs_at(s, i) {
        lemma_count_pos_first(s, i + 1);
    }
}

/// Count the placeholder occurrences in a template.
pub fn count_placeholders(s: &str) -> (c: usize)
    ensures
        c == placeholder_count(s@),
{
    let n = s.unicode_len();
    let mut i: usize = 0;
    let mut c: usize = 0;
    while n >= 2 && i <= n - 2
        invariant
            i <= n,
            n == s@.len(),
            c <= i,
            placeholder_count(s@) == c + count_from(s@, i as int),
        decreases n - i,
    {
        if s.get_char(i) == '{' && s.get_char(i + 1) == '}' {
            c = c + 1;
        }
        i = i + 1;
    }
    c
}

/// Find the first placeholder occurrence in a template, if any.
pub fn find_placeholder(s: &str) -> (r: Option<usize>)
    ensures
        match r {
            Some(i) => i == first_placeholder(s@),
            None => first_placeholder(s@) == -1,
        },
{
    let n = s.unicode_len();
    let mut i: usize = 0;
    while n >= 2 && i <= n - 2
        invariant
            i <= n,
            n == s@.len(),
            first_placeholder(s@) == first_at_from(s@, i as int),
        decreases n - i,
    {
        if s.get_char(i) == '{' && s.get_char(i + 1) == '}' {
            return Some(i);
        }
        i = i + 1;
    }
    None
}

} // verus!
