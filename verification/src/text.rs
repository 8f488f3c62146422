//! Verified text utilities for the provisioning pass.
//!
//! The pass reads program output and configuration files as plain text:
//! toolchain and target listings are scanned line by line, probe output is
//! trimmed, version lines are cut at the first space. The functions here do
//! that work over `Seq<char>` models, so that every caller's contract can
//! say exactly which line, token or trimmed form it speaks of. Whitespace
//! means ASCII whitespace: space, tab, carriage return and line feed.

use vstd::prelude::*;

verus! {

/// ASCII whitespace: what trimming removes and what ends a token.
pub open spec fn is_space_char(c: char) -> bool {
    c == ' ' || c == '\t' || c == '\r' || c == '\n'
}

/// Executable form of [`is_space_char`].
pub fn char_is_space(c: char) -> (r: bool)
    ensures
        r == is_space_char(c),
{
    c == ' ' || c == '\t' || c == '\r' || c == '\n'
}

/// `s` without leading and trailing ASCII whitespace.
pub open spec fn trimmed(s: Seq<char>) -> Seq<char>
    decreases s.len(),
{
    if s.len() == 0 {
        s
    } else if is_space_char(s[0]) {
        trimmed(s.drop_first())
    } else if is_space_char(s.last()) {
        trimmed(s.drop_last())
    } else {
        s
    }
}

/// The trimmed form of `s` is the subrange between the first and the last
/// non-whitespace characters.
pub proof fn lemma_trimmed_is_subrange(s: Seq<char>, lo: int, hi: int)
    requires
        0 <= lo <= hi <= s.len(),
        forall|k: int| 0 <= k < lo ==> is_space_char(s[k]),
        forall|k: int| hi <= k < s.len() ==> is_space_char(s[k]),
        lo < hi ==> !is_space_char(s[lo]) && !is_space_char(s[hi - 1]),
    ensures
        trimmed(s) == s.subrange(lo, hi),
    decreases s.len(),
{
    if s.len() == 0 {
        assert(trimmed(s) =~= s.subrange(lo, hi));
    } else if is_space_char(s[0]) {
        if lo == 0 {
            // then hi == 0 as well: a non-empty trimmed part would start with
            // a non-whitespace character, but s[0] is whitespace
            lemma_trimmed_is_subrange(s.drop_first(), 0, 0);
            assert(trimmed(s) =~= s.subrange(lo, hi));
        } else {
            lemma_trimmed_is_subrange(s.drop_first(), lo - 1, hi - 1);
            assert(s.drop_first().subrange(lo - 1, hi - 1) =~= s.subrange(lo, hi));
        }
    } else if is_space_char(s.last()) {
        lemma_trimmed_is_subrange(s.drop_last(), lo, hi);
        assert(s.drop_last().subrange(lo, hi) =~= s.subrange(lo, hi));
    } else {
        assert(s.subrange(0, s.len() as int) =~= s);
    }
}

/// Removes leading and trailing ASCII whitespace.
pub fn trim_str(s: &str) -> (r: String)
    ensures
        r@ == trimmed(s@),
{
    let n = s.unicode_len();
    let mut lo: usize = 0;
    while lo < n && char_is_space(s.get_char(lo))
        invariant
            n == s@.len(),
            lo <= n,
            forall|k: int| 0 <= k < lo ==> is_space_char(s@[k]),
        decreases n - lo,
    {
        lo = lo + 1;
    }
    let mut hi: usize = n;
    while hi > lo && char_is_space(s.get_char(hi - 1))
        invariant
            n == s@.len(),
            lo <= hi <= n,
            forall|k: int| hi <= k < n ==> is_space_char(s@[k]),
        decreases hi,
    {
        hi = hi - 1;
    }
    proof {
        lemma_trimmed_is_subrange(s@, lo as int, hi as int);
    }
    s.substring_char(lo, hi).to_owned()
}

/// Position of the first line feed in `s`, or `s.len()` if there is none.
pub open spec fn first_newline(s: Seq<char>) -> nat
    decreases s.len(),
{
    if s.len() == 0 {
        0
    } else if s[0] == '\n' {
        0
    } else {
        1 + first_newline(s.drop_first())
    }
}

/// What [`first_newline`] returns: an index no larger than the length, with
/// no line feed before it, and a line feed at it unless it is the length.
pub proof fn lemma_first_newline(s: Seq<char>)
    ensures
        first_newline(s) <= s.len(),
        forall|j: int| 0 <= j < first_newline(s) ==> s[j] != '\n',
        first_newline(s) < s.len() ==> s[first_newline(s) as int] == '\n',
    decreases s.len(),
{
    if s.len() == 0 {
    } else if s[0] == '\n' {
    } else {
        lemma_first_newline(s.drop_first());
        assert forall|j: int| 0 <= j < first_newline(s) implies s[j] != '\n' by {
            if j > 0 {
                assert(s.drop_first()[j - 1] == s[j]);
            }
        }
        if first_newline(s) < s.len() {
            assert(s.drop_first()[first_newline(s) - 1] == s[first_newline(s) as int]);
        }
    }
}

/// An index with no line feed before it and a line feed at it (or the length)
/// is exactly [`first_newline`].
pub proof fn lemma_first_newline_at(s: Seq<char>, k: int)
    requires
        0 <= k <= s.len(),
        forall|j: int| 0 <= j < k ==> s[j] != '\n',
        k < s.len() ==> s[k] == '\n',
    ensures
        first_newline(s) == k,
    decreases s.len(),
{
    if s.len() == 0 {
    } else if s[0] == '\n' {
        assert(k == 0);
    } else {
        assert(k >= 1);
        assert forall|j: int| 0 <= j < k - 1 implies s.drop_first()[j] != '\n' by {
            assert(s.drop_first()[j] == s[j + 1]);
        }
        if k - 1 < s.drop_first().len() {
            assert(s.drop_first()[k - 1] == s[k]);
        }
        lemma_first_newline_at(s.drop_first(), k - 1);
    }
}

/// `s` cut at each line feed. The separators are not part of any line; a
/// trailing line feed yields a final empty line, and the empty text is one
/// empty line.
pub open spec fn split_lines_spec(s: Seq<char>) -> Seq<Seq<char>>
    decreases s.len(),
{
    let k = first_newline(s);
    if k >= s.len() {
        seq![s]
    } else {
        seq![s.subrange(0, k as int)] + split_lines_spec(
            s.subrange(k as int + 1, s.len() as int),
        )
    }
}

/// Splitting around a line feed splits each side on its own: the lines of
/// `a + "\n" + b` are the lines of `a` followed by the lines of `b`.
pub proof fn lemma_split_lines_append(a: Seq<char>, b: Seq<char>)
    ensures
        split_lines_spec(a + seq!['\n'] + b) == split_lines_spec(a) + split_lines_spec(b),
    decreases a.len(),
{
    let s = a + seq!['\n'] + b;
    lemma_first_newline(a);
    let k = first_newline(a);
    if k >= a.len() {
        lemma_first_newline_at(s, a.len() as int);
        assert(s.subrange(0, a.len() as int) =~= a);
        assert(s.subrange(a.len() as int + 1, s.len() as int) =~= b);
        assert(split_lines_spec(s) =~= split_lines_spec(a) + split_lines_spec(b));
    } else {
        lemma_first_newline_at(s, k as int);
        let a2 = a.subrange(k as int + 1, a.len() as int);
        assert(s.subrange(0, k as int) =~= a.subrange(0, k as int));
        assert(s.subrange(k as int + 1, s.len() as int) =~= a2 + seq!['\n'] + b);
        lemma_split_lines_append(a2, b);
        assert(split_lines_spec(s) =~= split_lines_spec(a) + split_lines_spec(b));
    }
}

/// The views of a sequence of owned strings.
pub open spec fn views_of(rs: Seq<String>) -> Seq<Seq<char>> {
    Seq::new(rs.len(), |i: int| rs[i]@)
}

/// Splits `s` at each line feed, as [`split_lines_spec`] describes.
pub fn split_lines(s: &str) -> (r: Vec<String>)
    ensures
        r@.len() == split_lines_spec(s@).len(),
        forall|i: int| 0 <= i < r@.len() ==> r@[i]@ == split_lines_spec(s@)[i],
{
    let n = s.unicode_len();
    let mut r: Vec<String> = Vec::new();
    let mut ls: usize = 0;
    let mut i: usize = 0;
    proof {
        assert(s@.subrange(0, n as int) =~= s@);
        assert(views_of(r@) + split_lines_spec(s@) =~= split_lines_spec(s@));
    }
    while i < n
        invariant
            n == s@.len(),
            0 <= ls <= i <= n,
            forall|j: int| ls <= j < i ==> s@[j] != '\n',
            split_lines_spec(s@) == views_of(r@) + split_lines_spec(
                s@.subrange(ls as int, n as int),
            ),
        decreases n - i,
    {
        if s.get_char(i) == '\n' {
            let line = s.substring_char(ls, i).to_owned();
            proof {
                let tail = s@.subrange(ls as int, n as int);
                lemma_first_newline_at(tail, i - ls);
                assert(tail.subrange(0, i - ls) =~= s@.subrange(ls as int, i as int));
                assert(tail.subrange(i - ls + 1, tail.len() as int) =~= s@.subrange(
                    i as int + 1,
                    n as int,
                ));
            }
            let ghost r_before = r@;
            r.push(line);
            proof {
                assert(views_of(r@) =~= views_of(r_before) + seq![s@.subrange(
                    ls as int,
                    i as int,
                )]);
                assert(split_lines_spec(s@) == views_of(r@) + split_lines_spec(
                    s@.subrange(i as int + 1, n as int),
                ));
            }
            ls = i + 1;
        }
        i = i + 1;
    }
    let line = s.substring_char(ls, n).to_owned();
    proof {
        let tail = s@.subrange(ls as int, n as int);
        lemma_first_newline_at(tail, tail.len() as int);
    }
    let ghost r_before = r@;
    r.push(line);
    proof {
        assert(views_of(r@) =~= views_of(r_before) + seq![s@.subrange(ls as int, n as int)]);
        assert(split_lines_spec(s@) =~= views_of(r@));
        assert forall|j: int| 0 <= j < r@.len() implies r@[j]@ == split_lines_spec(s@)[j] by {
            assert(views_of(r@)[j] == r@[j]@);
        }
    }
    r
}

/// Some line of `s` equals `t` once trimmed.
pub open spec fn has_trimmed_line(s: Seq<char>, t: Seq<char>) -> bool {
    exists|i: int|
        0 <= i < split_lines_spec(s).len() && trimmed(split_lines_spec(s)[i]) == t
}

/// Whether some line of `s`, trimmed, equals `t`.
pub fn contains_trimmed_line(s: &str, t: &str) -> (r: bool)
    ensures
        r == has_trimmed_line(s@, t@),
{
    let lines = split_lines(s);
    let target = t.to_owned();
    let n = lines.len();
    let mut i: usize = 0;
    let mut found = false;
    while i < n
        invariant
            n == lines@.len(),
            lines@.len() == split_lines_spec(s@).len(),
            forall|j: int| 0 <= j < lines@.len() ==> lines@[j]@ == split_lines_spec(s@)[j],
            target@ == t@,
            i <= n,
            found == exists|j: int| 0 <= j < i && trimmed(split_lines_spec(s@)[j]) == t@,
        decreases n - i,
    {
        let lt = trim_str(lines[i].as_str());
        proof {
            assert(lines@[i as int]@ == split_lines_spec(s@)[i as int]);
        }
        if lt == target {
            found = true;
            proof {
                assert(trimmed(split_lines_spec(s@)[i as int]) == t@);
            }
        } else {
            proof {
                assert(trimmed(split_lines_spec(s@)[i as int]) != t@);
            }
        }
        i = i + 1;
    }
    found
}

/// How many of the given lines equal `t` once trimmed.
pub open spec fn count_matching(lines: Seq<Seq<char>>, t: Seq<char>) -> nat
    decreases lines.len(),
{
    if lines.len() == 0 {
        0
    } else {
        (if trimmed(lines[0]) == t {
            1nat
        } else {
            0nat
        }) + count_matching(lines.drop_first(), t)
    }
}

/// Counting matching lines distributes over concatenation.
pub proof fn lemma_count_matching_add(a: Seq<Seq<char>>, b: Seq<Seq<char>>, t: Seq<char>)
    ensures
        count_matching(a + b, t) == count_matching(a, t) + count_matching(b, t),
    decreases a.len(),
{
    if a.len() == 0 {
        assert(a + b =~= b);
    } else {
        assert((a + b).drop_first() =~= a.drop_first() + b);
        lemma_count_matching_add(a.drop_first(), b, t);
    }
}

/// Some line matches exactly when the count of matching lines is positive.
pub proof fn lemma_count_matching_positive(lines: Seq<Seq<char>>, t: Seq<char>)
    ensures
        (exists|i: int| 0 <= i < lines.len() && trimmed(lines[i]) == t) <==> count_matching(
            lines,
            t,
        ) > 0,
    decreases lines.len(),
{
    if lines.len() == 0 {
    } else {
        lemma_count_matching_positive(lines.drop_first(), t);
        if trimmed(lines[0]) == t {
        } else {
            if exists|i: int| 0 <= i < lines.len() && trimmed(lines[i]) == t {
                let i = choose|i: int| 0 <= i < lines.len() && trimmed(lines[i]) == t;
                assert(i >= 1);
                assert(lines.drop_first()[i - 1] == lines[i]);
                assert(trimmed(lines.drop_first()[i - 1]) == t);
            }
            if count_matching(lines, t) > 0 {
                let j = choose|j: int|
                    0 <= j < lines.drop_first().len() && trimmed(lines.drop_first()[j]) == t;
                assert(lines[j + 1] == lines.drop_first()[j]);
                assert(trimmed(lines[j + 1]) == t);
            }
        }
    }
}

/// The first whitespace-separated token of `s`: its longest prefix without
/// whitespace.
pub open spec fn first_token(s: Seq<char>) -> Seq<char>
    decreases s.len(),
{
    if s.len() == 0 {
        s
    } else if is_space_char(s[0]) {
        Seq::empty()
    } else {
        seq![s[0]] + first_token(s.drop_first())
    }
}

/// The first token is the prefix that ends at the first whitespace character.
proof fn lemma_first_token_is_prefix(s: Seq<char>, k: int)
    requires
        0 <= k <= s.len(),
        forall|j: int| 0 <= j < k ==> !is_space_char(s[j]),
        k < s.len() ==> is_space_char(s[k]),
    ensures
        first_token(s) == s.subrange(0, k),
    decreases s.len(),
{
    if s.len() == 0 {
        assert(first_token(s) =~= s.subrange(0, k));
    } else if is_space_char(s[0]) {
        assert(k == 0);
        assert(first_token(s) =~= s.subrange(0, 0));
    } else {
        assert(k >= 1);
        assert forall|j: int| 0 <= j < k - 1 implies !is_space_char(s.drop_first()[j]) by {
            assert(s.drop_first()[j] == s[j + 1]);
        }
        if k - 1 < s.drop_first().len() {
            assert(s.drop_first()[k - 1] == s[k]);
        }
        lemma_first_token_is_prefix(s.drop_first(), k - 1);
        assert(seq![s[0]] + s.drop_first().subrange(0, k - 1) =~= s.subrange(0, k));
    }
}

/// What follows the first token of `s`, the separator included.
pub open spec fn after_token(s: Seq<char>) -> Seq<char> {
    s.subrange(first_token(s).len() as int, s.len() as int)
}

/// The first whitespace-separated token of `s`.
pub fn first_token_str(s: &str) -> (r: String)
    ensures
        r@ == first_token(s@),
{
    let n = s.unicode_len();
    let mut k: usize = 0;
    while k < n && !char_is_space(s.get_char(k))
        invariant
            n == s@.len(),
            k <= n,
            forall|j: int| 0 <= j < k ==> !is_space_char(s@[j]),
        decreases n - k,
    {
        k = k + 1;
    }
    proof {
        lemma_first_token_is_prefix(s@, k as int);
    }
    s.substring_char(0, k).to_owned()
}

/// What follows the first whitespace-separated token of `s`.
pub fn after_token_str(s: &str) -> (r: String)
    ensures
        r@ == after_token(s@),
{
    let n = s.unicode_len();
    let mut k: usize = 0;
    while k < n && !char_is_space(s.get_char(k))
        invariant
            n == s@.len(),
            k <= n,
            forall|j: int| 0 <= j < k ==> !is_space_char(s@[j]),
        decreases n - k,
    {
        k = k + 1;
    }
    proof {
        lemma_first_token_is_prefix(s@, k as int);
        assert(first_token(s@).len() == k);
    }
    s.substring_char(k, n).to_owned()
}

/// The first line of `s`: everything before the first line feed, or all of
/// `s` if there is none.
pub open spec fn first_line(s: Seq<char>) -> Seq<char> {
    s.subrange(0, first_newline(s) as int)
}

/// The first line of `s`.
pub fn first_line_str(s: &str) -> (r: String)
    ensures
        r@ == first_line(s@),
{
    let n = s.unicode_len();
    let mut k: usize = 0;
    while k < n && s.get_char(k) != '\n'
        invariant
            n == s@.len(),
            k <= n,
            forall|j: int| 0 <= j < k ==> s@[j] != '\n',
        decreases n - k,
    {
        k = k + 1;
    }
    proof {
        lemma_first_newline_at(s@, k as int);
    }
    s.substring_char(0, k).to_owned()
}

} // verus!
