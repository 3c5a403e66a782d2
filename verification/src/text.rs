//! Text as sequences of characters.
//!
//! Everything the crate says about strings is said over `Seq<char>`. The specification functions
//! here fix the vocabulary (trimming, lines, splitting, replacing, decimal numbers); the
//! executable functions compute them on character slices.

use vstd::prelude::*;

verus! {

/// `String::push` appends one character at the end of the string.
pub assume_specification[ String::push ](s: &mut String, c: char)
    ensures
        final(s)@ == old(s)@.push(c),
;

/// `char::is_whitespace` is the Unicode `White_Space` property, written out.
pub assume_specification[ char::is_whitespace ](c: char) -> (r: bool)
    ensures
        r == is_white(c),
;

/// The characters with the Unicode `White_Space` property.
pub open spec fn is_white(c: char) -> bool {
    let n = c as u32;
    ||| 0x09 <= n <= 0x0d
    ||| n == 0x20
    ||| n == 0x85
    ||| n == 0xa0
    ||| n == 0x1680
    ||| 0x2000 <= n <= 0x200a
    ||| n == 0x2028
    ||| n == 0x2029
    ||| n == 0x202f
    ||| n == 0x205f
    ||| n == 0x3000
}

/// `s` without its leading white space.
pub open spec fn trim_start(s: Seq<char>) -> Seq<char>
    decreases s.len(),
{
    if s.len() > 0 && is_white(s[0]) {
        trim_start(s.skip(1))
    } else {
        s
    }
}

/// `s` without its trailing white space.
pub open spec fn trim_end(s: Seq<char>) -> Seq<char>
    decreases s.len(),
{
    if s.len() > 0 && is_white(s.last()) {
        trim_end(s.drop_last())
    } else {
        s
    }
}

/// `s` without white space at either end.
pub open spec fn trim(s: Seq<char>) -> Seq<char> {
    trim_end(trim_start(s))
}

/// Position of the first `c` in `s`; the length of `s` when there is none.
pub open spec fn find(s: Seq<char>, c: char) -> int
    decreases s.len(),
{
    if s.len() == 0 || s[0] == c {
        0
    } else {
        1 + find(s.skip(1), c)
    }
}

/// The text before and after the first `c`.
pub open spec fn split_once(s: Seq<char>, c: char) -> Option<(Seq<char>, Seq<char>)> {
    let i = find(s, c);
    if i < s.len() {
        Some((s.take(i), s.skip(i + 1)))
    } else {
        None
    }
}

/// A line without the carriage return of a CR LF line ending.
pub open spec fn strip_cr(s: Seq<char>) -> Seq<char> {
    if s.len() > 0 && s.last() == '\r' {
        s.drop_last()
    } else {
        s
    }
}

/// The lines of a text: cut after every newline, without the line endings. A last line that is
/// not ended by a newline counts if it is not empty, and keeps a carriage return.
pub open spec fn lines(s: Seq<char>) -> Seq<Seq<char>>
    decreases s.len(),
    via lines_decreases
{
    let i = find(s, '\n');
    if s.len() == 0 {
        Seq::empty()
    } else if i < s.len() {
        seq![strip_cr(s.take(i))] + lines(s.skip(i + 1))
    } else {
        seq![s]
    }
}

#[via_fn]
proof fn lines_decreases(s: Seq<char>) {
    lemma_find(s, '\n');
}

/// Every line followed by a newline.
pub open spec fn unlines(ls: Seq<Seq<char>>) -> Seq<char>
    decreases ls.len(),
{
    if ls.len() == 0 {
        Seq::empty()
    } else {
        unlines(ls.drop_last()) + ls.last().push('\n')
    }
}

/// `s` with every occurrence of `pat`, taken from the left without overlap, replaced by `to`.
pub open spec fn replace(s: Seq<char>, pat: Seq<char>, to: Seq<char>) -> Seq<char>
    recommends
        pat.len() > 0,
    decreases s.len(),
{
    if pat.len() == 0 || s.len() < pat.len() {
        s
    } else if s.take(pat.len() as int) == pat {
        to + replace(s.skip(pat.len() as int), pat, to)
    } else {
        seq![s[0]] + replace(s.skip(1), pat, to)
    }
}

/// `pat` occurs in `s` at position `i`.
pub open spec fn occurs_at(s: Seq<char>, pat: Seq<char>, i: int) -> bool {
    0 <= i <= s.len() - pat.len() && s.subrange(i, i + pat.len()) == pat
}

/// `pat` occurs somewhere in `s`.
pub open spec fn occurs(s: Seq<char>, pat: Seq<char>) -> bool {
    exists|i: int| occurs_at(s, pat, i)
}

/// The pieces of `s` between the separators `c`: one more than there are separators.
pub open spec fn split(s: Seq<char>, c: char) -> Seq<Seq<char>>
    decreases s.len(),
    via split_decreases
{
    let i = find(s, c);
    if i < s.len() {
        seq![s.take(i)] + split(s.skip(i + 1), c)
    } else {
        seq![s]
    }
}

#[via_fn]
proof fn split_decreases(s: Seq<char>, c: char) {
    lemma_find(s, c);
}

/// The pieces with `sep` between them.
pub open spec fn join(pieces: Seq<Seq<char>>, sep: Seq<char>) -> Seq<char>
    decreases pieces.len(),
{
    if pieces.len() == 0 {
        seq![]
    } else if pieces.len() == 1 {
        pieces[0]
    } else {
        join(pieces.drop_last(), sep) + sep + pieces.last()
    }
}

/// The lower-case form of an ASCII letter; any other character unchanged.
pub open spec fn ascii_lower(c: char) -> char {
    if 'A' <= c <= 'Z' {
        (c as u32 + 32) as char
    } else {
        c
    }
}

/// Equal up to the case of ASCII letters.
pub open spec fn eq_ignore_case(a: Seq<char>, b: Seq<char>) -> bool {
    &&& a.len() == b.len()
    &&& forall|i: int| 0 <= i < a.len() ==> ascii_lower(#[trigger] a[i]) == ascii_lower(b[i])
}

/// The decimal digit with value `d`.
pub open spec fn digit(d: nat) -> char {
    (d + 48) as char
}

/// `n` in decimal notation, without leading zeros.
pub open spec fn decimal(n: nat) -> Seq<char>
    decreases n,
{
    if n < 10 {
        seq![digit(n)]
    } else {
        decimal(n / 10).push(digit(n % 10))
    }
}

pub proof fn lemma_find(s: Seq<char>, c: char)
    ensures
        0 <= find(s, c) <= s.len(),
        find(s, c) < s.len() ==> s[find(s, c)] == c,
        forall|j: int| 0 <= j < find(s, c) ==> s[j] != c,
    decreases s.len(),
{
    if s.len() > 0 && s[0] != c {
        lemma_find(s.skip(1), c);
        assert forall|j: int| 0 <= j < find(s, c) implies s[j] != c by {
            if j > 0 {
                assert(s.skip(1)[j - 1] == s[j]);
            }
        }
    }
}

/// The first position is the only one with no earlier occurrence.
pub proof fn lemma_find_unique(s: Seq<char>, c: char, i: int)
    requires
        0 <= i <= s.len(),
        i < s.len() ==> s[i] == c,
        forall|j: int| 0 <= j < i ==> s[j] != c,
    ensures
        find(s, c) == i,
{
    lemma_find(s, c);
}

pub proof fn lemma_trim_start(s: Seq<char>)
    ensures
        trim_start(s).len() <= s.len(),
        trim_start(s) == s.skip(s.len() - trim_start(s).len()),
        trim_start(s).len() > 0 ==> !is_white(trim_start(s)[0]),
        forall|j: int| 0 <= j < s.len() - trim_start(s).len() ==> is_white(#[trigger] s[j]),
    decreases s.len(),
{
    if s.len() > 0 && is_white(s[0]) {
        lemma_trim_start(s.skip(1));
        let k = s.len() - trim_start(s).len();
        assert(s.skip(1).skip(k - 1) =~= s.skip(k));
        assert forall|j: int| 0 <= j < k implies is_white(#[trigger] s[j]) by {
            if j > 0 {
                assert(s.skip(1)[j - 1] == s[j]);
            }
        }
    } else {
        assert(s.skip(0) =~= s);
    }
}

pub proof fn lemma_trim_end(s: Seq<char>)
    ensures
        trim_end(s).len() <= s.len(),
        trim_end(s) == s.take(trim_end(s).len() as int),
        trim_end(s).len() > 0 ==> !is_white(trim_end(s).last()),
        forall|j: int| trim_end(s).len() <= j < s.len() ==> is_white(#[trigger] s[j]),
    decreases s.len(),
{
    if s.len() > 0 && is_white(s.last()) {
        lemma_trim_end(s.drop_last());
        let k = trim_end(s).len() as int;
        assert(s.drop_last().take(k) =~= s.take(k));
        assert forall|j: int| k <= j < s.len() implies is_white(#[trigger] s[j]) by {
            if j < s.len() - 1 {
                assert(s.drop_last()[j] == s[j]);
            }
        }
    } else {
        assert(s.take(s.len() as int) =~= s);
    }
}

/// What `trim_start` returns, recognised by its ends.
pub proof fn lemma_trim_start_unique(s: Seq<char>, k: int)
    requires
        0 <= k <= s.len(),
        forall|j: int| 0 <= j < k ==> is_white(#[trigger] s[j]),
        k < s.len() ==> !is_white(s[k]),
    ensures
        trim_start(s) == s.skip(k),
{
    lemma_trim_start(s);
    let m = s.len() - trim_start(s).len();
    if m < k {
        assert(trim_start(s)[0] == s[m]);
    }
}

/// What `trim_end` returns, recognised by its ends.
pub proof fn lemma_trim_end_unique(s: Seq<char>, k: int)
    requires
        0 <= k <= s.len(),
        forall|j: int| k <= j < s.len() ==> is_white(#[trigger] s[j]),
        k > 0 ==> !is_white(s[k - 1]),
    ensures
        trim_end(s) == s.take(k),
{
    lemma_trim_end(s);
    let m = trim_end(s).len() as int;
    if m > k {
        assert(trim_end(s).last() == s[m - 1]);
    }
}

/// What `trim` returns, recognised by its ends.
pub proof fn lemma_trim_unique(s: Seq<char>, a: int, b: int)
    requires
        0 <= a < b <= s.len(),
        forall|j: int| 0 <= j < a ==> is_white(#[trigger] s[j]),
        forall|j: int| b <= j < s.len() ==> is_white(#[trigger] s[j]),
        !is_white(s[a]),
        !is_white(s[b - 1]),
    ensures
        trim(s) == s.subrange(a, b),
        trim_end(s) == s.take(b),
{
    lemma_trim_start_unique(s, a);
    let t = s.skip(a);
    assert forall|j: int| b - a <= j < t.len() implies is_white(#[trigger] t[j]) by {
        assert(t[j] == s[j + a]);
    }
    lemma_trim_end_unique(t, b - a);
    assert(t.take(b - a) =~= s.subrange(a, b));
    lemma_trim_end_unique(s, b);
}

/// White space all through is trimmed away.
pub proof fn lemma_trim_white(s: Seq<char>)
    requires
        forall|j: int| 0 <= j < s.len() ==> is_white(#[trigger] s[j]),
    ensures
        trim(s) == Seq::<char>::empty(),
        trim_end(s) == Seq::<char>::empty(),
{
    lemma_trim_start_unique(s, s.len() as int);
    lemma_trim_end_unique(s, 0);
    assert(s.skip(s.len() as int) =~= Seq::<char>::empty());
    assert(s.take(0) =~= Seq::<char>::empty());
}

/// Either a text is white space all through, or it has a first and a last character that is not.
pub proof fn lemma_trim_ends(s: Seq<char>) -> (r: (int, int))
    ensures
        0 <= r.0 <= r.1 <= s.len(),
        forall|j: int| 0 <= j < r.0 ==> is_white(#[trigger] s[j]),
        forall|j: int| r.1 <= j < s.len() ==> is_white(#[trigger] s[j]),
        r.0 < r.1 ==> !is_white(s[r.0]) && !is_white(s[r.1 - 1]),
        trim(s) == s.subrange(r.0, r.1),
        r.0 < r.1 ==> trim_end(s) == s.take(r.1),
        r.0 == r.1 ==> trim_end(s) == Seq::<char>::empty(),
{
    lemma_trim_start(s);
    lemma_trim_end(s);
    let a = s.len() - trim_start(s).len();
    let b = trim_end(s).len() as int;
    if a < s.len() {
        assert(trim_start(s)[0] == s[a]);
        assert(b > a);
        assert(trim_end(s).last() == s[b - 1]);
        lemma_trim_unique(s, a, b);
        (a, b)
    } else {
        lemma_trim_white(s);
        assert(s.subrange(a, a) =~= Seq::<char>::empty());
        (a, a)
    }
}

/// Trimming the end first changes nothing.
pub proof fn lemma_trim_of_trim_end(s: Seq<char>)
    ensures
        trim(trim_end(s)) == trim(s),
        trim_end(trim_end(s)) == trim_end(s),
{
    let (a, b) = lemma_trim_ends(s);
    if a < b {
        let t = trim_end(s);
        assert forall|j: int| 0 <= j < a implies is_white(#[trigger] t[j]) by {
            assert(t[j] == s[j]);
        }
        lemma_trim_unique(t, a, b);
        assert(t.subrange(a, b) =~= s.subrange(a, b));
        assert(t.take(b) =~= t);
    } else {
        assert(s.subrange(a, b) =~= Seq::<char>::empty());
        lemma_trim_white(Seq::empty());
    }
}

/// Leading white space does not matter to `trim`.
pub proof fn lemma_trim_skip_white(s: Seq<char>, a: int)
    requires
        0 <= a <= s.len(),
        forall|j: int| 0 <= j < a ==> is_white(#[trigger] s[j]),
    ensures
        trim(s.skip(a)) == trim(s),
{
    let (x, y) = lemma_trim_ends(s);
    let t = s.skip(a);
    if x < y {
        assert(a <= x);
        assert forall|j: int| 0 <= j < x - a implies is_white(#[trigger] t[j]) by {
            assert(t[j] == s[j + a]);
        }
        assert forall|j: int| y - a <= j < t.len() implies is_white(#[trigger] t[j]) by {
            assert(t[j] == s[j + a]);
        }
        lemma_trim_unique(t, x - a, y - a);
        assert(t.subrange(x - a, y - a) =~= s.subrange(x, y));
    } else {
        assert(s.subrange(x, y) =~= Seq::<char>::empty());
        assert forall|j: int| 0 <= j < t.len() implies is_white(#[trigger] t[j]) by {
            assert(t[j] == s[j + a]);
        }
        lemma_trim_white(t);
    }
}

/// No line holds a newline.
pub proof fn lemma_lines_have_no_newline(s: Seq<char>)
    ensures
        forall|i: int, j: int|
            0 <= i < lines(s).len() && 0 <= j < lines(s)[i].len() ==> #[trigger] lines(s)[i][j]
                != '\n',
    decreases s.len(),
{
    let n = find(s, '\n');
    lemma_find(s, '\n');
    if s.len() > 0 && n < s.len() {
        let rest = lines(s.skip(n + 1));
        lemma_lines_have_no_newline(s.skip(n + 1));
        assert forall|i: int, j: int|
            0 <= i < lines(s).len() && 0 <= j < lines(s)[i].len() implies #[trigger] lines(s)[i][j]
            != '\n' by {
            if i > 0 {
                assert(lines(s)[i] == rest[i - 1]);
                assert(rest[i - 1][j] != '\n');
            }
        }
    }
}

/// Joining lines, taken from the front.
pub proof fn lemma_unlines_front(ls: Seq<Seq<char>>)
    requires
        ls.len() > 0,
    ensures
        unlines(ls) == ls[0].push('\n') + unlines(ls.skip(1)),
    decreases ls.len(),
{
    if ls.len() == 1 {
        assert(ls.drop_last() =~= Seq::<Seq<char>>::empty());
        assert(ls.skip(1) =~= Seq::<Seq<char>>::empty());
        assert(unlines(ls) =~= ls[0].push('\n') + unlines(ls.skip(1)));
    } else {
        lemma_unlines_front(ls.drop_last());
        assert(ls.drop_last().skip(1) =~= ls.skip(1).drop_last());
        assert(unlines(ls) =~= ls[0].push('\n') + unlines(ls.skip(1)));
    }
}

/// Lines joined in two parts.
pub proof fn lemma_unlines_concat(a: Seq<Seq<char>>, b: Seq<Seq<char>>)
    ensures
        unlines(a + b) == unlines(a) + unlines(b),
        a.len() > 0 ==> unlines(a).len() > 0 && unlines(a).last() == '\n',
    decreases b.len(),
{
    if b.len() == 0 {
        assert(a + b =~= a);
        assert(unlines(a) + unlines(b) =~= unlines(a));
    } else {
        lemma_unlines_concat(a, b.drop_last());
        assert((a + b).drop_last() =~= a + b.drop_last());
        assert(unlines(a + b) =~= unlines(a) + unlines(b));
    }
}

/// Lines joined around one line.
pub proof fn lemma_unlines_around(a: Seq<Seq<char>>, line: Seq<char>, b: Seq<Seq<char>>)
    ensures
        unlines(a + seq![line] + b) == unlines(a) + line.push('\n') + unlines(b),
{
    lemma_unlines_concat(a + seq![line], b);
    assert((a + seq![line]).drop_last() =~= a);
    assert((a + seq![line]).last() == line);
}

/// Cutting joined lines gives the lines back, but for a carriage return at the end of one.
pub proof fn lemma_lines_of_unlines(ls: Seq<Seq<char>>)
    requires
        forall|i: int, j: int|
            0 <= i < ls.len() && 0 <= j < ls[i].len() ==> #[trigger] ls[i][j] != '\n',
    ensures
        lines(unlines(ls)) == ls.map_values(|l: Seq<char>| strip_cr(l)),
    decreases ls.len(),
{
    let f = |l: Seq<char>| strip_cr(l);
    if ls.len() == 0 {
        assert(lines(unlines(ls)) =~= ls.map_values(f));
    } else {
        let s = unlines(ls);
        let n = ls[0].len() as int;
        lemma_unlines_front(ls);
        let rest = ls.skip(1);
        assert forall|i: int, j: int|
            0 <= i < rest.len() && 0 <= j < rest[i].len() implies #[trigger] rest[i][j]
            != '\n' by {
            assert(rest[i] == ls[i + 1]);
            assert(ls[i + 1][j] != '\n');
        }
        lemma_lines_of_unlines(rest);
        assert forall|j: int| 0 <= j < n implies s[j] != '\n' by {
            assert(s[j] == ls[0][j]);
        }
        lemma_find_unique(s, '\n', n);
        assert(s.take(n) =~= ls[0]);
        assert(s.skip(n + 1) =~= unlines(rest));
        assert(ls.map_values(f) =~= seq![strip_cr(ls[0])] + rest.map_values(f));
    }
}

/// Where something is replaced, the replacement occurs.
pub proof fn lemma_replacement_occurs(s: Seq<char>, pat: Seq<char>, to: Seq<char>)
    requires
        pat.len() > 0,
        occurs(s, pat),
    ensures
        occurs(replace(s, pat, to), to),
    decreases s.len(),
{
    let i = choose|i: int| occurs_at(s, pat, i);
    let out = replace(s, pat, to);
    if s.take(pat.len() as int) == pat {
        assert(out.subrange(0, to.len() as int) =~= to);
        assert(occurs_at(out, to, 0));
    } else {
        assert(i > 0) by {
            if i == 0 {
                assert(s.subrange(0, pat.len() as int) =~= s.take(pat.len() as int));
            }
        }
        let rest = s.skip(1);
        assert(rest.subrange(i - 1, i - 1 + pat.len()) =~= s.subrange(i, i + pat.len()));
        assert(occurs_at(rest, pat, i - 1));
        lemma_replacement_occurs(rest, pat, to);
        let inner = replace(rest, pat, to);
        let j = choose|j: int| occurs_at(inner, to, j);
        assert(out.subrange(j + 1, j + 1 + to.len()) =~= inner.subrange(j, j + to.len()));
        assert(occurs_at(out, to, j + 1));
    }
}

/// Nothing is replaced where the pattern does not occur.
pub proof fn lemma_replace_absent(s: Seq<char>, pat: Seq<char>, to: Seq<char>)
    requires
        !occurs(s, pat),
    ensures
        replace(s, pat, to) == s,
    decreases s.len(),
{
    if pat.len() > 0 && s.len() >= pat.len() {
        if s.take(pat.len() as int) == pat {
            assert(s.subrange(0, pat.len() as int) =~= s.take(pat.len() as int));
            assert(occurs_at(s, pat, 0));
        }
        let rest = s.skip(1);
        assert forall|i: int| !occurs_at(rest, pat, i) by {
            if occurs_at(rest, pat, i) {
                assert(s.subrange(i + 1, i + 1 + pat.len()) =~= rest.subrange(i, i + pat.len()));
                assert(occurs_at(s, pat, i + 1));
            }
        }
        lemma_replace_absent(rest, pat, to);
        assert(seq![s[0]] + rest =~= s);
    }
}

/// A pattern does not occur in a text without its first character.
pub proof fn lemma_occurs_first(s: Seq<char>, pat: Seq<char>)
    requires
        pat.len() > 0,
        forall|i: int| 0 <= i < s.len() ==> s[i] != pat[0],
    ensures
        !occurs(s, pat),
{
    assert forall|i: int| !occurs_at(s, pat, i) by {
        if occurs_at(s, pat, i) {
            assert(s.subrange(i, i + pat.len())[0] == s[i]);
        }
    }
}

/// A pattern that occurs in a text and a character that it does not hold occurs in the text.
pub proof fn lemma_occurs_push(s: Seq<char>, c: char, pat: Seq<char>)
    requires
        pat.len() > 0,
        !pat.contains(c),
    ensures
        occurs(s.push(c), pat) ==> occurs(s, pat),
{
    if occurs(s.push(c), pat) {
        let i = choose|i: int| occurs_at(s.push(c), pat, i);
        let found = s.push(c).subrange(i, i + pat.len());
        if i + pat.len() > s.len() {
            assert(found[pat.len() - 1] == c);
            assert(pat[pat.len() - 1] == c);
        }
        assert(s.subrange(i, i + pat.len()) =~= found);
        assert(occurs_at(s, pat, i));
    }
}

/// No occurrence reaches past a character that the pattern does not hold: what stands before it
/// and what stands after it are replaced on their own.
pub proof fn lemma_replace_concat(a: Seq<char>, b: Seq<char>, pat: Seq<char>, to: Seq<char>)
    requires
        pat.len() > 0,
        a.len() == 0 || !pat.contains(a.last()),
    ensures
        replace(a + b, pat, to) == replace(a, pat, to) + replace(b, pat, to),
    decreases a.len(),
{
    let s = a + b;
    let n = pat.len() as int;
    if a.len() == 0 {
        assert(s =~= b);
        assert(replace(a, pat, to) =~= Seq::empty());
        assert(replace(a, pat, to) + replace(b, pat, to) =~= replace(b, pat, to));
    } else if s.len() < n {
        assert(replace(a, pat, to) == a && replace(b, pat, to) == b);
    } else if s.take(n) == pat {
        if a.len() < n {
            assert(s.take(n)[a.len() - 1] == a.last());
            assert(pat[a.len() - 1] == a.last());
        }
        assert(a.take(n) =~= s.take(n));
        let rest = a.skip(n);
        assert(s.skip(n) =~= rest + b);
        if rest.len() > 0 {
            assert(rest.last() == a.last());
        }
        lemma_replace_concat(rest, b, pat, to);
        assert(to + (replace(rest, pat, to) + replace(b, pat, to)) =~= to + replace(rest, pat, to)
            + replace(b, pat, to));
    } else {
        let rest = a.skip(1);
        assert(s.skip(1) =~= rest + b);
        if rest.len() > 0 {
            assert(rest.last() == a.last());
        }
        lemma_replace_concat(rest, b, pat, to);
        assert(seq![a[0]] + (replace(rest, pat, to) + replace(b, pat, to)) =~= seq![a[0]] + replace(
            rest,
            pat,
            to,
        ) + replace(b, pat, to));
        if a.len() >= n {
            assert(a.take(n) =~= s.take(n));
        } else {
            assert(seq![a[0]] + rest =~= a);
        }
    }
}

/// A last character that the pattern does not hold stays the last.
pub proof fn lemma_replace_keeps_end(s: Seq<char>, pat: Seq<char>, to: Seq<char>)
    requires
        pat.len() > 0,
        s.len() > 0,
        !pat.contains(s.last()),
    ensures
        replace(s, pat, to).len() > 0,
        replace(s, pat, to).last() == s.last(),
    decreases s.len(),
{
    let n = pat.len() as int;
    if s.len() >= n {
        if s.take(n) == pat {
            if s.len() == n {
                assert(s.take(n)[n - 1] == s.last());
                assert(pat[n - 1] == s.last());
            }
            lemma_replace_keeps_end(s.skip(n), pat, to);
        } else if s.len() > 1 {
            lemma_replace_keeps_end(s.skip(1), pat, to);
        }
    }
}

/// The lines of whole lines and what follows them.
pub proof fn lemma_lines_concat(a: Seq<char>, b: Seq<char>)
    requires
        a.len() == 0 || a.last() == '\n',
    ensures
        lines(a + b) == lines(a) + lines(b),
    decreases a.len(),
{
    if a.len() == 0 {
        assert(a + b =~= b);
        assert(lines(a) + lines(b) =~= lines(b));
    } else {
        lemma_find(a, '\n');
        let n = find(a, '\n');
        assert(n < a.len()) by {
            if n == a.len() {
                assert(a[a.len() - 1] != '\n');
            }
        }
        assert forall|j: int| 0 <= j < n implies (a + b)[j] != '\n' by {
            assert((a + b)[j] == a[j]);
        }
        assert((a + b)[n] == a[n]);
        lemma_find_unique(a + b, '\n', n);
        assert((a + b).take(n) =~= a.take(n));
        let rest = a.skip(n + 1);
        assert((a + b).skip(n + 1) =~= rest + b);
        if rest.len() > 0 {
            assert(rest.last() == a.last());
        }
        lemma_lines_concat(rest, b);
        assert(lines(a + b) =~= lines(a) + lines(b));
    }
}

/// The lines of one line.
pub proof fn lemma_lines_of_line(line: Seq<char>)
    requires
        forall|i: int| 0 <= i < line.len() ==> line[i] != '\n',
    ensures
        lines(line.push('\n')) == seq![strip_cr(line)],
{
    let s = line.push('\n');
    lemma_find_unique(s, '\n', line.len() as int);
    assert(s.take(line.len() as int) =~= line);
    let rest = s.skip(line.len() as int + 1);
    assert(rest.len() == 0);
    assert(lines(rest) =~= Seq::empty());
    assert(lines(s) =~= seq![strip_cr(line)]);
}

/// The characters of a string.
pub fn chars_of(s: &str) -> (r: Vec<char>)
    ensures
        r@ == s@,
{
    let mut r: Vec<char> = Vec::new();
    for c in it: s.chars()
        invariant
            it.seq() == s@,
            r@ == s@.take(it.index() as int),
    {
        r.push(c);
        assert(s@.take(it.index() + 1) =~= s@.take(it.index() as int).push(c));
    }
    assert(s@.take(s@.len() as int) =~= s@);
    r
}

/// Append characters to a string.
pub fn push_chars(out: &mut String, s: &[char])
    ensures
        final(out)@ == old(out)@ + s@,
{
    let mut i: usize = 0;
    assert(out@ =~= old(out)@ + s@.take(0));
    while i < s.len()
        invariant
            i <= s.len(),
            out@ == old(out)@ + s@.take(i as int),
        decreases s.len() - i,
    {
        out.push(s[i]);
        assert(s@.take(i + 1) =~= s@.take(i as int).push(s@[i as int]));
        assert(out@ =~= old(out)@ + s@.take(i + 1));
        i = i + 1;
    }
    assert(s@.take(s@.len() as int) =~= s@);
}

/// The string of a character slice.
pub fn string_of(s: &[char]) -> (r: String)
    ensures
        r@ == s@,
{
    let mut r = String::new();
    push_chars(&mut r, s);
    assert(r@ =~= s@);
    r
}

/// Whether two character slices hold the same text.
pub fn same(a: &[char], b: &[char]) -> (r: bool)
    ensures
        r == (a@ == b@),
{
    if a.len() != b.len() {
        return false;
    }
    let mut i: usize = 0;
    while i < a.len()
        invariant
            i <= a.len(),
            a.len() == b.len(),
            forall|j: int| 0 <= j < i ==> a@[j] == b@[j],
        decreases a.len() - i,
    {
        if a[i] != b[i] {
            return false;
        }
        i = i + 1;
    }
    assert(a@ =~= b@);
    true
}

/// Whether two strings hold the same text.
pub fn same_str(a: &str, b: &str) -> (r: bool)
    ensures
        r == (a@ == b@),
{
    let x = chars_of(a);
    let y = chars_of(b);
    same(x.as_slice(), y.as_slice())
}

/// [`trim_start`] on a slice.
pub fn trim_start_of(s: &[char]) -> (r: &[char])
    ensures
        r@ == trim_start(s@),
{
    let mut i: usize = 0;
    while i < s.len() && s[i].is_whitespace()
        invariant
            i <= s.len(),
            forall|j: int| 0 <= j < i ==> is_white(#[trigger] s@[j]),
        decreases s.len() - i,
    {
        i = i + 1;
    }
    proof {
        lemma_trim_start_unique(s@, i as int);
    }
    &s[i..s.len()]
}

/// [`trim_end`] on a slice.
pub fn trim_end_of(s: &[char]) -> (r: &[char])
    ensures
        r@ == trim_end(s@),
{
    let mut n: usize = s.len();
    while n > 0 && s[n - 1].is_whitespace()
        invariant
            n <= s.len(),
            forall|j: int| n <= j < s.len() ==> is_white(#[trigger] s@[j]),
        decreases n,
    {
        n = n - 1;
    }
    proof {
        lemma_trim_end_unique(s@, n as int);
    }
    &s[0..n]
}

/// [`trim`] on a slice.
pub fn trim_of(s: &[char]) -> (r: &[char])
    ensures
        r@ == trim(s@),
{
    trim_end_of(trim_start_of(s))
}

/// [`find`] on a slice.
pub fn find_in(s: &[char], c: char) -> (r: usize)
    ensures
        r == find(s@, c),
        r <= s.len(),
{
    let mut i: usize = 0;
    while i < s.len() && s[i] != c
        invariant
            i <= s.len(),
            forall|j: int| 0 <= j < i ==> s@[j] != c,
        decreases s.len() - i,
    {
        i = i + 1;
    }
    proof {
        lemma_find_unique(s@, c, i as int);
    }
    i
}

/// The texts of a list of strings.
pub open spec fn texts(v: Seq<String>) -> Seq<Seq<char>> {
    Seq::new(v.len(), |i: int| v[i]@)
}

/// The text of an optional string.
pub open spec fn opt_text(s: Option<String>) -> Option<Seq<char>> {
    match s {
        Some(t) => Some(t@),
        None => None,
    }
}

/// A copy of an optional string.
pub fn copy_opt(s: &Option<String>) -> (r: Option<String>)
    ensures
        opt_text(r) == opt_text(*s),
{
    match s {
        Some(t) => Some(t.clone()),
        None => None,
    }
}

/// Append a copy of a text to a list of strings.
pub fn push_text(v: &mut Vec<String>, s: &str)
    ensures
        texts(final(v)@) == texts(old(v)@).push(s@),
{
    let ghost before = v@;
    v.push(s.to_owned());
    assert(texts(v@) =~= texts(before).push(s@));
}

/// [`join`] of strings, from index `from` on.
pub fn join_from(v: &Vec<String>, from: usize, sep: &str) -> (r: String)
    requires
        from <= v.len(),
    ensures
        r@ == join(texts(v@).skip(from as int), sep@),
{
    let ghost all = texts(v@).skip(from as int);
    let mut r = String::new();
    let mut i: usize = from;
    assert(all.take(0) =~= Seq::<Seq<char>>::empty());
    while i < v.len()
        invariant
            from <= i <= v.len(),
            all == texts(v@).skip(from as int),
            r@ == join(all.take(i - from), sep@),
        decreases v.len() - i,
    {
        let ghost before = all.take(i - from);
        let ghost after = all.take(i + 1 - from);
        assert(after.drop_last() =~= before);
        assert(after.last() == v@[i as int]@);
        if i > from {
            r.append(sep);
        }
        r.append(v[i].as_str());
        assert(r@ =~= join(after, sep@));
        i = i + 1;
    }
    assert(all.take(all.len() as int) =~= all);
    r
}

/// The texts of a list of lines.
pub open spec fn line_texts(v: Seq<Vec<char>>) -> Seq<Seq<char>> {
    Seq::new(v.len(), |i: int| v[i]@)
}

/// A copy of a slice.
pub fn to_vec(s: &[char]) -> (r: Vec<char>)
    ensures
        r@ == s@,
{
    let mut r: Vec<char> = Vec::new();
    let mut i: usize = 0;
    while i < s.len()
        invariant
            i <= s.len(),
            r@ == s@.take(i as int),
        decreases s.len() - i,
    {
        r.push(s[i]);
        assert(s@.take(i + 1) =~= s@.take(i as int).push(s@[i as int]));
        i = i + 1;
    }
    assert(s@.take(s@.len() as int) =~= s@);
    r
}

/// [`lines`] on a slice.
pub fn lines_of(s: &[char]) -> (r: Vec<Vec<char>>)
    ensures
        line_texts(r@) == lines(s@),
{
    let mut r: Vec<Vec<char>> = Vec::new();
    let mut i: usize = 0;
    assert(s@.skip(0) =~= s@);
    assert(lines(s@) =~= line_texts(r@) + lines(s@.skip(0)));
    while i < s.len()
        invariant
            i <= s.len(),
            lines(s@) == line_texts(r@) + lines(s@.skip(i as int)),
        decreases s.len() - i,
    {
        let rest = &s[i..s.len()];
        assert(rest@ =~= s@.skip(i as int));
        let n = find_in(rest, '\n');
        let ghost before = line_texts(r@);
        if n < rest.len() {
            let line = if n > 0 && rest[n - 1] == '\r' {
                &rest[0..n - 1]
            } else {
                &rest[0..n]
            };
            assert(line@ =~= strip_cr(rest@.take(n as int)));
            r.push(to_vec(line));
            assert(line_texts(r@) =~= before.push(line@));
            assert(rest@.skip(n + 1) =~= s@.skip(i + n + 1));
            assert(lines(rest@) =~= seq![line@] + lines(s@.skip(i + n + 1)));
            assert(lines(s@) =~= line_texts(r@) + lines(s@.skip(i + n + 1)));
            i = i + n + 1;
        } else {
            r.push(to_vec(rest));
            assert(line_texts(r@) =~= before.push(rest@));
            assert(s@.skip(s@.len() as int) =~= Seq::<char>::empty());
            assert(lines(s@) =~= line_texts(r@) + lines(s@.skip(s@.len() as int)));
            i = s.len();
        }
    }
    assert(lines(s@.skip(i as int)) =~= Seq::<Seq<char>>::empty());
    assert(line_texts(r@) =~= lines(s@));
    r
}

/// Whether `pat` occurs in `s` at `i`.
pub fn starts_with_at(s: &[char], i: usize, pat: &[char]) -> (r: bool)
    requires
        i <= s.len(),
    ensures
        r == occurs_at(s@, pat@, i as int),
{
    if pat.len() > s.len() - i {
        return false;
    }
    let part = &s[i..i + pat.len()];
    same(part, pat)
}

/// [`replace`] on slices.
pub fn replace_in(s: &[char], pat: &[char], to: &[char]) -> (r: Vec<char>)
    requires
        pat.len() > 0,
    ensures
        r@ == replace(s@, pat@, to@),
{
    let mut r: Vec<char> = Vec::new();
    let mut i: usize = 0;
    assert(s@.skip(0) =~= s@);
    assert(replace(s@, pat@, to@) =~= r@ + replace(s@.skip(0), pat@, to@));
    while i < s.len()
        invariant
            i <= s.len(),
            pat.len() > 0,
            replace(s@, pat@, to@) == r@ + replace(s@.skip(i as int), pat@, to@),
        decreases s.len() - i,
    {
        let ghost rest = s@.skip(i as int);
        let ghost before = r@;
        if starts_with_at(s, i, pat) {
            assert(rest.take(pat@.len() as int) =~= s@.subrange(i as int, i + pat@.len()));
            let mut k: usize = 0;
            while k < to.len()
                invariant
                    k <= to.len(),
                    r@ == before + to@.take(k as int),
                decreases to.len() - k,
            {
                r.push(to[k]);
                assert(to@.take(k + 1) =~= to@.take(k as int).push(to@[k as int]));
                assert(r@ =~= before + to@.take(k + 1));
                k = k + 1;
            }
            assert(to@.take(to@.len() as int) =~= to@);
            assert(rest.skip(pat@.len() as int) =~= s@.skip(i + pat@.len()));
            assert(before + (to@ + replace(rest.skip(pat@.len() as int), pat@, to@)) =~= r@
                + replace(s@.skip(i + pat@.len()), pat@, to@));
            i = i + pat.len();
        } else {
            r.push(s[i]);
            proof {
                assert(rest.skip(1) =~= s@.skip(i + 1));
                if rest.len() >= pat@.len() {
                    assert(rest.take(pat@.len() as int) =~= s@.subrange(i as int, i + pat@.len()));
                    assert(before + (seq![rest[0]] + replace(rest.skip(1), pat@, to@)) =~= r@
                        + replace(s@.skip(i + 1), pat@, to@));
                } else {
                    assert(before + rest =~= r@ + s@.skip(i + 1));
                }
            }
            i = i + 1;
        }
    }
    assert(s@.skip(i as int) =~= Seq::<char>::empty());
    assert(r@ =~= replace(s@, pat@, to@));
    r
}

/// [`occurs`] on slices.
pub fn occurs_in(s: &[char], pat: &[char]) -> (r: bool)
    ensures
        r == occurs(s@, pat@),
{
    let mut i: usize = 0;
    loop
        invariant
            i <= s.len(),
            forall|j: int| 0 <= j < i ==> !occurs_at(s@, pat@, j),
        decreases s.len() - i,
    {
        if starts_with_at(s, i, pat) {
            return true;
        }
        if i == s.len() {
            return false;
        }
        i = i + 1;
    }
}

/// [`ascii_lower`] of one character.
pub fn ascii_lower_of(c: char) -> (r: char)
    ensures
        r == ascii_lower(c),
{
    if 'A' <= c && c <= 'Z' {
        ((c as u8) + 32) as char
    } else {
        c
    }
}

/// [`eq_ignore_case`] on slices.
pub fn same_ignore_case(a: &[char], b: &[char]) -> (r: bool)
    ensures
        r == eq_ignore_case(a@, b@),
{
    if a.len() != b.len() {
        return false;
    }
    let mut i: usize = 0;
    while i < a.len()
        invariant
            i <= a.len(),
            a.len() == b.len(),
            forall|j: int| 0 <= j < i ==> ascii_lower(#[trigger] a@[j]) == ascii_lower(b@[j]),
        decreases a.len() - i,
    {
        if ascii_lower_of(a[i]) != ascii_lower_of(b[i]) {
            assert(ascii_lower(a@[i as int]) != ascii_lower(b@[i as int]));
            return false;
        }
        i = i + 1;
    }
    true
}

/// [`decimal`] of a number.
pub fn decimal_of(n: u64) -> (r: String)
    ensures
        r@ == decimal(n as nat),
    decreases n,
{
    if n < 10 {
        let mut r = String::new();
        r.push(((n as u8) + 48) as char);
        assert(r@ =~= decimal(n as nat));
        r
    } else {
        let mut r = decimal_of(n / 10);
        r.push(((n % 10) as u8 + 48) as char);
        r
    }
}

/// `n` in decimal notation, with a minus sign where it is negative.
pub open spec fn signed(n: int) -> Seq<char> {
    if n < 0 {
        seq!['-'] + decimal((-n) as nat)
    } else {
        decimal(n as nat)
    }
}

/// [`signed`] of a number.
pub fn signed_of(n: i64) -> (r: String)
    ensures
        r@ == signed(n as int),
{
    if n < 0 {
        let magnitude = (-(n + 1)) as u64 + 1;
        let mut r = String::new();
        r.push('-');
        let digits = decimal_of(magnitude);
        r.append(digits.as_str());
        assert(r@ =~= seq!['-'] + decimal((-n) as nat));
        r
    } else {
        decimal_of(n as u64)
    }
}

/// A text as `{:?}` formats it: in double quotes, with escapes.
pub uninterp spec fn debug_text(s: Seq<char>) -> Seq<char>;

/// `format!("{s:?}")`: the quoted and escaped form that the standard library gives a string. Which
/// characters it escapes, and how, is not stated.
#[verifier::external_body]
pub(crate) fn debug_of(s: &str) -> (r: String)
    ensures
        r@ == debug_text(s@),
{
    format!("{s:?}")
}

} // verus!
