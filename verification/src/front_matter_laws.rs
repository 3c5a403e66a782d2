//! Laws of the front matter: what reading gives back of an update, and what an update leaves
//! alone.

use vstd::prelude::*;

use crate::front_matter;
use crate::text;

verus! {

/// The entry of a line with no trailing white space, whose first colon stands at `c` and whose
/// first character that is not white space stands at `a`.
proof fn lemma_entry(t: Seq<char>, a: int, c: int)
    requires
        0 <= a <= c < t.len(),
        t[c] == ':',
        forall|j: int| 0 <= j < c ==> t[j] != ':',
        forall|j: int| 0 <= j < a ==> text::is_white(#[trigger] t[j]),
        !text::is_white(t[a]),
        !text::is_white(t.last()),
    ensures
        text::trim_end(t) == t,
        text::trim(t) != front_matter::dashes(),
        front_matter::entry(t) == (if t[a] == '#' {
            None
        } else {
            Some((text::trim(t.take(c)), t.skip(c + 1)))
        }),
{
    text::lemma_trim_unique(t, a, t.len() as int);
    assert(t.take(t.len() as int) =~= t);
    let tt = t.skip(a);
    assert(t.subrange(a, t.len() as int) =~= tt);
    assert(tt[c - a] == ':');
    assert(front_matter::dashes().len() == 3);
    assert(tt != front_matter::dashes()) by {
        if tt == front_matter::dashes() {
            assert(tt[c - a] == '-');
        }
    }
    assert forall|j: int| 0 <= j < c - a implies tt[j] != ':' by {
        assert(tt[j] == t[j + a]);
    }
    text::lemma_find_unique(tt, ':', c - a);
    assert(tt.take(c - a) =~= t.take(c).skip(a));
    assert forall|j: int| 0 <= j < a implies text::is_white(#[trigger] t.take(c)[j]) by {
        assert(t.take(c)[j] == t[j]);
    }
    text::lemma_trim_skip_white(t.take(c), a);
    assert(tt.skip(c - a + 1) =~= t.skip(c + 1));
}

/// A line and the same line without trailing white space state the same.
proof fn lemma_entry_of_trim_end(line: Seq<char>)
    ensures
        front_matter::entry(text::trim_end(line)) == front_matter::entry(line),
        text::trim(text::trim_end(line)) == text::trim(line),
{
    text::lemma_trim_of_trim_end(line);
}

/// The text between the key and the end of an updated line.
spec fn updated_value(t: Seq<char>, value: bool) -> Seq<char> {
    let hash = text::find(t, '#');
    seq![' '] + (front_matter::bool_text(value) + if hash < t.len() {
        seq![' '] + t.skip(hash)
    } else {
        Seq::empty()
    })
}

/// The shape of an updated line.
proof fn lemma_updated_shape(line: Seq<char>, key: Seq<char>, value: bool)
    requires
        front_matter::sets(line, key),
        forall|j: int| 0 <= j < line.len() ==> line[j] != '\n',
    ensures
        ({
            let t = text::trim_end(line);
            let c = text::find(t, ':');
            let u = front_matter::updated_line(line, key, value);
            &&& 0 <= c < t.len()
            &&& u == t.take(c + 1) + updated_value(t, value)
            &&& forall|j: int| 0 <= j < u.len() ==> u[j] != '\n'
            &&& u.len() > 0
            &&& !text::is_white(u.last())
            &&& !text::is_white(t.last())
        }),
{
    let t = text::trim_end(line);
    let c = text::find(t, ':');
    text::lemma_find(t, ':');
    text::lemma_find(t, '#');
    text::lemma_trim_end(line);
    let hash = text::find(t, '#');
    let word = front_matter::bool_text(value);
    let head = t.take(c + 1).push(' ') + word;
    let u = front_matter::updated_line(line, key, value);
    let v = updated_value(t, value);
    assert(u =~= t.take(c + 1) + v);
    assert forall|j: int| 0 <= j < t.len() implies t[j] != '\n' by {
        assert(t[j] == line[j]);
    }
    assert forall|j: int| 0 <= j < u.len() implies u[j] != '\n' by {
        if j <= c {
            assert(u[j] == t[j]);
        } else if j >= head.len() + 1 {
            assert(u[j] == t[hash + j - head.len() - 1]);
        } else if j < head.len() {
            assert(u[j] == head[j]);
            if j > c + 1 {
                assert(head[j] == word[j - c - 2]);
            }
        }
    }
    if hash < t.len() {
        assert(u.last() == t.last());
    } else {
        assert(u.last() == word.last());
    }
}

/// What is needed of a line on which an update replaces the value.
proof fn lemma_updated_entry(line: Seq<char>, key: Seq<char>, value: bool)
    requires
        front_matter::sets(line, key),
        forall|j: int| 0 <= j < line.len() ==> line[j] != '\n',
    ensures
        ({
            let u = front_matter::updated_line(line, key, value);
            &&& forall|j: int| 0 <= j < u.len() ==> u[j] != '\n'
            &&& text::trim_end(u) == u
            &&& text::strip_cr(u) == u
            &&& text::trim(u) != front_matter::dashes()
            &&& text::trim(line) != front_matter::dashes()
            &&& front_matter::entry(line) is Some ==> front_matter::states(line, key)
                && front_matter::states(u, key) && front_matter::bool_of(
                key,
                front_matter::raw_value(u),
            ) == Ok::<bool, front_matter::FrontMatterFault>(value)
            &&& front_matter::entry(line) is None ==> front_matter::entry(u) is None
        }),
{
    let t = text::trim_end(line);
    let c = text::find(t, ':');
    text::lemma_find(t, ':');
    let u = front_matter::updated_line(line, key, value);
    lemma_updated_shape(line, key, value);
    lemma_entry_of_trim_end(line);
    assert(!text::is_white(':'));
    text::lemma_trim_start(t);
    let a = t.len() - text::trim_start(t).len();
    assert(a <= c) by {
        if a > c {
            assert(text::is_white(t[c]));
        }
    }
    assert(text::trim_start(t)[0] == t[a]);
    lemma_entry(t, a, c);
    assert forall|j: int| 0 <= j <= c implies u[j] == t[j] by {}
    assert forall|j: int| 0 <= j < a implies text::is_white(#[trigger] u[j]) by {
        assert(u[j] == t[j]);
    }
    assert(u[a] == t[a]);
    assert(u[c] == t[c]);
    lemma_entry(u, a, c);
    assert(u.take(c) =~= t.take(c));
    assert(u.skip(c + 1) =~= updated_value(t, value));
    lemma_updated_value(t, key, value);
}

/// The new value reads back.
proof fn lemma_updated_value(t: Seq<char>, key: Seq<char>, value: bool)
    ensures
        front_matter::bool_of(key, updated_value(t, value)) == Ok::<
            bool,
            front_matter::FrontMatterFault,
        >(value),
{
    text::lemma_find(t, '#');
    let hash = text::find(t, '#');
    let word = front_matter::bool_text(value);
    let rest = if hash < t.len() {
        seq![' '] + t.skip(hash)
    } else {
        Seq::<char>::empty()
    };
    let v = updated_value(t, value);
    assert(v =~= seq![' '] + (word + rest));
    assert(text::is_white(' '));
    assert(v[1] == word[0]);
    text::lemma_trim_start_unique(v, 1);
    assert(v.skip(1) =~= word + rest);
    if hash < t.len() {
        assert(rest[1] == t[hash]);
    }
    lemma_plain_word(word, rest);
    assert(text::eq_ignore_case(word, word));
    assert(front_matter::bool_text(false).len() != front_matter::bool_text(true).len());
}

/// A boolean word, alone or followed by a comment, is read as that word.
proof fn lemma_plain_word(word: Seq<char>, rest: Seq<char>)
    requires
        word == front_matter::bool_text(true) || word == front_matter::bool_text(false),
        rest.len() == 0 || (rest.len() >= 2 && rest[0] == ' ' && rest[1] == '#'),
    ensures
        front_matter::strip_comment(word + rest) == word,
        text::trim(word) == word,
        front_matter::unquoted(word) == word,
{
    let w = word + rest;
    let n = word.len() as int;
    assert forall|i: int| 0 <= i <= n && i <= w.len() implies front_matter::quote_state(
        #[trigger] w.take(i),
    ) == (false, false) by {
        lemma_no_quotes(w.take(i));
    }
    if rest.len() > 0 {
        lemma_no_quotes(w.take(n + 1));
        assert(front_matter::comment_at(w, n + 1)) by {
            assert(w[n + 1] == rest[1]);
            assert(w[n] == rest[0]);
        }
        lemma_first_comment(w, 0, n + 1);
        assert(w.take(n + 1).take(n) =~= word);
        text::lemma_trim_end_unique(w.take(n + 1), n);
    } else {
        assert(w =~= word);
        lemma_first_comment(w, 0, n);
        assert(w.take(n) =~= word);
        text::lemma_trim_end_unique(word, n);
    }
    text::lemma_trim_unique(word, 0, n);
    assert(word.subrange(0, n) =~= word);
}

/// Text without quotes leaves the quote state alone.
proof fn lemma_no_quotes(s: Seq<char>)
    requires
        forall|j: int| 0 <= j < s.len() ==> s[j] != '"' && s[j] != '\'',
    ensures
        front_matter::quote_state(s) == (false, false),
    decreases s.len(),
{
    if s.len() > 0 {
        lemma_no_quotes(s.drop_last());
    }
}

/// The first comment, recognised as the first position at which one starts.
pub proof fn lemma_first_comment(s: Seq<char>, i: int, n: int)
    requires
        0 <= i <= n <= s.len(),
        n < s.len() ==> front_matter::comment_at(s, n),
        forall|j: int| i <= j < n ==> !front_matter::comment_at(s, j),
    ensures
        front_matter::first_comment(s, i) == n,
    decreases n - i,
{
    if i < n {
        lemma_first_comment(s, i + 1, n);
    }
}

proof fn lemma_footer(ls: Seq<Seq<char>>, i: int)
    requires
        0 <= i <= ls.len(),
    ensures
        i <= front_matter::footer(ls, i) <= ls.len(),
        front_matter::footer(ls, i) < ls.len() ==> text::trim(ls[front_matter::footer(ls, i)])
            == front_matter::dashes(),
        forall|j: int|
            i <= j < front_matter::footer(ls, i) ==> text::trim(#[trigger] ls[j])
                != front_matter::dashes(),
    decreases ls.len() - i,
{
    if i < ls.len() && text::trim(ls[i]) != front_matter::dashes() {
        lemma_footer(ls, i + 1);
    }
}

proof fn lemma_closing(ls: Seq<Seq<char>>, i: int)
    requires
        0 <= i <= ls.len(),
    ensures
        i <= front_matter::closing(ls, i) <= ls.len(),
        front_matter::closing(ls, i) < ls.len() ==> text::trim_end(
            ls[front_matter::closing(ls, i)],
        ) == front_matter::dashes(),
        forall|j: int|
            i <= j < front_matter::closing(ls, i) ==> text::trim_end(#[trigger] ls[j])
                != front_matter::dashes(),
    decreases ls.len() - i,
{
    if i < ls.len() && text::trim_end(ls[i]) != front_matter::dashes() {
        lemma_closing(ls, i + 1);
    }
}

proof fn lemma_first_entry(ls: Seq<Seq<char>>, key: Seq<char>, i: int, n: int)
    requires
        0 <= i <= n <= ls.len(),
    ensures
        i <= front_matter::first_entry(ls, key, i, n) <= n,
        front_matter::first_entry(ls, key, i, n) < n ==> front_matter::states(
            ls[front_matter::first_entry(ls, key, i, n)],
            key,
        ),
        forall|j: int|
            i <= j < front_matter::first_entry(ls, key, i, n) ==> !front_matter::states(
                #[trigger] ls[j],
                key,
            ),
    decreases n - i,
{
    if i < n && !front_matter::states(ls[i], key) {
        lemma_first_entry(ls, key, i + 1, n);
    }
}

/// Two files with the same statements in `i..n` state a key first on the same line.
proof fn lemma_same_first_entry(
    ls: Seq<Seq<char>>,
    ls2: Seq<Seq<char>>,
    key: Seq<char>,
    i: int,
    n: int,
)
    requires
        0 <= i <= n <= ls.len(),
        n <= ls2.len(),
        forall|j: int|
            #![trigger ls[j]]
            i <= j < n ==> front_matter::states(ls[j], key) == front_matter::states(ls2[j], key),
    ensures
        front_matter::first_entry(ls, key, i, n) == front_matter::first_entry(ls2, key, i, n),
{
    lemma_first_entry(ls, key, i, n);
    lemma_first_entry(ls2, key, i, n);
    let a = front_matter::first_entry(ls, key, i, n);
    let b = front_matter::first_entry(ls2, key, i, n);
    if a < b {
        assert(front_matter::states(ls[a], key) == front_matter::states(ls2[a], key));
    } else if b < a {
        assert(front_matter::states(ls[b], key) == front_matter::states(ls2[b], key));
    }
}

/// The first closing line is the only one with no earlier one.
proof fn lemma_closing_unique(ls: Seq<Seq<char>>, h: int)
    requires
        1 <= h <= ls.len(),
        h < ls.len() ==> text::trim_end(ls[h]) == front_matter::dashes(),
        forall|j: int| 1 <= j < h ==> text::trim_end(#[trigger] ls[j]) != front_matter::dashes(),
    ensures
        front_matter::closing(ls, 1) == h,
{
    lemma_closing(ls, 1);
}

/// A carriage return at the end is white space.
proof fn lemma_trim_end_of_strip_cr(l: Seq<char>)
    ensures
        text::trim_end(text::strip_cr(l)) == text::trim_end(l),
{
    assert(text::is_white('\r'));
}

/// The lines of an updated file, next to the lines it was made from.
proof fn lemma_updated_file(contents: Seq<char>, key: Seq<char>, value: bool)
    requires
        front_matter::delimiters(contents) is Ok,
    ensures
        ({
            let ls = text::lines(contents);
            let f = front_matter::stop(ls);
            let up = front_matter::updated_lines(ls, key, value, f);
            let ls2 = text::lines(text::unlines(up));
            &&& 1 <= front_matter::footer(ls, 1) <= f < ls.len()
            &&& ls2.len() == ls.len()
            &&& front_matter::has_header(ls2)
            &&& front_matter::stop(ls2) == f
            &&& front_matter::footer(ls2, 1) == front_matter::footer(ls, 1)
            &&& forall|i: int| 0 <= i <= f ==> #[trigger] ls2[i] == up[i]
            &&& forall|i: int| f < i < ls.len() ==> #[trigger] ls2[i] == text::strip_cr(ls[i])
            &&& forall|i: int|
                #![trigger ls[i]]
                1 <= i < f && !front_matter::sets(ls[i], key) ==> front_matter::entry(ls2[i])
                    == front_matter::entry(ls[i])
        }),
{
    let ls = text::lines(contents);
    let f = front_matter::stop(ls);
    let up = front_matter::updated_lines(ls, key, value, f);
    let ls2 = text::lines(text::unlines(up));
    lemma_closing(ls, 1);
    lemma_footer(ls, 1);
    text::lemma_lines_have_no_newline(contents);
    assert forall|i: int| 0 <= i < ls.len() implies {
        let u = #[trigger] up[i];
        &&& forall|j: int| 0 <= j < u.len() ==> u[j] != '\n'
        &&& i <= f ==> text::strip_cr(u) == u
        &&& i <= f ==> text::trim_end(u) == u
        &&& 1 <= i <= f ==> (text::trim(u) == front_matter::dashes() <==> text::trim(ls[i])
            == front_matter::dashes())
        &&& 1 <= i < f ==> text::trim_end(u) != front_matter::dashes()
    } by {
        let l = ls[i];
        assert forall|j: int| 0 <= j < l.len() implies l[j] != '\n' by {
            assert(text::lines(contents)[i][j] != '\n');
        }
        text::lemma_trim_end(l);
        text::lemma_trim_of_trim_end(l);
        if 0 < i < f && front_matter::sets(l, key) {
            lemma_updated_entry(l, key, value);
            if text::trim_end(up[i]) == front_matter::dashes() {
                text::lemma_trim_of_trim_end(up[i]);
                lemma_dashes();
            }
        } else if i <= f {
            let t = text::trim_end(l);
            assert(up[i] == t);
            assert forall|j: int| 0 <= j < t.len() implies t[j] != '\n' by {
                assert(t[j] == l[j]);
            }
            assert(text::is_white('\r'));
        }
    }
    assert forall|i: int, j: int|
        0 <= i < up.len() && 0 <= j < up[i].len() implies #[trigger] up[i][j] != '\n' by {}
    text::lemma_lines_of_unlines(up);
    lemma_closing(ls2, 1);
    lemma_footer(ls2, 1);
    assert forall|i: int| 0 <= i <= f implies #[trigger] ls2[i] == up[i] by {
        assert(text::strip_cr(up[i]) == up[i]);
    }
    assert forall|i: int| f < i < ls.len() implies #[trigger] ls2[i] == text::strip_cr(ls[i]) by {
        assert(up[i] == ls[i]);
    }
    assert(text::trim_end(ls2[0]) == front_matter::dashes()) by {
        assert(ls2[0] == up[0]);
        assert(text::trim_end(up[0]) == up[0]);
    }
    // The footer is read no later than the update stops.
    assert(text::trim(ls[f]) == front_matter::dashes()) by {
        text::lemma_trim_of_trim_end(ls[f]);
        lemma_dashes();
    }
    let g = front_matter::footer(ls, 1);
    assert(g <= f);
    assert(front_matter::closing(ls2, 1) == front_matter::closing(ls, 1)) by {
        let h = front_matter::closing(ls, 1);
        assert forall|j: int| 1 <= j < h implies text::trim_end(#[trigger] ls2[j])
            != front_matter::dashes() by {
            if j <= f {
                assert(ls2[j] == up[j]);
            } else {
                assert(ls2[j] == text::strip_cr(ls[j]));
                lemma_trim_end_of_strip_cr(ls[j]);
            }
        }
        if h < ls.len() {
            assert(ls2[h] == up[h]);
        }
        lemma_closing_unique(ls2, h);
    }
    assert(front_matter::footer(ls2, 1) == g) by {
        let h = front_matter::footer(ls2, 1);
        if h < g {
            assert(ls2[h] == up[h]);
            assert(text::trim(ls[h]) != front_matter::dashes());
        }
        if h > g {
            assert(ls2[g] == up[g]);
            assert(text::trim(ls2[g]) != front_matter::dashes());
        }
    }
    assert forall|i: int|
        #![trigger ls[i]]
        1 <= i < f && !front_matter::sets(ls[i], key) implies front_matter::entry(ls2[i])
        == front_matter::entry(ls[i]) by {
        assert(ls2[i] == up[i]);
        lemma_entry_of_trim_end(ls[i]);
    }
}

proof fn lemma_dashes()
    ensures
        text::trim(front_matter::dashes()) == front_matter::dashes(),
{
    let d = front_matter::dashes();
    text::lemma_trim_unique(d, 0, 3);
    assert(d.subrange(0, 3) =~= d);
}

/// A file that can be written has its delimiters in place, and is updated up to the closing one.
proof fn lemma_write_is_update(contents: Seq<char>, key: Seq<char>, value: bool)
    requires
        front_matter::write_bool(contents, key, value) is Ok,
    ensures
        front_matter::delimiters(contents) is Ok,
        front_matter::stop(text::lines(contents)) == front_matter::closing(
            text::lines(contents),
            1,
        ),
        front_matter::write_bool(contents, key, value)->Ok_0 == front_matter::updated(
            contents,
            key,
            value,
        ),
{
    let ls = text::lines(contents);
    let f = front_matter::closing(ls, 1);
    lemma_closing(ls, 1);
    lemma_footer(ls, 1);
    text::lemma_trim_of_trim_end(ls[f]);
    lemma_dashes();
    assert(text::trim(ls[f]) == front_matter::dashes());
}

/// On every line that is read, the update replaces the value exactly where the key is stated,
/// and the new line states the key with the new value.
proof fn lemma_updated_statements(contents: Seq<char>, key: Seq<char>, value: bool, i: int)
    requires
        front_matter::delimiters(contents) is Ok,
        1 <= i < front_matter::footer(text::lines(contents), 1),
    ensures
        ({
            let ls = text::lines(contents);
            let out = front_matter::updated(contents, key, value);
            let ls2 = text::lines(out);
            &&& front_matter::states(ls2[i], key) == front_matter::states(ls[i], key)
            &&& front_matter::states(ls[i], key) ==> front_matter::bool_of(
                key,
                front_matter::raw_value(ls2[i]),
            ) == Ok::<bool, front_matter::FrontMatterFault>(value)
            &&& !front_matter::states(ls[i], key) ==> front_matter::entry(ls2[i])
                == front_matter::entry(ls[i])
        }),
{
    let ls = text::lines(contents);
    let out = front_matter::updated(contents, key, value);
    let ls2 = text::lines(out);
    let f = front_matter::stop(ls);
    let up = front_matter::updated_lines(ls, key, value, f);
    lemma_updated_file(contents, key, value);
    text::lemma_lines_have_no_newline(contents);
    let l = ls[i];
    assert forall|j: int| 0 <= j < l.len() implies l[j] != '\n' by {
        assert(text::lines(contents)[i][j] != '\n');
    }
    assert(ls2[i] == up[i]);
    if front_matter::sets(l, key) {
        lemma_updated_entry(l, key, value);
    } else {
        assert(front_matter::entry(ls2[i]) == front_matter::entry(l));
        if front_matter::states(l, key) {
            lemma_states_sets(l, key);
        }
    }
}

/// A line that states a key is one that an update of the key replaces.
proof fn lemma_states_sets(line: Seq<char>, key: Seq<char>)
    requires
        front_matter::states(line, key),
    ensures
        front_matter::sets(line, key),
{
    let t = text::trim_end(line);
    text::lemma_trim_of_trim_end(line);
    let (a, b) = text::lemma_trim_ends(t);
    let tt = text::trim(line);
    let c = text::find(tt, ':');
    text::lemma_find(tt, ':');
    assert(t.take(b) =~= t);
    assert(tt =~= t.skip(a));
    assert(!text::is_white(':'));
    assert(t[c + a] == tt[c]);
    assert forall|j: int| 0 <= j < c + a implies t[j] != ':' by {
        if j >= a {
            assert(t[j] == tt[j - a]);
        } else {
            assert(text::is_white(t[j]));
        }
    }
    text::lemma_find_unique(t, ':', c + a);
    assert(tt.take(c) =~= t.take(c + a).skip(a));
    assert forall|j: int| 0 <= j < a implies text::is_white(#[trigger] t.take(c + a)[j]) by {
        assert(t.take(c + a)[j] == t[j]);
    }
    text::lemma_trim_skip_white(t.take(c + a), a);
}

/// Reading after an update of the lines that state a key.
proof fn lemma_updated_reads(contents: Seq<char>, key: Seq<char>, value: bool)
    requires
        front_matter::delimiters(contents) is Ok,
    ensures
        front_matter::read_bool(front_matter::updated(contents, key, value), key) == Ok::<
            Option<bool>,
            front_matter::FrontMatterFault,
        >(
            match front_matter::entry_line(text::lines(contents), key) {
                Some(_) => Some(value),
                None => None,
            },
        ),
{
    let ls = text::lines(contents);
    let ls2 = text::lines(front_matter::updated(contents, key, value));
    let f = front_matter::footer(ls, 1);
    lemma_updated_file(contents, key, value);
    assert forall|j: int| #![trigger ls[j]] 1 <= j < f implies front_matter::states(ls[j], key)
        == front_matter::states(ls2[j], key) by {
        lemma_updated_statements(contents, key, value, j);
    }
    lemma_same_first_entry(ls, ls2, key, 1, f);
    lemma_first_entry(ls, key, 1, f);
    let k = front_matter::first_entry(ls, key, 1, f);
    if k < f {
        lemma_updated_statements(contents, key, value, k);
    }
}

/// Reading after writing: once `key` was set to `value`, reading the key gives `value` if the
/// file states the key at all, and nothing if it does not.
pub proof fn law_set_then_read(contents: Seq<char>, key: Seq<char>, value: bool)
    requires
        front_matter::write_bool(contents, key, value) is Ok,
    ensures
        front_matter::read_bool(front_matter::write_bool(contents, key, value)->Ok_0, key) == Ok::<
            Option<bool>,
            front_matter::FrontMatterFault,
        >(
            match front_matter::entry_line(text::lines(contents), key) {
                Some(_) => Some(value),
                None => None,
            },
        ),
{
    lemma_write_is_update(contents, key, value);
    lemma_updated_reads(contents, key, value);
}

/// An update of one key, and the other keys.
proof fn lemma_updated_keeps_other_keys(
    contents: Seq<char>,
    key: Seq<char>,
    value: bool,
    other: Seq<char>,
)
    requires
        front_matter::delimiters(contents) is Ok,
        other != key,
    ensures
        front_matter::read_bool(front_matter::updated(contents, key, value), other)
            == front_matter::read_bool(contents, other),
        front_matter::read_string(front_matter::updated(contents, key, value), other)
            == front_matter::read_string(contents, other),
{
    let ls = text::lines(contents);
    let ls2 = text::lines(front_matter::updated(contents, key, value));
    let f = front_matter::footer(ls, 1);
    lemma_updated_file(contents, key, value);
    assert forall|j: int| #![trigger ls[j]] 1 <= j < f implies front_matter::states(ls[j], other)
        == front_matter::states(ls2[j], other) by {
        lemma_updated_statements(contents, key, value, j);
    }
    lemma_same_first_entry(ls, ls2, other, 1, f);
    lemma_first_entry(ls, other, 1, f);
    let k = front_matter::first_entry(ls, other, 1, f);
    if k < f {
        lemma_updated_statements(contents, key, value, k);
    }
}

/// An update of one key leaves every other key as it was, read as a boolean or as text.
pub proof fn law_set_keeps_other_keys(
    contents: Seq<char>,
    key: Seq<char>,
    value: bool,
    other: Seq<char>,
)
    requires
        front_matter::write_bool(contents, key, value) is Ok,
        other != key,
    ensures
        front_matter::read_bool(front_matter::write_bool(contents, key, value)->Ok_0, other)
            == front_matter::read_bool(contents, other),
        front_matter::read_string(front_matter::write_bool(contents, key, value)->Ok_0, other)
            == front_matter::read_string(contents, other),
{
    lemma_write_is_update(contents, key, value);
    lemma_updated_keeps_other_keys(contents, key, value, other);
}

/// An update leaves every line after the front matter as it was, but for the carriage return of
/// a doubled line ending.
pub proof fn law_set_keeps_the_body(contents: Seq<char>, key: Seq<char>, value: bool)
    requires
        front_matter::write_bool(contents, key, value) is Ok,
    ensures
        ({
            let ls = text::lines(contents);
            let ls2 = text::lines(front_matter::write_bool(contents, key, value)->Ok_0);
            &&& ls2.len() == ls.len()
            &&& forall|i: int|
                front_matter::closing(ls, 1) < i < ls.len() ==> #[trigger] ls2[i]
                    == text::strip_cr(ls[i])
        }),
{
    lemma_write_is_update(contents, key, value);
    lemma_updated_file(contents, key, value);
}

/// Of two updates of a line the last one counts, where the key holds no `#`.
proof fn lemma_updated_line_twice(line: Seq<char>, key: Seq<char>, value: bool, last: bool)
    requires
        forall|j: int| 0 <= j < key.len() ==> key[j] != '#',
        forall|j: int| 0 <= j < line.len() ==> line[j] != '\n',
    ensures
        ({
            let u = front_matter::updated_line(line, key, value);
            front_matter::updated_line(u, key, last) == front_matter::updated_line(line, key, last)
        }),
{
    let t = text::trim_end(line);
    let u = front_matter::updated_line(line, key, value);
    text::lemma_trim_of_trim_end(line);
    if front_matter::sets(line, key) {
        lemma_updated_shape(line, key, value);
        lemma_updated_entry(line, key, value);
        text::lemma_find(t, ':');
        text::lemma_find(t, '#');
        let c = text::find(t, ':');
        let hash = text::find(t, '#');
        let word = front_matter::bool_text(value);
        let n = word.len() as int;
        assert forall|j: int| 0 <= j <= c implies u[j] == t[j] by {}
        text::lemma_find_unique(u, ':', c);
        assert(u.take(c) =~= t.take(c));
        // The key part holds no `#`: trimming it leaves the key.
        let (x, y) = text::lemma_trim_ends(t.take(c));
        assert forall|j: int| 0 <= j < c implies t[j] != '#' by {
            assert(t.take(c)[j] == t[j]);
            if x <= j < y {
                assert(key[j - x] == t[j]);
            }
        }
        let head = t.take(c + 1).push(' ') + word;
        assert(u.take(c + 1) =~= t.take(c + 1));
        assert forall|j: int| 0 <= j < head.len() implies u[j] == head[j] && head[j] != '#' by {
            if j > c + 1 {
                assert(head[j] == word[j - c - 2]);
            } else if j < c {
                assert(head[j] == t[j]);
            }
        }
        if hash < t.len() {
            assert(u =~= head.push(' ') + t.skip(hash));
            let at = head.len() + 1;
            assert(u[at as int] == t[hash]);
            assert(u[head.len() as int] == ' ');
            text::lemma_find_unique(u, '#', at as int);
            assert(u.skip(at as int) =~= t.skip(hash));
        } else {
            assert(u =~= head);
            text::lemma_find_unique(u, '#', u.len() as int);
        }
    }
}

/// Of two updates of a key the last one counts, and nothing is left of the first: for a key without
/// `#` and a body in which no line ends in a carriage return of its own.
pub proof fn law_last_set_wins(contents: Seq<char>, key: Seq<char>, value: bool, last: bool)
    requires
        front_matter::write_bool(contents, key, value) is Ok,
        forall|j: int| 0 <= j < key.len() ==> key[j] != '#',
        ({
            let ls = text::lines(contents);
            forall|i: int|
                front_matter::closing(ls, 1) < i < ls.len() ==> text::strip_cr(#[trigger] ls[i])
                    == ls[i]
        }),
    ensures
        ({
            let mid = front_matter::write_bool(contents, key, value)->Ok_0;
            &&& front_matter::write_bool(mid, key, last) is Ok
            &&& front_matter::write_bool(mid, key, last) == front_matter::write_bool(
                contents,
                key,
                last,
            )
        }),
{
    let ls = text::lines(contents);
    lemma_write_is_update(contents, key, value);
    lemma_updated_file(contents, key, value);
    lemma_closing(ls, 1);
    lemma_closing(text::lines(front_matter::updated(contents, key, value)), 1);
    lemma_updated_twice(contents, key, value, last);
}

/// The lines of a file that was updated twice.
proof fn lemma_updated_twice(contents: Seq<char>, key: Seq<char>, value: bool, last: bool)
    requires
        front_matter::delimiters(contents) is Ok,
        forall|j: int| 0 <= j < key.len() ==> key[j] != '#',
        ({
            let ls = text::lines(contents);
            forall|i: int|
                front_matter::stop(ls) < i < ls.len() ==> text::strip_cr(#[trigger] ls[i])
                    == ls[i]
        }),
    ensures
        ({
            let ls = text::lines(contents);
            let ls2 = text::lines(front_matter::updated(contents, key, value));
            &&& front_matter::stop(ls2) == front_matter::stop(ls)
            &&& front_matter::updated_lines(ls2, key, last, front_matter::stop(ls))
                == front_matter::updated_lines(ls, key, last, front_matter::stop(ls))
        }),
{
    let ls = text::lines(contents);
    let f = front_matter::stop(ls);
    let ls2 = text::lines(front_matter::updated(contents, key, value));
    lemma_updated_file(contents, key, value);
    let want = front_matter::updated_lines(ls, key, last, f);
    let up2 = front_matter::updated_lines(ls2, key, last, f);
    assert forall|i: int| 0 <= i < ls.len() implies #[trigger] up2[i] == want[i] by {
        lemma_kept_or_updated_twice(contents, key, value, last, i);
    }
    assert(up2 =~= want);
}

/// Setting a key twice is setting it once, for a key without `#` and a body in which no line
/// ends in a carriage return of its own.
pub proof fn law_set_is_idempotent(contents: Seq<char>, key: Seq<char>, value: bool)
    requires
        front_matter::write_bool(contents, key, value) is Ok,
        forall|j: int| 0 <= j < key.len() ==> key[j] != '#',
        ({
            let ls = text::lines(contents);
            forall|i: int|
                front_matter::closing(ls, 1) < i < ls.len() ==> text::strip_cr(#[trigger] ls[i])
                    == ls[i]
        }),
    ensures
        ({
            let out = front_matter::write_bool(contents, key, value);
            front_matter::write_bool(out->Ok_0, key, value) == out
        }),
{
    law_last_set_wins(contents, key, value, value);
}

/// Replacing a single character, taken from the front.
proof fn lemma_replace_char(a: char, x: Seq<char>, pat: char, to: Seq<char>)
    ensures
        text::replace(seq![a] + x, seq![pat], to) == (if a == pat {
            to
        } else {
            seq![a]
        }) + text::replace(x, seq![pat], to),
{
    let s = seq![a] + x;
    assert(s.skip(1) =~= x);
    assert(s.take(1) =~= seq![a]);
    assert(seq![a][0] == a && seq![pat][0] == pat);
}

/// Replacing a pair of characters where the text does not begin with the pair.
proof fn lemma_replace_pair_past(a: char, x: Seq<char>, p0: char, p1: char, to: Seq<char>)
    requires
        a != p0 || x.len() == 0 || x[0] != p1,
    ensures
        text::replace(seq![a] + x, seq![p0, p1], to) == seq![a] + text::replace(
            x,
            seq![p0, p1],
            to,
        ),
{
    let s = seq![a] + x;
    let pat = seq![p0, p1];
    if s.len() < 2 {
        assert(x =~= Seq::<char>::empty());
        assert(s =~= seq![a] + text::replace(x, pat, to));
    } else {
        assert(s.take(2)[0] == a && s.take(2)[1] == x[0]);
        assert(pat[0] == p0 && pat[1] == p1);
        assert(s.skip(1) =~= x);
    }
}

/// Replacing a pair of characters that stands at the front.
proof fn lemma_replace_pair_front(x: Seq<char>, p0: char, p1: char, to: Seq<char>)
    ensures
        text::replace(seq![p0, p1] + x, seq![p0, p1], to) == to + text::replace(
            x,
            seq![p0, p1],
            to,
        ),
{
    let s = seq![p0, p1] + x;
    assert(s.take(2) =~= seq![p0, p1]);
    assert(s.skip(2) =~= x);
}

/// One character as it is written inside double quotes.
spec fn escaped_char(c: char) -> Seq<char> {
    if c == '\\' {
        seq!['\\', '\\']
    } else if c == '"' {
        seq!['\\', '"']
    } else {
        seq![c]
    }
}

/// Escaping, taken from the front.
proof fn lemma_escaped_front(c: char, v: Seq<char>)
    ensures
        front_matter::escaped(seq![c] + v) == escaped_char(c) + front_matter::escaped(v),
{
    let back = seq!['\\'];
    let backs = seq!['\\', '\\'];
    let once = text::replace(v, back, backs);
    lemma_replace_char(c, v, '\\', backs);
    if c == '\\' {
        assert(backs + once =~= seq!['\\'] + (seq!['\\'] + once));
        lemma_replace_char('\\', seq!['\\'] + once, '"', seq!['\\', '"']);
        lemma_replace_char('\\', once, '"', seq!['\\', '"']);
        assert(seq!['\\'] + (seq!['\\'] + front_matter::escaped(v)) =~= escaped_char(c)
            + front_matter::escaped(v));
    } else {
        lemma_replace_char(c, once, '"', seq!['\\', '"']);
    }
}

/// The first of the two steps that undo escaping leaves only quotes escaped, and so never
/// begins with a bare quote.
proof fn lemma_unescape_first(v: Seq<char>)
    ensures
        ({
            let m = text::replace(front_matter::escaped(v), seq!['\\', '\\'], seq!['\\']);
            &&& v.len() > 0 ==> m == (if v[0] == '"' {
                seq!['\\', '"']
            } else {
                seq![v[0]]
            }) + text::replace(front_matter::escaped(v.skip(1)), seq!['\\', '\\'], seq!['\\'])
            &&& v.len() == 0 ==> m.len() == 0
            &&& m.len() > 0 ==> m[0] != '"'
        }),
{
    if v.len() > 0 {
        let c = v[0];
        let rest = v.skip(1);
        let x = front_matter::escaped(rest);
        assert(v =~= seq![c] + rest);
        lemma_escaped_front(c, rest);
        if c == '\\' {
            lemma_replace_pair_front(x, '\\', '\\', seq!['\\']);
        } else if c == '"' {
            assert(seq!['\\', '"'] + x =~= seq!['\\'] + (seq!['"'] + x));
            lemma_replace_pair_past('\\', seq!['"'] + x, '\\', '\\', seq!['\\']);
            lemma_replace_pair_past('"', x, '\\', '\\', seq!['\\']);
            let y = text::replace(x, seq!['\\', '\\'], seq!['\\']);
            assert(seq!['\\'] + (seq!['"'] + y) =~= seq!['\\', '"'] + y);
        } else {
            lemma_replace_pair_past(c, x, '\\', '\\', seq!['\\']);
        }
    }
}

/// Undoing the escapes gives the text back.
pub proof fn law_unescape_of_escape(v: Seq<char>)
    ensures
        front_matter::unescaped(front_matter::escaped(v)) == v,
    decreases v.len(),
{
    let m = text::replace(front_matter::escaped(v), seq!['\\', '\\'], seq!['\\']);
    lemma_unescape_first(v);
    if v.len() > 0 {
        let c = v[0];
        let rest = v.skip(1);
        law_unescape_of_escape(rest);
        lemma_unescape_first(rest);
        let n = text::replace(front_matter::escaped(rest), seq!['\\', '\\'], seq!['\\']);
        if c == '"' {
            lemma_replace_pair_front(n, '\\', '"', seq!['"']);
        } else {
            lemma_replace_pair_past(c, n, '\\', '"', seq!['"']);
        }
        assert(v =~= seq![c] + rest);
    } else {
        assert(v =~= Seq::<char>::empty());
    }
}

/// A text as a double-quoted scalar.
pub open spec fn quoted(v: Seq<char>) -> Seq<char> {
    seq!['"'] + front_matter::escaped(v) + seq!['"']
}

/// A double-quoted scalar stands for the text that was quoted.
pub proof fn law_unquote_of_quote(v: Seq<char>)
    ensures
        front_matter::unquoted(quoted(v)) == v,
        text::trim(quoted(v)) == quoted(v),
{
    let q = quoted(v);
    let n = q.len() as int;
    assert(!text::is_white('"'));
    text::lemma_trim_unique(q, 0, n);
    assert(q.subrange(0, n) =~= q);
    assert(q.subrange(1, n - 1) =~= front_matter::escaped(v));
    law_unescape_of_escape(v);
}

/// A text that was written as a double-quoted scalar reads back, where no part of the scalar
/// counts as an inline comment.
pub proof fn law_quoted_value_reads_back(contents: Seq<char>, key: Seq<char>, v: Seq<char>, k: int)
    requires
        front_matter::has_header(text::lines(contents)),
        front_matter::entry_line(text::lines(contents), key) == Some(k),
        text::trim_start(front_matter::raw_value(text::lines(contents)[k])) == quoted(v),
        front_matter::first_comment(quoted(v), 0) == quoted(v).len(),
    ensures
        front_matter::read_string(contents, key) == Some(v),
{
    let q = quoted(v);
    law_unquote_of_quote(v);
    assert(q.take(q.len() as int) =~= q);
    text::lemma_trim_end_unique(q, q.len() as int);
}

/// Escaping brings in nothing but backslashes.
proof fn lemma_escaped_char(v: Seq<char>, c: char)
    requires
        c != '\\',
        !v.contains(c),
    ensures
        !front_matter::escaped(v).contains(c),
    decreases v.len(),
{
    if v.len() > 0 {
        let rest = v.skip(1);
        assert(v =~= seq![v[0]] + rest);
        assert(v[0] != c);
        assert forall|i: int| 0 <= i < rest.len() implies rest[i] != c by {
            assert(rest[i] == v[i + 1]);
        }
        lemma_escaped_front(v[0], rest);
        lemma_escaped_char(rest, c);
        let e = front_matter::escaped(rest);
        assert forall|i: int| 0 <= i < front_matter::escaped(v).len() implies front_matter::escaped(
            v,
        )[i] != c by {
            let n = escaped_char(v[0]).len() as int;
            if i >= n {
                assert(front_matter::escaped(v)[i] == e[i - n]);
            }
        }
    } else {
        assert(v =~= Seq::<char>::empty());
        assert(front_matter::escaped(v) =~= Seq::<char>::empty());
    }
}

/// Nothing that escaping would touch.
spec fn needs_no_escape(p: Seq<char>) -> bool {
    !p.contains('\\') && !p.contains('"')
}

/// An escaped text that begins with something that needs no escape comes from a text that does.
proof fn lemma_escaped_prefix(v: Seq<char>, p: Seq<char>)
    requires
        needs_no_escape(p),
        p.len() <= front_matter::escaped(v).len(),
        front_matter::escaped(v).take(p.len() as int) == p,
    ensures
        p.len() <= v.len(),
        v.take(p.len() as int) == p,
    decreases v.len(),
{
    if p.len() == 0 {
        assert(v.take(0) =~= p);
    } else if v.len() == 0 {
        assert(v =~= Seq::<char>::empty());
        assert(front_matter::escaped(v) =~= Seq::<char>::empty());
    } else {
        let e = front_matter::escaped(v);
        let rest = v.skip(1);
        let q = p.skip(1);
        assert(v =~= seq![v[0]] + rest);
        lemma_escaped_front(v[0], rest);
        assert(e.take(p.len() as int)[0] == p[0]);
        assert(p.contains(p[0]));
        assert(e =~= seq![v[0]] + front_matter::escaped(rest));
        assert forall|c: char| q.contains(c) implies p.contains(c) by {
            let i = choose|i: int| 0 <= i < q.len() && q[i] == c;
            assert(p[i + 1] == c);
        }
        assert(front_matter::escaped(rest).take(q.len() as int) =~= q) by {
            assert forall|i: int| 0 <= i < q.len() implies front_matter::escaped(rest)[i]
                == q[i] by {
                assert(e.take(p.len() as int)[i + 1] == p[i + 1]);
            }
        }
        lemma_escaped_prefix(rest, q);
        assert(v.take(p.len() as int) =~= p) by {
            assert forall|i: int| 0 <= i < p.len() implies v[i] == p[i] by {
                if i > 0 {
                    assert(rest.take(q.len() as int)[i - 1] == q[i - 1]);
                }
            }
        }
    }
}

/// What needs no escape occurs in an escaped text only where it occurs in the text.
pub proof fn lemma_occurs_escaped(v: Seq<char>, p: Seq<char>)
    requires
        p.len() > 0,
        !p.contains('\\'),
        !p.contains('"'),
        !text::occurs(v, p),
    ensures
        !text::occurs(front_matter::escaped(v), p),
    decreases v.len(),
{
    let e = front_matter::escaped(v);
    if v.len() == 0 {
        assert(v =~= Seq::<char>::empty());
        assert(e =~= Seq::<char>::empty());
    } else {
        let rest = v.skip(1);
        let n = escaped_char(v[0]).len() as int;
        assert(v =~= seq![v[0]] + rest);
        lemma_escaped_front(v[0], rest);
        assert forall|i: int| !text::occurs_at(rest, p, i) by {
            if text::occurs_at(rest, p, i) {
                assert(v.subrange(i + 1, i + 1 + p.len()) =~= rest.subrange(i, i + p.len()));
                assert(text::occurs_at(v, p, i + 1));
            }
        }
        lemma_occurs_escaped(rest, p);
        assert forall|i: int| !text::occurs_at(e, p, i) by {
            if text::occurs_at(e, p, i) {
                let found = e.subrange(i, i + p.len());
                assert(found[0] == e[i]);
                assert(p.contains(p[0]));
                if i >= n {
                    assert(front_matter::escaped(rest).subrange(i - n, i - n + p.len()) =~= found);
                    assert(text::occurs_at(front_matter::escaped(rest), p, i - n));
                } else {
                    assert(i == 0 && n == 1);
                    assert(e.take(p.len() as int) =~= found);
                    lemma_escaped_prefix(v, p);
                    assert(v.subrange(0, p.len() as int) =~= v.take(p.len() as int));
                    assert(text::occurs_at(v, p, 0));
                }
            }
        }
    }
}

/// What ends a line.
pub open spec fn is_line_ending(s: Seq<char>) -> bool {
    s == seq!['\n'] || s == seq!['\r', '\n']
}

/// Some lines that open a front matter, and neither close it nor state a value for `key`.
pub open spec fn opens_without(ls: Seq<Seq<char>>, key: Seq<char>) -> bool {
    &&& front_matter::has_header(ls)
    &&& front_matter::footer(ls, 1) == ls.len()
    &&& front_matter::entry_line(ls, key) is None
}

/// A key that can be written in front of a colon.
pub open spec fn is_plain_key(key: Seq<char>) -> bool {
    &&& key.len() > 0
    &&& key[0] != '#'
    &&& !text::is_white(key[0]) && !text::is_white(key.last())
    &&& forall|j: int| 0 <= j < key.len() ==> #[trigger] key[j] != ':' && key[j] != '\n'
}

/// A text that can be written as a double-quoted scalar on one line: it holds no newline, and no
/// part of the scalar counts as an inline comment.
pub open spec fn fits_one_line(v: Seq<char>) -> bool {
    &&& !v.contains('\n')
    &&& front_matter::first_comment(quoted(v), 0) == quoted(v).len()
}

/// A line that states `v` for a key, as a double-quoted scalar.
pub open spec fn quoted_line(key: Seq<char>, v: Seq<char>) -> Seq<char> {
    key + seq![':', ' '] + quoted(v)
}

/// The lines of a file, where one line stands between two parts.
proof fn lemma_lines_around(
    before: Seq<char>,
    line: Seq<char>,
    ending: Seq<char>,
    after: Seq<char>,
)
    requires
        before.len() > 0,
        before.last() == '\n',
        forall|i: int| 0 <= i < line.len() ==> line[i] != '\n',
        text::strip_cr(line) == line,
        is_line_ending(ending),
    ensures
        text::lines(before + line + ending + after) == text::lines(before).push(line) + text::lines(
            after,
        ),
{
    let whole = line + ending;
    let text_of_line = whole.drop_last();
    if ending == seq!['\n'] {
        assert(text_of_line =~= line);
    } else {
        assert(text_of_line =~= line.push('\r'));
        assert(text_of_line.drop_last() =~= line);
    }
    assert(whole =~= text_of_line.push('\n'));
    text::lemma_lines_of_line(text_of_line);
    text::lemma_lines_concat(whole, after);
    text::lemma_lines_concat(before, whole + after);
    assert(before + line + ending + after =~= before + (whole + after));
    assert(text::lines(before) + (seq![line] + text::lines(after)) =~= text::lines(before).push(
        line,
    ) + text::lines(after));
}

/// A line that states something for a key is the one that is read, where no earlier line speaks of
/// the key.
proof fn lemma_line_is_read(
    before: Seq<char>,
    key: Seq<char>,
    raw: Seq<char>,
    ending: Seq<char>,
    after: Seq<char>,
)
    requires
        before.len() > 0,
        before.last() == '\n',
        opens_without(text::lines(before), key),
        is_plain_key(key),
        raw.len() > 0,
        forall|i: int| 0 <= i < raw.len() ==> raw[i] != '\n',
        !text::is_white(raw.last()),
        is_line_ending(ending),
    ensures
        ({
            let line = key + seq![':'] + raw;
            let ls = text::lines(before + line + ending + after);
            let k = text::lines(before).len() as int;
            &&& ls == text::lines(before).push(line) + text::lines(after)
            &&& front_matter::has_header(ls)
            &&& front_matter::entry_line(ls, key) == Some(k)
            &&& front_matter::raw_value(ls[k]) == raw
        }),
{
    let line = key + seq![':'] + raw;
    let c = key.len() as int;
    let contents = before + line + ending + after;
    let top = text::lines(before);
    let k = top.len() as int;
    let ls = text::lines(contents);
    assert forall|i: int| 0 <= i < line.len() implies line[i] != '\n' by {
        if i > c {
            assert(line[i] == raw[i - c - 1]);
        } else if i < c {
            assert(line[i] == key[i]);
        }
    }
    assert(line.last() == raw.last());
    assert(text::is_white('\r'));
    lemma_lines_around(before, line, ending, after);
    assert forall|j: int| 0 <= j < k implies ls[j] == top[j] by {}
    assert(ls[k] == line);
    // What the line states.
    assert(line[0] == key[0] && line[c] == ':');
    assert forall|j: int| 0 <= j < c implies line[j] != ':' by {
        assert(line[j] == key[j]);
    }
    lemma_entry(line, 0, c);
    assert(line.take(c) =~= key);
    text::lemma_trim_unique(key, 0, c);
    assert(key.subrange(0, c) =~= key);
    assert(front_matter::states(line, key));
    assert(line.skip(c + 1) =~= raw);
    // Where it stands.
    lemma_footer(top, 1);
    lemma_footer(ls, 1);
    let f = front_matter::footer(ls, 1);
    assert(f > k) by {
        if f < k {
            assert(ls[f] == top[f]);
        }
    }
    lemma_first_entry(top, key, 1, k);
    lemma_first_entry(ls, key, 1, f);
    let e = front_matter::first_entry(ls, key, 1, f);
    assert(e == k) by {
        if e < k {
            assert(ls[e] == top[e]);
        }
    }
}

/// A front matter that states a text for a key on a line of its own, as a double-quoted scalar, is
/// read so: whatever follows the line, where no earlier line speaks of the key.
pub proof fn law_quoted_line_reads_back(
    before: Seq<char>,
    key: Seq<char>,
    v: Seq<char>,
    ending: Seq<char>,
    after: Seq<char>,
)
    requires
        before.len() > 0,
        before.last() == '\n',
        opens_without(text::lines(before), key),
        is_plain_key(key),
        fits_one_line(v),
        is_line_ending(ending),
    ensures
        front_matter::read_string(before + quoted_line(key, v) + ending + after, key) == Some(v),
        front_matter::footer(text::lines(after), 0) < text::lines(after).len()
            ==> front_matter::delimiters(before + quoted_line(key, v) + ending + after) is Ok,
{
    let q = quoted(v);
    let raw = seq![' '] + q;
    lemma_escaped_char(v, '\n');
    assert forall|i: int| 0 <= i < raw.len() implies raw[i] != '\n' by {
        if 1 < i < raw.len() - 1 {
            assert(raw[i] == front_matter::escaped(v)[i - 2]);
        }
    }
    assert(!text::is_white('"') && text::is_white(' '));
    lemma_line_is_read(before, key, raw, ending, after);
    assert(key + seq![':'] + raw =~= quoted_line(key, v));
    text::lemma_trim_start_unique(raw, 1);
    assert(raw.skip(1) =~= q);
    law_quoted_value_reads_back(
        before + quoted_line(key, v) + ending + after,
        key,
        v,
        text::lines(before).len() as int,
    );
    let below = text::lines(after);
    let ls = text::lines(before).push(quoted_line(key, v)) + below;
    lemma_footer(below, 0);
    lemma_footer(ls, 1);
    let g = front_matter::footer(below, 0);
    if g < below.len() {
        let at = text::lines(before).len() + 1 + g;
        assert(ls[at] == below[g]);
    }
}

/// A front matter that states a boolean for a key on a line of its own is read so, where no earlier
/// line speaks of the key and what follows closes the front matter.
pub proof fn law_bool_line_reads_back(
    before: Seq<char>,
    key: Seq<char>,
    value: bool,
    ending: Seq<char>,
    after: Seq<char>,
)
    requires
        before.len() > 0,
        before.last() == '\n',
        opens_without(text::lines(before), key),
        is_plain_key(key),
        is_line_ending(ending),
        front_matter::footer(text::lines(after), 0) < text::lines(after).len(),
    ensures
        front_matter::read_bool(
            before + (key + seq![':', ' '] + front_matter::bool_text(value)) + ending + after,
            key,
        ) == Ok::<Option<bool>, front_matter::FrontMatterFault>(Some(value)),
{
    let word = front_matter::bool_text(value);
    let raw = seq![' '] + word;
    assert(text::is_white(' '));
    lemma_line_is_read(before, key, raw, ending, after);
    assert(key + seq![':'] + raw =~= key + seq![':', ' '] + word);
    text::lemma_trim_start_unique(raw, 1);
    assert(raw.skip(1) =~= word);
    assert(word + Seq::<char>::empty() =~= word);
    lemma_plain_word(word, Seq::empty());
    assert(text::eq_ignore_case(word, word));
    assert(front_matter::bool_text(false).len() != front_matter::bool_text(true).len());
    let below = text::lines(after);
    let ls = text::lines(before).push(key + seq![':'] + raw) + below;
    let g = front_matter::footer(below, 0);
    lemma_footer(below, 0);
    lemma_footer(ls, 1);
    let at = text::lines(before).len() + 1 + g;
    assert(ls[at] == below[g]);
}

/// A file with a line of its own for a key that no line states, next to the file without it.
proof fn lemma_put_file(contents: Seq<char>, key: Seq<char>, value: bool)
    requires
        front_matter::delimiters(contents) is Ok,
        front_matter::entry_line(text::lines(contents), key) is None,
        is_plain_key(key),
    ensures
        ({
            let ls = text::lines(contents);
            let up = front_matter::updated_lines(ls, key, value, front_matter::stop(ls));
            let g = front_matter::footer(ls, 1);
            let a = text::unlines(up.take(g));
            let b = text::unlines(up.skip(g));
            let ls2 = text::lines(front_matter::updated(contents, key, value));
            let line = front_matter::bool_line(key, value);
            let out = front_matter::put_bool(contents, key, value)->Ok_0;
            &&& 1 <= g < ls2.len()
            &&& a.len() > 0 && a.last() == '\n'
            &&& out == a + line + seq!['\n'] + b
            &&& text::lines(a) == ls2.take(g)
            &&& text::lines(b) == ls2.skip(g)
            &&& text::lines(out) == ls2.take(g).push(line) + ls2.skip(g)
            &&& opens_without(text::lines(a), key)
            &&& front_matter::footer(text::lines(b), 0) == 0
        }),
{
    let ls = text::lines(contents);
    let f = front_matter::stop(ls);
    let up = front_matter::updated_lines(ls, key, value, f);
    let g = front_matter::footer(ls, 1);
    let a = text::unlines(up.take(g));
    let b = text::unlines(up.skip(g));
    let ls2 = text::lines(front_matter::updated(contents, key, value));
    let line = front_matter::bool_line(key, value);
    let out = front_matter::put_bool(contents, key, value)->Ok_0;
    lemma_updated_file(contents, key, value);
    text::lemma_lines_have_no_newline(contents);
    text::lemma_unlines_concat(up.take(g), up.skip(g));
    assert(up.take(g) + up.skip(g) =~= up);
    assert(out =~= a + line + seq!['\n'] + b);
    // The lines of the two parts.
    text::lemma_lines_concat(a, b);
    assert forall|i: int, j: int| 0 <= i < up.take(g).len() && 0 <= j < up.take(g)[i].len() implies
        #[trigger] up.take(g)[i][j] != '\n' by {
        assert(up.take(g)[i] == ls2[i]);
        text::lemma_lines_have_no_newline(text::unlines(up));
        assert(text::lines(text::unlines(up))[i][j] != '\n');
    }
    text::lemma_lines_of_unlines(up.take(g));
    assert(text::lines(a).len() == g);
    assert(text::lines(a) =~= ls2.take(g));
    assert(text::lines(b) =~= ls2.skip(g));
    // The new line.
    assert forall|i: int| 0 <= i < line.len() implies line[i] != '\n' by {
        if i < key.len() {
            assert(line[i] == key[i]);
        }
    }
    assert(text::strip_cr(line) == line);
    lemma_lines_around(a, line, seq!['\n'], b);
    // What the first part states.
    let top = text::lines(a);
    lemma_footer(ls, 1);
    lemma_footer(ls2, 1);
    lemma_footer(top, 1);
    assert(front_matter::footer(top, 1) == g) by {
        let h = front_matter::footer(top, 1);
        if h < g {
            assert(top[h] == ls2[h]);
        }
    }
    lemma_first_entry(ls, key, 1, g);
    lemma_first_entry(top, key, 1, g);
    assert(front_matter::entry_line(top, key) is None) by {
        let e = front_matter::first_entry(top, key, 1, g);
        if e < g {
            lemma_updated_statements(contents, key, value, e);
            assert(top[e] == ls2[e]);
            assert(!front_matter::states(ls[e], key));
        }
    }
    assert(top[0] == ls2[0]);
    assert(text::lines(b)[0] == ls2[g]);
}

/// Reading after setting: once `key` was set to `value`, reading the key gives `value`.
pub proof fn law_put_then_read(contents: Seq<char>, key: Seq<char>, value: bool)
    requires
        front_matter::put_bool(contents, key, value) is Ok,
        is_plain_key(key),
    ensures
        front_matter::read_bool(front_matter::put_bool(contents, key, value)->Ok_0, key) == Ok::<
            Option<bool>,
            front_matter::FrontMatterFault,
        >(Some(value)),
{
    let ls = text::lines(contents);
    lemma_updated_reads(contents, key, value);
    if front_matter::entry_line(ls, key) is None {
        lemma_put_file(contents, key, value);
        let up = front_matter::updated_lines(ls, key, value, front_matter::stop(ls));
        let g = front_matter::footer(ls, 1);
        law_bool_line_reads_back(
            text::unlines(up.take(g)),
            key,
            value,
            seq!['\n'],
            text::unlines(up.skip(g)),
        );
    }
}

/// Setting a key succeeds on every file that can be read or updated otherwise.
pub proof fn law_put_succeeds(contents: Seq<char>, key: Seq<char>, value: bool)
    ensures
        front_matter::read_bool(contents, key) is Ok ==> front_matter::put_bool(
            contents,
            key,
            value,
        ) is Ok,
        front_matter::write_bool(contents, key, value) is Ok ==> front_matter::put_bool(
            contents,
            key,
            value,
        ) is Ok,
{
    if front_matter::write_bool(contents, key, value) is Ok {
        lemma_write_is_update(contents, key, value);
    }
}

/// Setting one key leaves every other key as it was, read as a boolean or as text.
pub proof fn law_put_keeps_other_keys(
    contents: Seq<char>,
    key: Seq<char>,
    value: bool,
    other: Seq<char>,
)
    requires
        front_matter::put_bool(contents, key, value) is Ok,
        is_plain_key(key),
        other != key,
    ensures
        front_matter::read_bool(front_matter::put_bool(contents, key, value)->Ok_0, other)
            == front_matter::read_bool(contents, other),
        front_matter::read_string(front_matter::put_bool(contents, key, value)->Ok_0, other)
            == front_matter::read_string(contents, other),
        front_matter::delimiters(front_matter::put_bool(contents, key, value)->Ok_0) is Ok,
        front_matter::delimiters(contents) is Ok,
{
    lemma_updated_keeps_other_keys(contents, key, value, other);
    lemma_updated_file(contents, key, value);
    if front_matter::entry_line(text::lines(contents), key) is None {
        lemma_put_file(contents, key, value);
        let ls2 = text::lines(front_matter::updated(contents, key, value));
        let g = front_matter::footer(ls2, 1);
        lemma_bool_line_states(key, value);
        lemma_inserted_line(ls2, front_matter::bool_line(key, value), g, other);
    }
}

/// A line for a key states that key, and nothing else.
proof fn lemma_bool_line_states(key: Seq<char>, value: bool)
    requires
        is_plain_key(key),
    ensures
        ({
            let line = front_matter::bool_line(key, value);
            &&& text::trim_end(line) == line
            &&& text::trim(line) != front_matter::dashes()
            &&& line != front_matter::dashes()
            &&& front_matter::entry(line) == Some(
                (key, seq![' '] + front_matter::bool_text(value)),
            )
        }),
{
    let line = front_matter::bool_line(key, value);
    let word = front_matter::bool_text(value);
    let c = key.len() as int;
    assert(line[0] == key[0] && line[c] == ':');
    assert forall|j: int| 0 <= j < c implies line[j] != ':' by {
        assert(line[j] == key[j]);
    }
    assert(line.last() == word.last() && word.last() == 'e');
    lemma_entry(line, 0, c);
    assert(line.take(c) =~= key);
    text::lemma_trim_unique(key, 0, c);
    assert(key.subrange(0, c) =~= key);
    assert(line.skip(c + 1) =~= seq![' '] + word);
    if line == front_matter::dashes() {
        assert(line[c] == '-');
    }
}

/// A line that does not speak of a key, before the line at which reading stops.
proof fn lemma_inserted_line(ls: Seq<Seq<char>>, line: Seq<char>, g: int, other: Seq<char>)
    requires
        front_matter::footer(ls, 1) == g,
        1 <= g < ls.len(),
        text::trim(line) != front_matter::dashes(),
        !front_matter::states(line, other),
    ensures
        ({
            let ls3 = ls.take(g).push(line) + ls.skip(g);
            &&& ls3[0] == ls[0]
            &&& front_matter::footer(ls3, 1) == g + 1
            &&& front_matter::entry_line(ls3, other) == front_matter::entry_line(ls, other)
            &&& front_matter::entry_line(ls, other) matches Some(k) ==> ls3[k] == ls[k]
        }),
{
    let ls3 = ls.take(g).push(line) + ls.skip(g);
    assert(ls3[g] == line);
    assert(ls3[g + 1] == ls[g]);
    assert forall|j: int| 0 <= j < g implies ls3[j] == ls[j] by {}
    lemma_footer(ls, 1);
    lemma_footer(ls3, 1);
    assert(front_matter::footer(ls3, 1) == g + 1) by {
        let h = front_matter::footer(ls3, 1);
        if h < g {
            assert(ls3[h] == ls[h]);
        }
        if h > g + 1 {
            assert(text::trim(ls3[g + 1]) != front_matter::dashes());
        }
    }
    lemma_first_entry(ls, other, 1, g);
    lemma_first_entry(ls3, other, 1, g + 1);
    let e2 = front_matter::first_entry(ls, other, 1, g);
    let e3 = front_matter::first_entry(ls3, other, 1, g + 1);
    if e2 < g {
        assert(ls3[e2] == ls[e2]);
        if e3 < e2 {
            assert(ls3[e3] == ls[e3]);
        }
        assert(e3 == e2);
    } else if e3 < g {
        assert(ls3[e3] == ls[e3]);
    }
}

/// Of two settings of a key the last one counts, and nothing is left of the first: for a key without
/// `#` and a body in which no line ends in a carriage return of its own.
pub proof fn law_last_put_wins(contents: Seq<char>, key: Seq<char>, value: bool, last: bool)
    requires
        front_matter::put_bool(contents, key, value) is Ok,
        is_plain_key(key),
        forall|j: int| 0 <= j < key.len() ==> key[j] != '#',
        ({
            let ls = text::lines(contents);
            forall|i: int|
                front_matter::stop(ls) < i < ls.len() ==> text::strip_cr(#[trigger] ls[i])
                    == ls[i]
        }),
    ensures
        ({
            let mid = front_matter::put_bool(contents, key, value)->Ok_0;
            &&& front_matter::put_bool(mid, key, last) is Ok
            &&& front_matter::put_bool(mid, key, last) == front_matter::put_bool(
                contents,
                key,
                last,
            )
        }),
{
    let ls = text::lines(contents);
    let mid = front_matter::put_bool(contents, key, value)->Ok_0;
    law_put_then_read(contents, key, value);
    assert(front_matter::entry_line(text::lines(mid), key) is Some);
    lemma_updated_twice(contents, key, value, last);
    if front_matter::entry_line(ls, key) is None {
        lemma_put_lines_twice(contents, key, value, last);
        let f = front_matter::stop(ls);
        let g = front_matter::footer(ls, 1);
        let want = front_matter::updated_lines(ls, key, last, f);
        text::lemma_unlines_around(want.take(g), front_matter::bool_line(key, last), want.skip(g));
    }
}

/// The lines of a file with a line of its own for a key, after the key was set anew.
proof fn lemma_put_lines_twice(contents: Seq<char>, key: Seq<char>, value: bool, last: bool)
    requires
        front_matter::put_bool(contents, key, value) is Ok,
        front_matter::entry_line(text::lines(contents), key) is None,
        is_plain_key(key),
        forall|j: int| 0 <= j < key.len() ==> key[j] != '#',
        ({
            let ls = text::lines(contents);
            forall|i: int|
                front_matter::stop(ls) < i < ls.len() ==> text::strip_cr(#[trigger] ls[i])
                    == ls[i]
        }),
    ensures
        ({
            let ls = text::lines(contents);
            let ls3 = text::lines(front_matter::put_bool(contents, key, value)->Ok_0);
            let f = front_matter::stop(ls);
            let g = front_matter::footer(ls, 1);
            let want = front_matter::updated_lines(ls, key, last, f);
            &&& front_matter::has_header(ls3)
            &&& front_matter::stop(ls3) == f + 1
            &&& f + 1 < ls3.len()
            &&& front_matter::updated_lines(ls3, key, last, f + 1) == want.take(g) + seq![
                front_matter::bool_line(key, last),
            ] + want.skip(g)
        }),
{
    let ls = text::lines(contents);
    let f = front_matter::stop(ls);
    let g = front_matter::footer(ls, 1);
    let line = front_matter::bool_line(key, value);
    let up = front_matter::updated_lines(ls, key, value, f);
    let want = front_matter::updated_lines(ls, key, last, f);
    let ls2 = text::lines(front_matter::updated(contents, key, value));
    let ls3 = text::lines(front_matter::put_bool(contents, key, value)->Ok_0);
    lemma_updated_file(contents, key, value);
    lemma_put_file(contents, key, value);
    lemma_bool_line_updated(key, value, last);
    lemma_bool_line_states(key, value);
    assert(ls3.len() == ls.len() + 1);
    assert forall|j: int| 0 <= j < g implies ls3[j] == ls2[j] by {}
    assert(ls3[g] == line);
    assert forall|j: int| g < j < ls3.len() implies ls3[j] == ls2[j - 1] by {}
    assert(ls3[0] == ls2[0]);
    // Where the update stops.
    let h = front_matter::closing(ls2, 1);
    lemma_closing(ls2, 1);
    lemma_footer(ls2, 1);
    assert(g <= h) by {
        if h < g {
            text::lemma_trim_of_trim_end(ls2[h]);
            lemma_dashes();
        }
    }
    assert forall|j: int| 1 <= j < h + 1 implies text::trim_end(#[trigger] ls3[j])
        != front_matter::dashes() by {
        if j < g {
            assert(ls3[j] == ls2[j]);
        } else if j > g {
            assert(ls3[j] == ls2[j - 1]);
        }
    }
    lemma_closing_unique(ls3, h + 1);
    lemma_inserted_line(ls2, line, g, seq![]);
    let up3 = front_matter::updated_lines(ls3, key, last, f + 1);
    let joined = want.take(g) + seq![front_matter::bool_line(key, last)] + want.skip(g);
    assert forall|i: int| 0 <= i < up3.len() implies #[trigger] up3[i] == joined[i] by {
        if i != g {
            let j = if i < g {
                i
            } else {
                i - 1
            };
            assert(joined[i] == want[j]);
            assert(ls3[i] == ls2[j]);
            lemma_kept_or_updated_twice(contents, key, value, last, j);
        }
    }
    assert(up3 =~= joined);
}

/// One line of an updated file, updated again.
proof fn lemma_kept_or_updated_twice(
    contents: Seq<char>,
    key: Seq<char>,
    value: bool,
    last: bool,
    j: int,
)
    requires
        front_matter::delimiters(contents) is Ok,
        forall|j: int| 0 <= j < key.len() ==> key[j] != '#',
        0 <= j < text::lines(contents).len(),
        j > front_matter::stop(text::lines(contents)) ==> text::strip_cr(
            text::lines(contents)[j],
        ) == text::lines(contents)[j],
    ensures
        ({
            let ls = text::lines(contents);
            let f = front_matter::stop(ls);
            let ls2 = text::lines(front_matter::updated(contents, key, value));
            (if j == 0 || j == f {
                text::trim_end(ls2[j])
            } else if j < f {
                front_matter::updated_line(ls2[j], key, last)
            } else {
                ls2[j]
            }) == front_matter::updated_lines(ls, key, last, f)[j]
        }),
{
    let ls = text::lines(contents);
    let f = front_matter::stop(ls);
    let up = front_matter::updated_lines(ls, key, value, f);
    let ls2 = text::lines(front_matter::updated(contents, key, value));
    lemma_updated_file(contents, key, value);
    text::lemma_lines_have_no_newline(contents);
    assert forall|k: int| 0 <= k < ls[j].len() implies ls[j][k] != '\n' by {
        assert(text::lines(contents)[j][k] != '\n');
    }
    if j == 0 || j == f {
        text::lemma_trim_of_trim_end(ls[j]);
        assert(ls2[j] == up[j]);
    } else if j < f {
        assert(ls2[j] == up[j]);
        lemma_updated_line_twice(ls[j], key, value, last);
    } else {
        assert(ls2[j] == text::strip_cr(ls[j]));
    }
}

/// Setting a line of its own anew.
proof fn lemma_bool_line_updated(key: Seq<char>, value: bool, last: bool)
    requires
        is_plain_key(key),
        forall|j: int| 0 <= j < key.len() ==> key[j] != '#',
    ensures
        front_matter::updated_line(front_matter::bool_line(key, value), key, last)
            == front_matter::bool_line(key, last),
{
    let line = front_matter::bool_line(key, value);
    let word = front_matter::bool_text(value);
    let c = key.len() as int;
    lemma_bool_line_states(key, value);
    assert forall|j: int| 0 <= j < c implies line[j] != ':' by {
        assert(line[j] == key[j]);
    }
    text::lemma_find_unique(line, ':', c);
    assert(line.take(c) =~= key);
    text::lemma_trim_unique(key, 0, c);
    assert(key.subrange(0, c) =~= key);
    assert forall|j: int| 0 <= j < line.len() implies line[j] != '#' by {
        if j < c {
            assert(line[j] == key[j]);
        } else if j >= c + 2 {
            assert(line[j] == word[j - c - 2]);
        }
    }
    text::lemma_find_unique(line, '#', line.len() as int);
    assert(line.take(c + 1).push(' ') + front_matter::bool_text(last) =~= front_matter::bool_line(
        key,
        last,
    ));
}

/// What a line of a file becomes when a key is set: past the front matter it stays as it is, and in
/// it, unless it sets the key, it loses nothing but white space at its end.
pub open spec fn is_kept(
    line: Seq<char>,
    new: Seq<char>,
    key: Seq<char>,
    i: int,
    stop: int,
) -> bool {
    &&& i > stop ==> new == line
    &&& i == 0 || i == stop || (i < stop && !front_matter::sets(line, key)) ==> new
        == text::trim_end(line)
    &&& 0 < i < stop && front_matter::sets(line, key) ==> new.len() > text::find(
        text::trim_end(line),
        ':',
    ) && new.take(text::find(text::trim_end(line), ':') + 1) == text::trim_end(line).take(
        text::find(text::trim_end(line), ':') + 1,
    )
}

/// Setting a key keeps every line of the file, in order: those after the front matter as they are,
/// those in it but for white space at their end and for the value of the key; a line is added, for
/// the key alone, exactly if no line that is read states it.
pub proof fn law_put_keeps_the_lines(contents: Seq<char>, key: Seq<char>, value: bool) -> (out: Seq<
    Seq<char>,
>)
    requires
        front_matter::delimiters(contents) is Ok,
    ensures
        front_matter::put_bool(contents, key, value) == Ok::<
            Seq<char>,
            front_matter::FrontMatterFault,
        >(text::unlines(out)),
        ({
            let ls = text::lines(contents);
            let f = front_matter::stop(ls);
            let g = front_matter::footer(ls, 1);
            &&& 1 <= g <= f < ls.len()
            &&& front_matter::entry_line(ls, key) is Some ==> {
                &&& out.len() == ls.len()
                &&& forall|i: int|
                    0 <= i < ls.len() ==> is_kept(#[trigger] ls[i], out[i], key, i, f)
            }
            &&& front_matter::entry_line(ls, key) is None ==> {
                &&& out.len() == ls.len() + 1
                &&& out[g] == key + seq![':', ' '] + front_matter::bool_text(value)
                &&& forall|i: int|
                    0 <= i < g ==> is_kept(#[trigger] ls[i], out[i], key, i, f)
                &&& forall|i: int|
                    g <= i < ls.len() ==> is_kept(#[trigger] ls[i], out[i + 1], key, i, f)
            }
        }),
{
    let ls = text::lines(contents);
    let f = front_matter::stop(ls);
    let g = front_matter::footer(ls, 1);
    let up = front_matter::updated_lines(ls, key, value, f);
    lemma_updated_file(contents, key, value);
    assert forall|i: int| 0 <= i < ls.len() implies is_kept(#[trigger] ls[i], up[i], key, i, f) by {
        if 0 < i < f && front_matter::sets(ls[i], key) {
            let t = text::trim_end(ls[i]);
            let n = text::find(t, ':') + 1;
            text::lemma_find(t, ':');
            assert(up[i].take(n) =~= t.take(n));
        }
    }
    if front_matter::entry_line(ls, key) is Some {
        up
    } else {
        let line = front_matter::bool_line(key, value);
        let out = up.take(g).push(line) + up.skip(g);
        text::lemma_unlines_around(up.take(g), line, up.skip(g));
        assert(up.take(g) + seq![line] + up.skip(g) =~= out);
        assert forall|i: int| 0 <= i < g implies is_kept(#[trigger] ls[i], out[i], key, i, f) by {
            assert(out[i] == up[i]);
        }
        assert forall|i: int| g <= i < ls.len() implies is_kept(
            #[trigger] ls[i],
            out[i + 1],
            key,
            i,
            f,
        ) by {
            assert(out[i + 1] == up[i]);
        }
        out
    }
}

/// The line that sets a key keeps its key and what stands before it, and its comment; the value
/// between them is the new one.
pub proof fn law_value_is_replaced(
    head: Seq<char>,
    previous: Seq<char>,
    comment: Seq<char>,
    key: Seq<char>,
    value: bool,
)
    requires
        text::trim(head) == key,
        forall|j: int| 0 <= j < head.len() ==> head[j] != ':' && head[j] != '#',
        forall|j: int| 0 <= j < previous.len() ==> previous[j] != '#',
        comment.len() > 0 && comment[0] == '#' && !text::is_white(comment.last()),
    ensures
        previous.len() == 0 || !text::is_white(previous.last()) ==> front_matter::updated_line(
            head.push(':') + previous,
            key,
            value,
        ) == head + seq![':', ' '] + front_matter::bool_text(value),
        front_matter::updated_line(head.push(':') + previous + comment, key, value) == head + seq![
            ':',
            ' ',
        ] + front_matter::bool_text(value) + seq![' '] + comment,
{
    let n = head.len() as int;
    let bare = head.push(':') + previous;
    let full = bare + comment;
    assert(!text::is_white(':'));
    if previous.len() == 0 || !text::is_white(previous.last()) {
        text::lemma_trim_end_unique(bare, bare.len() as int);
    }
    text::lemma_trim_end_unique(full, full.len() as int);
    assert(bare.take(bare.len() as int) =~= bare);
    assert(full.take(full.len() as int) =~= full);
    assert(bare[n] == ':' && full[n] == ':');
    assert forall|j: int| 0 <= j < n implies bare[j] != ':' && full[j] != ':' by {
        assert(bare[j] == head[j] && full[j] == head[j]);
    }
    text::lemma_find_unique(bare, ':', n);
    text::lemma_find_unique(full, ':', n);
    assert(bare.take(n) =~= head && full.take(n) =~= head);
    assert(bare.take(n + 1) =~= head.push(':') && full.take(n + 1) =~= head.push(':'));
    assert forall|j: int| 0 <= j < bare.len() implies bare[j] != '#' && full[j] != '#' by {
        if j < n {
            assert(bare[j] == head[j] && full[j] == head[j]);
        } else if j > n {
            assert(bare[j] == previous[j - n - 1] && full[j] == previous[j - n - 1]);
        }
    }
    text::lemma_find_unique(bare, '#', bare.len() as int);
    assert(full[bare.len() as int] == comment[0]);
    text::lemma_find_unique(full, '#', bare.len() as int);
    assert(full.skip(bare.len() as int) =~= comment);
    let word = front_matter::bool_text(value);
    assert(head.push(':').push(' ') + word =~= head + seq![':', ' '] + word);
    assert((head.push(':').push(' ') + word).push(' ') + comment =~= head + seq![':', ' '] + word
        + seq![' '] + comment);
    if previous.len() == 0 || !text::is_white(previous.last()) {
        assert(front_matter::sets(bare, key));
    }
    assert(front_matter::sets(full, key));
}

/// A value without quotes and comments: what is written is what is read.
pub open spec fn is_plain_value(v: Seq<char>) -> bool {
    &&& v.len() > 0
    &&& !text::is_white(v[0]) && !text::is_white(v.last())
    &&& forall|j: int| 0 <= j < v.len() ==> #[trigger] v[j] != '"' && v[j] != '\'' && v[j] != '\n'
    &&& forall|j: int|
        0 <= j < v.len() && #[trigger] v[j] == '#' ==> j > 0 && !text::is_white(v[j - 1])
}

/// A plain value is read as it is written; what follows it behind white space and `#` is a comment,
/// and is not read.
pub proof fn law_plain_value(v: Seq<char>, comment: Seq<char>)
    requires
        is_plain_value(v),
    ensures
        front_matter::unquoted(v) == v,
        front_matter::scalar(seq![' '] + v) == v,
        front_matter::scalar(seq![' '] + v + seq![' ', '#'] + comment) == v,
{
    let n = v.len() as int;
    let rest = seq![' ', '#'] + comment;
    assert(text::is_white(' '));
    text::lemma_trim_unique(v, 0, n);
    assert(v.subrange(0, n) =~= v);
    assert(v[0] != '"' && v[0] != '\'');
    let a = seq![' '] + v;
    text::lemma_trim_start_unique(a, 1);
    assert(a.skip(1) =~= v);
    let b = seq![' '] + v + seq![' ', '#'] + comment;
    assert(b[1] == v[0]);
    text::lemma_trim_start_unique(b, 1);
    let w = v + rest;
    assert(b.skip(1) =~= w);
    assert forall|j: int| 0 <= j < n implies !front_matter::comment_at(v, j) by {
        if v[j] == '#' {
            assert(j > 0 && !text::is_white(v[j - 1]));
        }
    }
    lemma_first_comment(v, 0, n);
    assert(v.take(n) =~= v);
    text::lemma_trim_end_unique(v, n);
    assert forall|j: int| 0 <= j < n + 1 implies !front_matter::comment_at(w, j) by {
        if j < n && w[j] == '#' {
            assert(w[j] == v[j]);
            assert(j > 0 && !text::is_white(v[j - 1]));
            assert(w[j - 1] == v[j - 1]);
        }
    }
    let before = w.take(n + 1);
    assert forall|j: int| 0 <= j < before.len() implies before[j] != '"' && before[j] != '\'' by {
        if j < n {
            assert(before[j] == v[j]);
        }
    }
    lemma_no_quotes(before);
    assert(w[n + 1] == rest[1] && w[n] == rest[0]);
    assert(front_matter::comment_at(w, n + 1));
    lemma_first_comment(w, 0, n + 1);
    assert(before.take(n) =~= v);
    assert(before[n - 1] == v[n - 1]);
    assert(before[n] == ' ');
    text::lemma_trim_end_unique(before, n);
}

/// A front matter that states a plain value for a key on a line of its own is read so, whatever
/// comment stands behind it, and whatever follows the line, where no earlier line speaks of the
/// key.
pub proof fn law_plain_line_reads_back(
    before: Seq<char>,
    key: Seq<char>,
    v: Seq<char>,
    comment: Seq<char>,
    ending: Seq<char>,
    after: Seq<char>,
)
    requires
        before.len() > 0,
        before.last() == '\n',
        opens_without(text::lines(before), key),
        is_plain_key(key),
        is_plain_value(v),
        comment.len() > 0 && !text::is_white(comment.last()) && !comment.contains('\n'),
        is_line_ending(ending),
    ensures
        front_matter::read_string(before + (key + seq![':', ' '] + v) + ending + after, key)
            == Some(v),
        front_matter::read_string(
            before + (key + seq![':', ' '] + v + seq![' ', '#'] + comment) + ending + after,
            key,
        ) == Some(v),
{
    law_plain_value(v, comment);
    let a = seq![' '] + v;
    let b = seq![' '] + v + seq![' ', '#'] + comment;
    assert forall|i: int| 0 <= i < a.len() implies a[i] != '\n' by {
        if i > 0 {
            assert(a[i] == v[i - 1]);
        }
    }
    assert forall|i: int| 0 <= i < b.len() implies b[i] != '\n' by {
        if 0 < i <= v.len() {
            assert(b[i] == v[i - 1]);
        } else if i > v.len() + 2 {
            assert(b[i] == comment[i - v.len() - 3]);
        }
    }
    assert(a.last() == v.last());
    assert(b.last() == comment.last());
    lemma_line_is_read(before, key, a, ending, after);
    lemma_line_is_read(before, key, b, ending, after);
    assert(key + seq![':'] + a =~= key + seq![':', ' '] + v);
    assert(key + seq![':'] + b =~= key + seq![':', ' '] + v + seq![' ', '#'] + comment);
}

/// A text as a single-quoted scalar.
pub open spec fn single_quoted(v: Seq<char>) -> Seq<char> {
    seq!['\''] + text::replace(v, seq!['\''], seq!['\'', '\'']) + seq!['\'']
}

proof fn lemma_undoubled(v: Seq<char>)
    ensures
        text::replace(
            text::replace(v, seq!['\''], seq!['\'', '\'']),
            seq!['\'', '\''],
            seq!['\''],
        ) == v,
    decreases v.len(),
{
    let d = text::replace(v, seq!['\''], seq!['\'', '\'']);
    if v.len() == 0 {
        assert(v =~= Seq::<char>::empty());
        assert(d =~= Seq::<char>::empty());
    } else {
        let c = v[0];
        let rest = v.skip(1);
        let e = text::replace(rest, seq!['\''], seq!['\'', '\'']);
        lemma_undoubled(rest);
        assert(v =~= seq![c] + rest);
        lemma_replace_char(c, rest, '\'', seq!['\'', '\'']);
        if c == '\'' {
            lemma_replace_pair_front(e, '\'', '\'', seq!['\'']);
        } else {
            lemma_replace_pair_past(c, e, '\'', '\'', seq!['\'']);
        }
    }
}

/// A single-quoted scalar stands for the text that was quoted.
pub proof fn law_unquote_of_single_quote(v: Seq<char>)
    ensures
        front_matter::unquoted(single_quoted(v)) == v,
{
    let q = single_quoted(v);
    let n = q.len() as int;
    assert(!text::is_white('\''));
    text::lemma_trim_unique(q, 0, n);
    assert(q.subrange(0, n) =~= q);
    assert(q.subrange(1, n - 1) =~= text::replace(v, seq!['\''], seq!['\'', '\'']));
    lemma_undoubled(v);
}

/// What is said of a value that is to be a boolean: it is one exactly if it spells one, in whatever
/// case and quotes; a value that is missing, or that spells something else, is a fault that names
/// the key, and what the value spells.
pub proof fn law_bool_of_a_value(key: Seq<char>, v: Seq<char>)
    ensures
        ({
            let word = text::trim(front_matter::unquoted(front_matter::scalar(v)));
            let given = front_matter::scalar(v).len() > 0;
            &&& front_matter::bool_of(key, v) == Ok::<bool, front_matter::FrontMatterFault>(true)
                <==> given && text::eq_ignore_case(word, "true"@)
            &&& front_matter::bool_of(key, v) == Ok::<bool, front_matter::FrontMatterFault>(false)
                <==> given && text::eq_ignore_case(word, "false"@)
            &&& !given <==> front_matter::bool_of(key, v) == Err::<
                bool,
                front_matter::FrontMatterFault,
            >(front_matter::FrontMatterFault::EmptyValue { key })
            &&& given && !text::eq_ignore_case(word, "true"@) && !text::eq_ignore_case(
                word,
                "false"@,
            ) ==> front_matter::bool_of(key, v) == Err::<bool, front_matter::FrontMatterFault>(
                front_matter::FrontMatterFault::InvalidBool { key, value: word },
            )
        }),
{
    reveal_strlit("true");
    reveal_strlit("false");
    assert("true"@ =~= front_matter::bool_text(true));
    assert("false"@ =~= front_matter::bool_text(false));
}

/// The faults of a file: it has no line, or does not begin with the delimiter, or no other line is
/// one; and else it has none. A boolean is read from a file without a fault alone.
pub proof fn law_faults_of_a_file(contents: Seq<char>, key: Seq<char>, value: bool)
    ensures
        ({
            let ls = text::lines(contents);
            let opened = ls.len() > 0 && text::trim_end(ls[0]) == "---"@;
            let closed = exists|i: int|
                1 <= i < ls.len() && text::trim(#[trigger] ls[i]) == "---"@;
            let good = front_matter::delimiters(contents);
            &&& good is Ok <==> opened && closed
            &&& good == Err::<(), front_matter::FrontMatterFault>(
                front_matter::FrontMatterFault::Empty,
            ) <==> ls.len() == 0
            &&& good == Err::<(), front_matter::FrontMatterFault>(
                front_matter::FrontMatterFault::MissingHeader,
            ) <==> ls.len() > 0 && !opened
            &&& good == Err::<(), front_matter::FrontMatterFault>(
                front_matter::FrontMatterFault::MissingFooter,
            ) <==> opened && !closed
            &&& front_matter::read_bool(contents, key) is Ok ==> good is Ok
            &&& front_matter::put_bool(contents, key, value) is Ok <==> good is Ok
            &&& front_matter::read_string(contents, key) is Some ==> opened
            &&& good matches Err(e) ==> front_matter::put_bool(contents, key, value) == Err::<
                Seq<char>,
                front_matter::FrontMatterFault,
            >(e)
        }),
{
    reveal_strlit("---");
    assert("---"@ =~= front_matter::dashes());
    let ls = text::lines(contents);
    if ls.len() > 0 {
        lemma_footer(ls, 1);
    }
}

/// A key that no line of the front matter states is not read, as a text or as a boolean; and what
/// stands after the front matter does not count.
pub proof fn law_missing_key(contents: Seq<char>, key: Seq<char>)
    requires
        front_matter::delimiters(contents) is Ok,
        ({
            let ls = text::lines(contents);
            forall|i: int|
                1 <= i < front_matter::footer(ls, 1) ==> !front_matter::states(
                    #[trigger] ls[i],
                    key,
                )
        }),
    ensures
        front_matter::read_bool(contents, key) == Ok::<
            Option<bool>,
            front_matter::FrontMatterFault,
        >(None),
        front_matter::read_string(contents, key) is None,
{
    let ls = text::lines(contents);
    lemma_footer(ls, 1);
    lemma_first_entry(ls, key, 1, front_matter::footer(ls, 1));
}

/// A line that is empty, or a comment, or without a colon, states nothing.
pub proof fn law_lines_that_state_nothing(line: Seq<char>, key: Seq<char>)
    requires
        text::trim(line).len() == 0 || text::trim(line)[0] == '#' || forall|j: int|
            0 <= j < text::trim(line).len() ==> text::trim(line)[j] != ':',
    ensures
        !front_matter::states(line, key),
{
    text::lemma_find(text::trim(line), ':');
}

/// The words of the faults; those of a key name it, and the value that is no boolean.
pub proof fn law_fault_messages(key: Seq<char>, value: Seq<char>)
    ensures
        front_matter::fault_message(front_matter::FrontMatterFault::Empty)
            == "progress file is empty"@,
        front_matter::fault_message(front_matter::FrontMatterFault::MissingHeader)
            == "progress file missing YAML front matter delimiter `---` at top"@,
        front_matter::fault_message(front_matter::FrontMatterFault::MissingFooter)
            == "progress file YAML front matter missing closing `---`"@,
        front_matter::fault_message(front_matter::FrontMatterFault::EmptyValue { key })
            == "progress file front matter key `"@ + key + "` has an empty value"@,
        front_matter::fault_message(front_matter::FrontMatterFault::InvalidBool { key, value })
            == "progress file front matter key `"@ + key + "` has invalid boolean value `"@ + value
            + "`"@,
{
}

/// A text in double quotes, without such a quote in it, is shielded: nothing in it is a comment.
pub proof fn law_quotes_shield_from_comments(v: Seq<char>)
    requires
        !v.contains('"'),
        !v.contains('\n'),
    ensures
        fits_one_line(v),
{
    let q = quoted(v);
    let n = q.len() as int;
    let e = front_matter::escaped(v);
    lemma_escaped_char(v, '"');
    assert forall|j: int| 0 <= j < n implies !front_matter::comment_at(q, j) by {
        if 1 <= j < n - 1 {
            lemma_within_quotes(e, j);
        }
    }
    lemma_first_comment(q, 0, n);
}

/// Between two double quotes without another one, everything is quoted.
proof fn lemma_within_quotes(e: Seq<char>, j: int)
    requires
        !e.contains('"'),
        1 <= j <= e.len() + 1,
    ensures
        front_matter::quote_state((seq!['"'] + e + seq!['"']).take(j)) == (false, true),
    decreases j,
{
    let q = seq!['"'] + e + seq!['"'];
    let t = q.take(j);
    assert(t.drop_last() =~= q.take(j - 1));
    if j == 1 {
        assert(q.take(0) =~= Seq::<char>::empty());
        assert(front_matter::quote_state(q.take(0)) == (false, false));
        assert(t.last() == '"');
    } else {
        lemma_within_quotes(e, j - 1);
        assert(t.last() == e[j - 2]);
        assert(e.contains(e[j - 2]));
    }
}

/// The front matter is closed, for a reader, by the first line after the top one that is the
/// delimiter but for white space around it. An update stops at the first that is the delimiter but
/// for white space after it, if there is one, and else where a reader does.
pub proof fn law_where_the_front_matter_ends(ls: Seq<Seq<char>>, k: int)
    requires
        1 <= k < ls.len(),
    ensures
        text::trim(ls[k]) == "---"@ && (forall|j: int|
            1 <= j < k ==> text::trim(#[trigger] ls[j]) != "---"@) <==> front_matter::footer(ls, 1)
            == k,
        text::trim_end(ls[k]) == "---"@ && (forall|j: int|
            1 <= j < k ==> text::trim_end(#[trigger] ls[j]) != "---"@) ==> front_matter::stop(ls)
            == k,
        (forall|j: int| 1 <= j < ls.len() ==> text::trim_end(#[trigger] ls[j]) != "---"@)
            ==> front_matter::stop(ls) == front_matter::footer(ls, 1),
{
    reveal_strlit("---");
    assert("---"@ =~= front_matter::dashes());
    lemma_footer(ls, 1);
    lemma_closing(ls, 1);
}

/// The line from which a key is read is the first line of the front matter that states it.
pub proof fn law_first_statement_counts(ls: Seq<Seq<char>>, key: Seq<char>, k: int)
    requires
        ls.len() > 0,
    ensures
        front_matter::entry_line(ls, key) == Some(k) <==> {
            &&& 1 <= k < front_matter::footer(ls, 1)
            &&& front_matter::states(ls[k], key)
            &&& forall|j: int| 1 <= j < k ==> !front_matter::states(#[trigger] ls[j], key)
        },
{
    lemma_footer(ls, 1);
    lemma_first_entry(ls, key, 1, front_matter::footer(ls, 1));
}

/// Escaping goes by characters: a backslash and a double quote get a backslash before them, and
/// nothing else changes.
pub proof fn law_escape_by_characters(c: char, v: Seq<char>)
    ensures
        front_matter::escaped(Seq::empty()) == Seq::<char>::empty(),
        c == '\\' || c == '"' ==> front_matter::escaped(seq![c] + v) == seq!['\\', c]
            + front_matter::escaped(v),
        c != '\\' && c != '"' ==> front_matter::escaped(seq![c] + v) == seq![c]
            + front_matter::escaped(v),
{
    lemma_escaped_front(c, v);
    let none = Seq::<char>::empty();
    assert(text::replace(none, seq!['\\'], seq!['\\', '\\']) =~= none);
    assert(front_matter::escaped(none) =~= none);
}

/// Undoing the escapes goes by characters, too: a backslash before a double quote or before another
/// backslash is taken off, and any other stays; two backslashes before a double quote count as one
/// that escapes it.
pub proof fn law_unescape_by_characters(c: char, v: Seq<char>)
    requires
        c != '\\' && c != '"',
    ensures
        front_matter::unescaped(Seq::empty()) == Seq::<char>::empty(),
        front_matter::unescaped(seq![c] + v) == seq![c] + front_matter::unescaped(v),
        front_matter::unescaped(seq!['"'] + v) == seq!['"'] + front_matter::unescaped(v),
        front_matter::unescaped(seq!['\\', c] + v) == seq!['\\', c] + front_matter::unescaped(v),
        front_matter::unescaped(seq!['\\', '"'] + v) == seq!['"'] + front_matter::unescaped(v),
        v.len() == 0 || v[0] != '"' ==> front_matter::unescaped(seq!['\\', '\\'] + v) == seq!['\\']
            + front_matter::unescaped(v),
        front_matter::unescaped(seq!['\\', '\\', '"'] + v) == seq!['"'] + front_matter::unescaped(
            v,
        ),
{
    let back = seq!['\\'];
    let quote = seq!['"'];
    let none = Seq::<char>::empty();
    assert(text::replace(none, seq!['\\', '\\'], back) =~= none);
    assert(text::replace(none, seq!['\\', '"'], quote) =~= none);
    let once = text::replace(v, seq!['\\', '\\'], back);
    lemma_replace_pair_past(c, v, '\\', '\\', back);
    lemma_replace_pair_past(c, once, '\\', '"', quote);
    lemma_replace_pair_past('"', v, '\\', '\\', back);
    lemma_replace_pair_past('"', once, '\\', '"', quote);
    assert(seq!['\\', c] + v =~= seq!['\\'] + (seq![c] + v));
    lemma_replace_pair_past('\\', seq![c] + v, '\\', '\\', back);
    lemma_replace_pair_past('\\', seq![c] + once, '\\', '"', quote);
    assert(seq!['\\'] + (seq![c] + front_matter::unescaped(v)) =~= seq!['\\', c]
        + front_matter::unescaped(v));
    assert(seq!['\\', '"'] + v =~= seq!['\\'] + (seq!['"'] + v));
    lemma_replace_pair_past('\\', seq!['"'] + v, '\\', '\\', back);
    assert(seq!['\\'] + (seq!['"'] + once) =~= seq!['\\', '"'] + once);
    lemma_replace_pair_front(once, '\\', '"', quote);
    lemma_replace_pair_front(v, '\\', '\\', back);
    if v.len() == 0 || v[0] != '"' {
        assert(once.len() == 0 || once[0] != '"') by {
            lemma_first_after_replace(v);
        }
        lemma_replace_pair_past('\\', once, '\\', '"', quote);
    }
    assert(seq!['\\', '\\', '"'] + v =~= seq!['\\', '\\'] + (seq!['"'] + v));
    lemma_replace_pair_front(seq!['"'] + v, '\\', '\\', back);
}

proof fn lemma_first_after_replace(v: Seq<char>)
    requires
        v.len() == 0 || v[0] != '"',
    ensures
        ({
            let once = text::replace(v, seq!['\\', '\\'], seq!['\\']);
            once.len() == 0 || once[0] != '"'
        }),
{
}

/// A value in quotes is read without them, a single quote that is doubled in it as one; any other
/// value is read as it is, without white space around it.
pub proof fn law_unquoted(x: Seq<char>, s: Seq<char>)
    ensures
        front_matter::unquoted(seq!['"'] + x + seq!['"']) == front_matter::unescaped(x),
        front_matter::unquoted(seq!['\''] + x + seq!['\'']) == text::replace(
            x,
            seq!['\'', '\''],
            seq!['\''],
        ),
        ({
            let t = text::trim(s);
            t.len() < 2 || t[0] != t.last() || (t[0] != '"' && t[0] != '\'')
                ==> front_matter::unquoted(s) == t
        }),
{
    let q = seq!['"'] + x + seq!['"'];
    let p = seq!['\''] + x + seq!['\''];
    let n = q.len() as int;
    assert(!text::is_white('\'') && !text::is_white('"'));
    text::lemma_trim_unique(q, 0, n);
    text::lemma_trim_unique(p, 0, n);
    assert(q.subrange(0, n) =~= q && p.subrange(0, n) =~= p);
    assert(q.subrange(1, n - 1) =~= x && p.subrange(1, n - 1) =~= x);
}

/// A quote opens and closes, unless it stands inside quotes of the other kind; and a comment is an
/// unquoted `#` at the beginning or behind white space.
pub proof fn law_quotes_open_and_close(s: Seq<char>, c: char, i: int)
    ensures
        front_matter::quote_state(Seq::empty()) == (false, false),
        ({
            let (single, double) = front_matter::quote_state(s);
            &&& !double ==> front_matter::quote_state(s.push('\'')) == (!single, false)
            &&& double ==> front_matter::quote_state(s.push('\'')) == (single, true)
            &&& !single ==> front_matter::quote_state(s.push('"')) == (false, !double)
            &&& single ==> front_matter::quote_state(s.push('"')) == (true, double)
            &&& c != '"' && c != '\'' ==> front_matter::quote_state(s.push(c)) == (single, double)
        }),
        0 <= i < s.len() ==> (front_matter::comment_at(s, i) <==> {
            &&& s[i] == '#'
            &&& !front_matter::quote_state(s.take(i)).0
            &&& !front_matter::quote_state(s.take(i)).1
            &&& i == 0 || text::is_white(s[i - 1])
        }),
{
    assert(s.push('\'').drop_last() =~= s);
    assert(s.push('"').drop_last() =~= s);
    assert(s.push(c).drop_last() =~= s);
}

/// A value ends before its first comment and the white space in front of that; without a comment it
/// is whole.
pub proof fn law_comment_is_cut_off(s: Seq<char>, n: int)
    requires
        0 <= n <= s.len(),
        n < s.len() ==> front_matter::comment_at(s, n),
        forall|j: int| 0 <= j < n ==> !front_matter::comment_at(s, j),
    ensures
        front_matter::strip_comment(s) == text::trim_end(s.take(n)),
        front_matter::scalar(s) == front_matter::scalar(text::trim_start(s)),
{
    lemma_first_comment(s, 0, n);
    text::lemma_trim_start(s);
    let t = text::trim_start(s);
    if t.len() > 0 {
        text::lemma_trim_start_unique(t, 0);
        assert(t.skip(0) =~= t);
    } else {
        text::lemma_trim_start_unique(t, 0);
        assert(t.skip(0) =~= t);
    }
}

} // verus!
