//! What holds of the operations on texts.

use vstd::prelude::*;

use crate::cli;
use crate::text;

verus! {

/// The value of a decimal digit is read back from it.
pub proof fn law_digit_reads_back(d: nat)
    requires
        d < 10,
    ensures
        cli::is_digit(text::digit(d)),
        (text::digit(d) as u32 - 48) as nat == d,
        text::digit(d) == '0' <==> d == 0,
{
}

/// A number in decimal notation is made of digits, without a leading zero but for zero itself, and
/// the number is read back from them.
pub proof fn law_decimal_reads_back(n: nat)
    ensures
        cli::all_digits(text::decimal(n)),
        cli::digits_value(text::decimal(n)) == n,
        n > 0 ==> text::decimal(n)[0] != '0',
        text::decimal(0) == seq!['0'],
    decreases n,
{
    assert(text::decimal(0) =~= seq!['0']);
    if n < 10 {
        law_digit_reads_back(n);
        let s = text::decimal(n);
        assert(s =~= seq![text::digit(n)]);
        assert(s.drop_last() =~= Seq::<char>::empty());
        assert(cli::digits_value(s.drop_last()) == 0);
    } else {
        law_decimal_reads_back(n / 10);
        law_digit_reads_back(n % 10);
        let front = text::decimal(n / 10);
        let s = text::decimal(n);
        assert(s.drop_last() =~= front);
        assert forall|i: int| 0 <= i < s.len() implies cli::is_digit(#[trigger] s[i]) by {
            if i < front.len() {
                assert(s[i] == front[i]);
            }
        }
        assert(s[0] == front[0]);
    }
}

/// Different numbers are written differently.
pub proof fn law_decimal_tells_numbers_apart(m: nat, n: nat)
    requires
        text::decimal(m) == text::decimal(n),
    ensures
        m == n,
{
    law_decimal_reads_back(m);
    law_decimal_reads_back(n);
}

/// A negative number is written with a minus sign before its magnitude, any other as it is.
pub proof fn law_signed(n: int)
    ensures
        n >= 0 ==> text::signed(n) == text::decimal(n as nat),
        n < 0 ==> text::signed(n)[0] == '-' && text::signed(n).skip(1) == text::decimal(
            (-n) as nat,
        ),
{
    if n < 0 {
        assert(text::signed(n).skip(1) =~= text::decimal((-n) as nat));
    }
}

/// The digits of ten, in the order of their values.
pub proof fn law_digits()
    ensures
        text::digit(0) == '0' && text::digit(1) == '1' && text::digit(2) == '2' && text::digit(3)
            == '3' && text::digit(4) == '4',
        text::digit(5) == '5' && text::digit(6) == '6' && text::digit(7) == '7' && text::digit(8)
            == '8' && text::digit(9) == '9',
{
}

/// Of the ASCII characters, those from the tabulator to the carriage return and the space are
/// white.
pub proof fn law_white_space(c: char)
    requires
        (c as u32) < 0x80,
    ensures
        text::is_white(c) <==> (c == ' ' || '\t' <= c <= '\r'),
{
}

/// What is trimmed is the white space at the ends, all of it and nothing else.
pub proof fn law_trim(a: Seq<char>, w: Seq<char>, b: Seq<char>)
    requires
        forall|i: int| 0 <= i < a.len() ==> text::is_white(#[trigger] a[i]),
        forall|i: int| 0 <= i < b.len() ==> text::is_white(#[trigger] b[i]),
        w.len() > 0 ==> !text::is_white(w[0]) && !text::is_white(w.last()),
    ensures
        text::trim(a + w + b) == w,
        w.len() > 0 ==> text::trim_end(a + w + b) == a + w,
        w.len() > 0 ==> text::trim_start(a + w + b) == w + b,
{
    let s = a + w + b;
    let m = a.len() as int;
    let n = (a.len() + w.len()) as int;
    assert forall|i: int| 0 <= i < m implies text::is_white(#[trigger] s[i]) by {
        assert(s[i] == a[i]);
    }
    assert forall|i: int| n <= i < s.len() implies text::is_white(#[trigger] s[i]) by {
        assert(s[i] == b[i - n]);
    }
    if w.len() > 0 {
        assert(s[m] == w[0]);
        assert(s[n - 1] == w.last());
        text::lemma_trim_unique(s, m, n);
        text::lemma_trim_start_unique(s, m);
        assert(s.subrange(m, n) =~= w);
        assert(s.take(n) =~= a + w);
        assert(s.skip(m) =~= w + b);
    } else {
        text::lemma_trim_white(s);
        assert(text::trim(s) =~= w);
    }
}

/// The first piece of a text is what stands before the first separator, and the rest of the pieces
/// are those of what stands after it; a text without a separator is its only piece.
pub proof fn law_split(piece: Seq<char>, c: char, rest: Seq<char>)
    requires
        forall|i: int| 0 <= i < piece.len() ==> piece[i] != c,
    ensures
        text::split(piece, c) == seq![piece],
        text::split(piece.push(c) + rest, c) == seq![piece] + text::split(rest, c),
        text::split_once(piece.push(c) + rest, c) == Some((piece, rest)),
        text::split_once(piece, c) is None,
{
    text::lemma_find(piece, c);
    let s = piece.push(c) + rest;
    let n = piece.len() as int;
    assert(s[n] == c);
    assert forall|j: int| 0 <= j < n implies s[j] != c by {
        assert(s[j] == piece[j]);
    }
    text::lemma_find_unique(s, c, n);
    assert(s.take(n) =~= piece);
    assert(s.skip(n + 1) =~= rest);
}

/// Joining puts the separator between the pieces, and nowhere else.
pub proof fn law_join(first: Seq<char>, rest: Seq<Seq<char>>, sep: Seq<char>)
    ensures
        text::join(seq![first], sep) == first,
        text::join(Seq::empty(), sep) == Seq::<char>::empty(),
        rest.len() > 0 ==> text::join(seq![first] + rest, sep) == first + sep + text::join(
            rest,
            sep,
        ),
    decreases rest.len(),
{
    let all = seq![first] + rest;
    reveal_with_fuel(text::join, 2);
    if rest.len() == 1 {
        assert(all.drop_last() =~= seq![first]);
        assert(all.last() == rest[0]);
        assert(text::join(all, sep) == text::join(all.drop_last(), sep) + sep + all.last());
    } else if rest.len() > 1 {
        law_join(first, rest.drop_last(), sep);
        assert(all.drop_last() =~= seq![first] + rest.drop_last());
        assert(all.last() == rest.last());
        let r = text::join(rest.drop_last(), sep);
        assert((first + sep + r) + sep + rest.last() =~= first + sep + (r + sep + rest.last()));
    }
}

/// Pieces that hold no separator are read back from what they are joined to.
pub proof fn law_split_undoes_join(pieces: Seq<Seq<char>>, c: char)
    requires
        pieces.len() > 0,
        forall|i: int, j: int|
            0 <= i < pieces.len() && 0 <= j < pieces[i].len() ==> #[trigger] pieces[i][j] != c,
    ensures
        text::split(text::join(pieces, seq![c]), c) == pieces,
    decreases pieces.len(),
{
    let first = pieces[0];
    let rest = pieces.skip(1);
    assert(pieces =~= seq![first] + rest);
    assert forall|j: int| 0 <= j < first.len() implies first[j] != c by {
        assert(pieces[0][j] != c);
    }
    law_join(first, rest, seq![c]);
    if rest.len() == 0 {
        assert(pieces =~= seq![first]);
        law_split(first, c, seq![]);
    } else {
        assert forall|i: int, j: int| 0 <= i < rest.len() && 0 <= j < rest[i].len() implies
            #[trigger] rest[i][j] != c by {
            assert(pieces[i + 1][j] != c);
        }
        law_split_undoes_join(rest, c);
        let joined = text::join(rest, seq![c]);
        law_split(first, c, joined);
        assert(first + seq![c] + joined =~= first.push(c) + joined);
    }
}

/// A line ends at the first newline, loses the carriage return before it, and what follows are the
/// lines of the rest.
pub proof fn law_lines(line: Seq<char>, rest: Seq<char>)
    requires
        forall|i: int| 0 <= i < line.len() ==> line[i] != '\n',
    ensures
        text::lines(line.push('\n') + rest) == seq![
            if line.len() > 0 && line.last() == '\r' {
                line.drop_last()
            } else {
                line
            },
        ] + text::lines(rest),
        line.len() > 0 ==> text::lines(line) == seq![line],
        text::lines(Seq::empty()) == Seq::<Seq<char>>::empty(),
{
    let s = line.push('\n') + rest;
    let n = line.len() as int;
    assert(s[n] == '\n');
    assert forall|j: int| 0 <= j < n implies s[j] != '\n' by {
        assert(s[j] == line[j]);
    }
    text::lemma_find_unique(s, '\n', n);
    assert(s.take(n) =~= line);
    assert(s.skip(n + 1) =~= rest);
    text::lemma_find(line, '\n');
}

/// The case of ASCII letters, and of nothing else, does not matter.
pub proof fn law_case(a: Seq<char>, b: Seq<char>, c: char)
    ensures
        text::eq_ignore_case(a, a),
        text::eq_ignore_case(a, b) ==> a.len() == b.len(),
        'A' <= c <= 'Z' ==> text::ascii_lower(c) as u32 == c as u32 + 32,
        !('A' <= c <= 'Z') ==> text::ascii_lower(c) == c,
        text::eq_ignore_case(a, b) ==> text::eq_ignore_case(b, a),
{
    if text::eq_ignore_case(a, b) {
        assert forall|i: int| 0 <= i < b.len() implies text::ascii_lower(#[trigger] b[i])
            == text::ascii_lower(a[i]) by {
            assert(text::ascii_lower(a[i]) == text::ascii_lower(b[i]));
        }
    }
}

/// The white space of Unicode.
pub proof fn law_white_space_of_unicode(c: char)
    requires
        (c as u32) >= 0x80,
    ensures
        text::is_white(c) <==> (c == '\u{85}' || c == '\u{a0}' || c == '\u{1680}' || '\u{2000}' <= c
            <= '\u{200a}' || c == '\u{2028}' || c == '\u{2029}' || c == '\u{202f}' || c
            == '\u{205f}' || c == '\u{3000}'),
{
}

/// A list of strings has as many texts, each in its place; an optional string has its own, if any.
pub proof fn law_texts(v: Seq<String>, i: int, s: String)
    requires
        0 <= i < v.len(),
    ensures
        text::texts(v).len() == v.len(),
        text::texts(v)[i] == v[i]@,
        text::opt_text(Some(s)) == Some(s@),
        text::opt_text(None) == None::<Seq<char>>,
{
}

/// Every line is ended by a newline, in order.
pub proof fn law_unlines(ls: Seq<Seq<char>>, line: Seq<char>)
    ensures
        text::unlines(ls.push(line)) == text::unlines(ls) + line.push('\n'),
        text::unlines(Seq::empty()) == Seq::<char>::empty(),
{
    assert(ls.push(line).drop_last() =~= ls);
}

/// A pattern occurs in a text exactly if the text is something before it, the pattern, and
/// something after it.
pub proof fn law_occurs(s: Seq<char>, pat: Seq<char>)
    ensures
        text::occurs(s, pat) <==> exists|a: Seq<char>, b: Seq<char>| s == #[trigger] (a + pat + b),
{
    if text::occurs(s, pat) {
        let i = choose|i: int| text::occurs_at(s, pat, i);
        let a = s.take(i);
        let b = s.skip(i + pat.len());
        assert(s.subrange(i, i + pat.len()) == pat);
        assert(s =~= a + s.subrange(i, i + pat.len()) + b);
        assert(s == a + pat + b);
    }
    if exists|a: Seq<char>, b: Seq<char>| s == #[trigger] (a + pat + b) {
        let (a, b) = choose|a: Seq<char>, b: Seq<char>| s == #[trigger] (a + pat + b);
        let i = a.len() as int;
        assert(s.subrange(i, i + pat.len()) =~= pat);
        assert(text::occurs_at(s, pat, i));
    }
}

/// Replacing leaves a text in which the pattern does not occur as it is, and where the pattern
/// stands at the beginning puts the replacement there and goes on behind the pattern.
pub proof fn law_replace(s: Seq<char>, pat: Seq<char>, to: Seq<char>, rest: Seq<char>)
    requires
        pat.len() > 0,
    ensures
        !text::occurs(s, pat) ==> text::replace(s, pat, to) == s,
        text::replace(pat + rest, pat, to) == to + text::replace(rest, pat, to),
        s.len() > 0 && !text::occurs_at(s, pat, 0) ==> text::replace(s, pat, to) == seq![s[0]]
            + text::replace(s.skip(1), pat, to),
{
    if !text::occurs(s, pat) {
        text::lemma_replace_absent(s, pat, to);
    }
    assert((pat + rest).take(pat.len() as int) =~= pat);
    assert((pat + rest).skip(pat.len() as int) =~= rest);
    if s.len() > 0 && !text::occurs_at(s, pat, 0) {
        if s.len() >= pat.len() {
            assert(s.subrange(0, pat.len() as int) =~= s.take(pat.len() as int));
        } else {
            assert(s.skip(1).len() < pat.len());
            assert(s =~= seq![s[0]] + s.skip(1));
        }
    }
}

/// Two texts are equal up to case exactly if they are of one length, and each character of one is
/// that of the other, or its capital or small form.
pub proof fn law_equal_up_to_case(a: Seq<char>, b: Seq<char>)
    ensures
        text::eq_ignore_case(a, b) <==> a.len() == b.len() && forall|i: int|
            0 <= i < a.len() ==> {
                ||| (#[trigger] a[i]) == b[i]
                ||| 'A' <= a[i] <= 'Z' && b[i] as u32 == a[i] as u32 + 32
                ||| 'A' <= b[i] <= 'Z' && a[i] as u32 == b[i] as u32 + 32
            },
{
    if text::eq_ignore_case(a, b) {
        assert forall|i: int| 0 <= i < a.len() implies {
            ||| (#[trigger] a[i]) == b[i]
            ||| 'A' <= a[i] <= 'Z' && b[i] as u32 == a[i] as u32 + 32
            ||| 'A' <= b[i] <= 'Z' && a[i] as u32 == b[i] as u32 + 32
        } by {
            assert(text::ascii_lower(a[i]) == text::ascii_lower(b[i]));
        }
    }
}

} // verus!
