//! YAML front matter of a progress file.
//!
//! A progress file opens with a block of `key: value` lines between two `---` delimiters. Only
//! the subset of YAML that CodexPotter itself writes is understood: plain, single-quoted and
//! double-quoted scalars on one line, and comments introduced by `#`. Malformed delimiters and
//! values are errors, so that nothing silently diverges from the file.

use vstd::prelude::*;

use crate::text;

verus! {

/// Why a progress file could not be read or updated.
#[derive(Debug, Clone, PartialEq, Eq)]
pub enum FrontMatterError {
    /// The file has no line at all.
    Empty,
    /// The first line is not the `---` delimiter.
    MissingHeader,
    /// The key is there without a value.
    EmptyValue { key: String },
    /// The key is there with a value that is neither `true` nor `false`.
    InvalidBool { key: String, value: String },
    /// No line closes the front matter.
    MissingFooter,
}

/// The mathematical counterpart of [`FrontMatterError`].
pub enum FrontMatterFault {
    Empty,
    MissingHeader,
    EmptyValue { key: Seq<char> },
    InvalidBool { key: Seq<char>, value: Seq<char> },
    MissingFooter,
}

impl View for FrontMatterError {
    type V = FrontMatterFault;

    open spec fn view(&self) -> FrontMatterFault {
        match self {
            FrontMatterError::Empty => FrontMatterFault::Empty,
            FrontMatterError::MissingHeader => FrontMatterFault::MissingHeader,
            FrontMatterError::EmptyValue { key } => FrontMatterFault::EmptyValue { key: key@ },
            FrontMatterError::InvalidBool { key, value } => FrontMatterFault::InvalidBool {
                key: key@,
                value: value@,
            },
            FrontMatterError::MissingFooter => FrontMatterFault::MissingFooter,
        }
    }
}

/// The message shown for a fault.
pub open spec fn fault_message(e: FrontMatterFault) -> Seq<char> {
    match e {
        FrontMatterFault::Empty => "progress file is empty"@,
        FrontMatterFault::MissingHeader =>
            "progress file missing YAML front matter delimiter `---` at top"@,
        FrontMatterFault::EmptyValue { key } => "progress file front matter key `"@ + key
            + "` has an empty value"@,
        FrontMatterFault::InvalidBool { key, value } => "progress file front matter key `"@ + key
            + "` has invalid boolean value `"@ + value + "`"@,
        FrontMatterFault::MissingFooter =>
            "progress file YAML front matter missing closing `---`"@,
    }
}

impl FrontMatterError {
    /// The message shown to the user.
    pub fn message(&self) -> (r: String)
        ensures
            r@ == fault_message(self@),
    {
        match self {
            FrontMatterError::Empty => "progress file is empty".to_owned(),
            FrontMatterError::MissingHeader =>
                "progress file missing YAML front matter delimiter `---` at top".to_owned(),
            FrontMatterError::EmptyValue { key } => {
                let mut out = "progress file front matter key `".to_owned();
                out.append(key.as_str());
                out.append("` has an empty value");
                out
            },
            FrontMatterError::InvalidBool { key, value } => {
                let mut out = "progress file front matter key `".to_owned();
                out.append(key.as_str());
                out.append("` has invalid boolean value `");
                out.append(value.as_str());
                out.append("`");
                out
            },
            FrontMatterError::MissingFooter =>
                "progress file YAML front matter missing closing `---`".to_owned(),
        }
    }
}

/// The front matter delimiter.
pub open spec fn dashes() -> Seq<char> {
    seq!['-', '-', '-']
}

/// `true` or `false` as written in a progress file.
pub open spec fn bool_text(b: bool) -> Seq<char> {
    if b {
        seq!['t', 'r', 'u', 'e']
    } else {
        seq!['f', 'a', 'l', 's', 'e']
    }
}

/// After reading `s`: whether the next character stands inside single quotes, and whether it
/// stands inside double quotes.
pub open spec fn quote_state(s: Seq<char>) -> (bool, bool)
    decreases s.len(),
{
    if s.len() == 0 {
        (false, false)
    } else {
        let (single, double) = quote_state(s.drop_last());
        if s.last() == '\'' && !double {
            (!single, double)
        } else if s.last() == '"' && !single {
            (single, !double)
        } else {
            (single, double)
        }
    }
}

/// A comment starts at `i`: an unquoted `#` at the beginning or after white space.
pub open spec fn comment_at(s: Seq<char>, i: int) -> bool {
    &&& 0 <= i < s.len()
    &&& s[i] == '#'
    &&& quote_state(s.take(i)) == (false, false)
    &&& i == 0 || text::is_white(s[i - 1])
}

/// Where the first comment at or after `i` starts; the length of `s` when there is none.
pub open spec fn first_comment(s: Seq<char>, i: int) -> int
    decreases s.len() - i,
{
    if i >= s.len() {
        s.len() as int
    } else if comment_at(s, i) {
        i
    } else {
        first_comment(s, i + 1)
    }
}

/// The value before an inline comment.
pub open spec fn strip_comment(s: Seq<char>) -> Seq<char> {
    text::trim_end(s.take(first_comment(s, 0)))
}

/// The text that a scalar stands for.
pub open spec fn unquoted(s: Seq<char>) -> Seq<char> {
    let t = text::trim(s);
    if t.len() >= 2 && t[0] == '"' && t.last() == '"' {
        unescaped(t.subrange(1, t.len() - 1))
    } else if t.len() >= 2 && t[0] == '\'' && t.last() == '\'' {
        text::replace(t.subrange(1, t.len() - 1), seq!['\'', '\''], seq!['\''])
    } else {
        t
    }
}

/// The inside of a double-quoted scalar, with its escapes resolved.
pub open spec fn unescaped(s: Seq<char>) -> Seq<char> {
    text::replace(text::replace(s, seq!['\\', '\\'], seq!['\\']), seq!['\\', '"'], seq!['"'])
}

/// A text as it is written inside double quotes.
pub open spec fn escaped(s: Seq<char>) -> Seq<char> {
    text::replace(text::replace(s, seq!['\\'], seq!['\\', '\\']), seq!['"'], seq!['\\', '"'])
}

/// The key and the raw value that a line states, if it states one.
pub open spec fn entry(line: Seq<char>) -> Option<(Seq<char>, Seq<char>)> {
    let t = text::trim(line);
    if t.len() == 0 || t[0] == '#' {
        None
    } else {
        match text::split_once(t, ':') {
            Some((k, v)) => Some((text::trim(k), v)),
            None => None,
        }
    }
}

/// The raw value that a line states.
pub open spec fn raw_value(line: Seq<char>) -> Seq<char> {
    match entry(line) {
        Some((_, v)) => v,
        None => Seq::empty(),
    }
}

/// The line states a value for `key`.
pub open spec fn states(line: Seq<char>, key: Seq<char>) -> bool {
    entry(line) matches Some((k, _)) && k == key
}

/// The scalar of a raw value, quotes included.
pub open spec fn scalar(v: Seq<char>) -> Seq<char> {
    text::trim(strip_comment(text::trim_start(v)))
}

/// The boolean that a raw value for `key` states.
pub open spec fn bool_of(key: Seq<char>, v: Seq<char>) -> Result<bool, FrontMatterFault> {
    let value = scalar(v);
    let normalized = text::trim(unquoted(value));
    if value.len() == 0 {
        Err(FrontMatterFault::EmptyValue { key })
    } else if text::eq_ignore_case(normalized, bool_text(true)) {
        Ok(true)
    } else if text::eq_ignore_case(normalized, bool_text(false)) {
        Ok(false)
    } else {
        Err(FrontMatterFault::InvalidBool { key, value: normalized })
    }
}

/// The first line at or after `i` that closes the front matter; the number of lines when none
/// does.
pub open spec fn footer(ls: Seq<Seq<char>>, i: int) -> int
    decreases ls.len() - i,
{
    if i >= ls.len() {
        ls.len() as int
    } else if text::trim(ls[i]) == dashes() {
        i
    } else {
        footer(ls, i + 1)
    }
}

/// The first line in `i..n` that states a value for `key`; `n` when none does.
pub open spec fn first_entry(ls: Seq<Seq<char>>, key: Seq<char>, i: int, n: int) -> int
    decreases n - i,
{
    if i >= n {
        n
    } else if states(ls[i], key) {
        i
    } else {
        first_entry(ls, key, i + 1, n)
    }
}

/// The file opens with the delimiter.
pub open spec fn has_header(ls: Seq<Seq<char>>) -> bool {
    ls.len() > 0 && text::trim_end(ls[0]) == dashes()
}

/// The line of the front matter from which `key` is read, if any.
pub open spec fn entry_line(ls: Seq<Seq<char>>, key: Seq<char>) -> Option<int> {
    let f = footer(ls, 1);
    let k = first_entry(ls, key, 1, f);
    if k < f {
        Some(k)
    } else {
        None
    }
}

/// What the front matter of `contents` says about the boolean `key`.
pub open spec fn read_bool(contents: Seq<char>, key: Seq<char>) -> Result<
    Option<bool>,
    FrontMatterFault,
> {
    let ls = text::lines(contents);
    let closed = footer(ls, 1) < ls.len();
    if ls.len() == 0 {
        Err(FrontMatterFault::Empty)
    } else if !has_header(ls) {
        Err(FrontMatterFault::MissingHeader)
    } else {
        match entry_line(ls, key) {
            Some(k) => match bool_of(key, raw_value(ls[k])) {
                Err(e) => Err(e),
                Ok(b) => if closed {
                    Ok(Some(b))
                } else {
                    Err(FrontMatterFault::MissingFooter)
                },
            },
            None => if closed {
                Ok(None)
            } else {
                Err(FrontMatterFault::MissingFooter)
            },
        }
    }
}

/// What the front matter of `contents` says about the text `key`.
pub open spec fn read_string(contents: Seq<char>, key: Seq<char>) -> Option<Seq<char>> {
    let ls = text::lines(contents);
    if !has_header(ls) {
        None
    } else {
        match entry_line(ls, key) {
            Some(k) => Some(unquoted(scalar(raw_value(ls[k])))),
            None => None,
        }
    }
}

/// The first line at or after `i` at which an update stops: the delimiter at the beginning of
/// the line. The number of lines when there is none.
pub open spec fn closing(ls: Seq<Seq<char>>, i: int) -> int
    decreases ls.len() - i,
{
    if i >= ls.len() {
        ls.len() as int
    } else if text::trim_end(ls[i]) == dashes() {
        i
    } else {
        closing(ls, i + 1)
    }
}

/// An update replaces the value on this line.
pub open spec fn sets(line: Seq<char>, key: Seq<char>) -> bool {
    text::split_once(text::trim_end(line), ':') matches Some((k, _)) && text::trim(k) == key
}

/// A front matter line after `key` was set to `value`: the key as it was written, the new value,
/// and whatever follows the first `#` of the line. Other lines only lose trailing white space.
pub open spec fn updated_line(line: Seq<char>, key: Seq<char>, value: bool) -> Seq<char> {
    let t = text::trim_end(line);
    if sets(line, key) {
        let head = t.take(text::find(t, ':') + 1).push(' ') + bool_text(value);
        let hash = text::find(t, '#');
        if hash < t.len() {
            head.push(' ') + t.skip(hash)
        } else {
            head
        }
    } else {
        t
    }
}

/// The lines of a file after `key` was set to `value`, where line `f` closes the front matter.
pub open spec fn updated_lines(
    ls: Seq<Seq<char>>,
    key: Seq<char>,
    value: bool,
    f: int,
) -> Seq<Seq<char>> {
    Seq::new(
        ls.len(),
        |i: int|
            if i == 0 || i == f {
                text::trim_end(ls[i])
            } else if i < f {
                updated_line(ls[i], key, value)
            } else {
                ls[i]
            },
    )
}

/// `contents` with the boolean `key` of its front matter set to `value`.
pub open spec fn write_bool(contents: Seq<char>, key: Seq<char>, value: bool) -> Result<
    Seq<char>,
    FrontMatterFault,
> {
    let ls = text::lines(contents);
    let f = closing(ls, 1);
    if ls.len() == 0 {
        Err(FrontMatterFault::Empty)
    } else if !has_header(ls) {
        Err(FrontMatterFault::MissingHeader)
    } else if f >= ls.len() {
        Err(FrontMatterFault::MissingFooter)
    } else {
        Ok(text::unlines(updated_lines(ls, key, value, f)))
    }
}

/// A line that states `value` for `key`.
pub open spec fn bool_line(key: Seq<char>, value: bool) -> Seq<char> {
    key + seq![':', ' '] + bool_text(value)
}

/// The delimiters of the front matter are in place, for a reader.
pub open spec fn delimiters(contents: Seq<char>) -> Result<(), FrontMatterFault> {
    let ls = text::lines(contents);
    if ls.len() == 0 {
        Err(FrontMatterFault::Empty)
    } else if !has_header(ls) {
        Err(FrontMatterFault::MissingHeader)
    } else if footer(ls, 1) >= ls.len() {
        Err(FrontMatterFault::MissingFooter)
    } else {
        Ok(())
    }
}

/// The line at which an update stops: the delimiter at the beginning of a line, or the one that a
/// reader takes for it where there is no other.
pub open spec fn stop(ls: Seq<Seq<char>>) -> int {
    if closing(ls, 1) < ls.len() {
        closing(ls, 1)
    } else {
        footer(ls, 1)
    }
}

/// `contents` with `key` set to `value` on the lines that state it.
pub open spec fn updated(contents: Seq<char>, key: Seq<char>, value: bool) -> Seq<char> {
    let ls = text::lines(contents);
    text::unlines(updated_lines(ls, key, value, stop(ls)))
}

/// `contents` with the boolean `key` of its front matter set to `value`: on the lines that state
/// it, and on a line of its own where no line that is read states it. The new line is the last one
/// that is read.
pub open spec fn put_bool(contents: Seq<char>, key: Seq<char>, value: bool) -> Result<
    Seq<char>,
    FrontMatterFault,
> {
    let ls = text::lines(contents);
    match delimiters(contents) {
        Err(e) => Err(e),
        Ok(_) => if entry_line(ls, key) is Some {
            Ok(updated(contents, key, value))
        } else {
            let up = updated_lines(ls, key, value, stop(ls));
            let g = footer(ls, 1);
            Ok(
                text::unlines(up.take(g)) + bool_line(key, value).push('\n') + text::unlines(
                    up.skip(g),
                ),
            )
        },
    }
}

/// Position of the first comment of a raw value.
fn find_comment(s: &[char]) -> (r: usize)
    ensures
        r == first_comment(s@, 0),
        r <= s.len(),
{
    let mut i: usize = 0;
    let mut single = false;
    let mut double = false;
    let mut prev_white = true;
    while i < s.len()
        invariant
            i <= s.len(),
            quote_state(s@.take(i as int)) == (single, double),
            prev_white == (i == 0 || text::is_white(s@[i - 1])),
            first_comment(s@, 0) == first_comment(s@, i as int),
        decreases s.len() - i,
    {
        let c = s[i];
        proof {
            assert(s@.take(i + 1).drop_last() =~= s@.take(i as int));
            assert(s@.take(i + 1).last() == c);
        }
        if c == '\'' && !double {
            single = !single;
        } else if c == '"' && !single {
            double = !double;
        } else if c == '#' && !single && !double && prev_white {
            return i;
        }
        prev_white = c.is_whitespace();
        i = i + 1;
    }
    i
}

/// Drop an inline comment from a raw value, and the white space before it.
fn without_comment(s: &[char]) -> (r: &[char])
    ensures
        r@ == strip_comment(s@),
{
    let n = find_comment(s);
    text::trim_end_of(&s[0..n])
}

/// Cut an inline comment off a raw YAML value.
pub fn strip_yaml_inline_comment(raw: &str) -> (r: String)
    ensures
        r@ == strip_comment(raw@),
{
    let s = text::chars_of(raw);
    text::string_of(without_comment(s.as_slice()))
}

/// [`unquoted`] on a slice.
fn unquoted_of(s: &[char]) -> (r: Vec<char>)
    ensures
        r@ == unquoted(s@),
{
    let t = text::trim_of(s);
    let n = t.len();
    if n >= 2 && t[0] == '"' && t[n - 1] == '"' {
        let inner = &t[1..n - 1];
        let once = text::replace_in(inner, &['\\', '\\'], &['\\']);
        let twice = text::replace_in(once.as_slice(), &['\\', '"'], &['"']);
        proof {
            assert(['\\', '\\']@ =~= seq!['\\', '\\']);
            assert(['\\']@ =~= seq!['\\']);
            assert(['\\', '"']@ =~= seq!['\\', '"']);
            assert(['"']@ =~= seq!['"']);
        }
        return twice;
    }
    if n >= 2 && t[0] == '\'' && t[n - 1] == '\'' {
        let inner = &t[1..n - 1];
        let once = text::replace_in(inner, &['\'', '\''], &['\'']);
        proof {
            assert(['\'', '\'']@ =~= seq!['\'', '\'']);
            assert(['\'']@ =~= seq!['\'']);
        }
        return once;
    }
    text::to_vec(t)
}

/// The text that a YAML scalar stands for.
pub fn unquote_yaml_scalar(raw: &str) -> (r: String)
    ensures
        r@ == unquoted(raw@),
{
    let s = text::chars_of(raw);
    text::string_of(unquoted_of(s.as_slice()).as_slice())
}

/// Escape a text for use inside double quotes.
pub fn yaml_escape_double_quoted(value: &str) -> (r: String)
    ensures
        r@ == escaped(value@),
{
    let s = text::chars_of(value);
    let once = text::replace_in(s.as_slice(), &['\\'], &['\\', '\\']);
    let twice = text::replace_in(once.as_slice(), &['"'], &['\\', '"']);
    proof {
        assert(['\\', '\\']@ =~= seq!['\\', '\\']);
        assert(['\\']@ =~= seq!['\\']);
        assert(['\\', '"']@ =~= seq!['\\', '"']);
        assert(['"']@ =~= seq!['"']);
    }
    text::string_of(twice.as_slice())
}

/// [`dashes`] on a slice.
fn is_dashes(s: &[char]) -> (r: bool)
    ensures
        r == (s@ == dashes()),
{
    let r = s.len() == 3 && s[0] == '-' && s[1] == '-' && s[2] == '-';
    proof {
        if r {
            assert(s@ =~= dashes());
        }
    }
    r
}

/// [`footer`] on lines.
fn find_footer(ls: &Vec<Vec<char>>, from: usize) -> (r: usize)
    requires
        from <= ls.len(),
    ensures
        r == footer(text::line_texts(ls@), from as int),
        from <= r <= ls.len(),
{
    let mut i = from;
    while i < ls.len()
        invariant
            from <= i <= ls.len(),
            footer(text::line_texts(ls@), from as int) == footer(text::line_texts(ls@), i as int),
        decreases ls.len() - i,
    {
        if is_dashes(text::trim_of(ls[i].as_slice())) {
            return i;
        }
        i = i + 1;
    }
    i
}

/// [`entry`] on a line: the key and the raw value.
fn entry_of(line: &[char]) -> (r: Option<(Vec<char>, Vec<char>)>)
    ensures
        match r {
            Some((k, v)) => entry(line@) == Some((k@, v@)),
            None => entry(line@) is None,
        },
{
    let t = text::trim_of(line);
    if t.len() == 0 || t[0] == '#' {
        return None;
    }
    let n = text::find_in(t, ':');
    if n < t.len() {
        let v = &t[n + 1..t.len()];
        proof {
            assert(t@.subrange(0, n as int) =~= t@.take(n as int));
            assert(v@ =~= t@.skip(n + 1));
        }
        Some((text::to_vec(text::trim_of(&t[0..n])), text::to_vec(v)))
    } else {
        None
    }
}

/// [`first_entry`] on lines.
fn find_entry(ls: &Vec<Vec<char>>, key: &[char], from: usize, n: usize) -> (r: usize)
    requires
        from <= n <= ls.len(),
    ensures
        r == first_entry(text::line_texts(ls@), key@, from as int, n as int),
        from <= r <= n,
        r < n ==> states(text::line_texts(ls@)[r as int], key@),
{
    let mut i = from;
    while i < n
        invariant
            from <= i <= n <= ls.len(),
            first_entry(text::line_texts(ls@), key@, from as int, n as int) == first_entry(
                text::line_texts(ls@),
                key@,
                i as int,
                n as int,
            ),
        decreases n - i,
    {
        match entry_of(ls[i].as_slice()) {
            Some((k, _)) => {
                if text::same(k.as_slice(), key) {
                    return i;
                }
            },
            None => {},
        }
        i = i + 1;
    }
    i
}

/// [`scalar`] on a slice.
fn scalar_of(v: &[char]) -> (r: &[char])
    ensures
        r@ == scalar(v@),
{
    text::trim_of(without_comment(text::trim_start_of(v)))
}

/// [`bool_of`] on a slice.
fn parse_bool(key: &str, v: &[char]) -> (r: Result<bool, FrontMatterError>)
    ensures
        match r {
            Ok(b) => bool_of(key@, v@) == Ok::<bool, FrontMatterFault>(b),
            Err(e) => bool_of(key@, v@) == Err::<bool, FrontMatterFault>(e@),
        },
{
    let value = scalar_of(v);
    if value.len() == 0 {
        return Err(FrontMatterError::EmptyValue { key: key.to_owned() });
    }
    let plain = unquoted_of(value);
    let normalized = text::trim_of(plain.as_slice());
    proof {
        assert(['t', 'r', 'u', 'e']@ =~= bool_text(true));
        assert(['f', 'a', 'l', 's', 'e']@ =~= bool_text(false));
    }
    if text::same_ignore_case(normalized, &['t', 'r', 'u', 'e']) {
        return Ok(true);
    }
    if text::same_ignore_case(normalized, &['f', 'a', 'l', 's', 'e']) {
        return Ok(false);
    }
    Err(FrontMatterError::InvalidBool { key: key.to_owned(), value: text::string_of(normalized) })
}

/// Read the boolean `key` from the front matter: `None` when the key is absent.
pub fn front_matter_bool(contents: &str, key: &str) -> (r: Result<Option<bool>, FrontMatterError>)
    ensures
        match r {
            Ok(b) => read_bool(contents@, key@) == Ok::<Option<bool>, FrontMatterFault>(b),
            Err(e) => read_bool(contents@, key@) == Err::<Option<bool>, FrontMatterFault>(e@),
        },
{
    let s = text::chars_of(contents);
    let k = text::chars_of(key);
    let ls = text::lines_of(s.as_slice());
    if ls.len() == 0 {
        return Err(FrontMatterError::Empty);
    }
    if !is_dashes(text::trim_end_of(ls[0].as_slice())) {
        return Err(FrontMatterError::MissingHeader);
    }
    let f = find_footer(&ls, 1);
    let i = find_entry(&ls, k.as_slice(), 1, f);
    let mut found: Option<bool> = None;
    if i < f {
        match entry_of(ls[i].as_slice()) {
            Some((_, v)) => match parse_bool(key, v.as_slice()) {
                Ok(b) => {
                    found = Some(b);
                },
                Err(e) => {
                    return Err(e);
                },
            },
            None => {},
        }
    }
    if f < ls.len() {
        Ok(found)
    } else {
        Err(FrontMatterError::MissingFooter)
    }
}

/// Read the text `key` from the front matter: `None` when the file has no front matter or the
/// key is absent.
pub fn front_matter_string(contents: &str, key: &str) -> (r: Option<String>)
    ensures
        match r {
            Some(v) => read_string(contents@, key@) == Some(v@),
            None => read_string(contents@, key@) is None,
        },
{
    let s = text::chars_of(contents);
    let k = text::chars_of(key);
    let ls = text::lines_of(s.as_slice());
    if ls.len() == 0 || !is_dashes(text::trim_end_of(ls[0].as_slice())) {
        return None;
    }
    let f = find_footer(&ls, 1);
    let i = find_entry(&ls, k.as_slice(), 1, f);
    if i < f {
        match entry_of(ls[i].as_slice()) {
            Some((_, v)) => {
                let value = unquoted_of(scalar_of(v.as_slice()));
                return Some(text::string_of(value.as_slice()));
            },
            None => {},
        }
    }
    None
}

/// [`closing`] on lines.
fn find_closing(ls: &Vec<Vec<char>>, from: usize) -> (r: usize)
    requires
        from <= ls.len(),
    ensures
        r == closing(text::line_texts(ls@), from as int),
        from <= r <= ls.len(),
{
    let mut i = from;
    while i < ls.len()
        invariant
            from <= i <= ls.len(),
            closing(text::line_texts(ls@), from as int) == closing(
                text::line_texts(ls@),
                i as int,
            ),
        decreases ls.len() - i,
    {
        if is_dashes(text::trim_end_of(ls[i].as_slice())) {
            return i;
        }
        i = i + 1;
    }
    i
}

/// Append [`updated_line`] to `out`.
fn push_updated_line(out: &mut String, line: &[char], key: &[char], value: bool)
    ensures
        final(out)@ == old(out)@ + updated_line(line@, key@, value),
{
    let t = text::trim_end_of(line);
    let colon = text::find_in(t, ':');
    let mut sets_key = false;
    if colon < t.len() {
        sets_key = text::same(text::trim_of(&t[0..colon]), key);
        assert(t@.subrange(0, colon as int) =~= t@.take(colon as int));
    }
    assert(sets_key == sets(line@, key@));
    if !sets_key {
        text::push_chars(out, t);
        return;
    }
    text::push_chars(out, &t[0..colon + 1]);
    out.push(' ');
    if value {
        text::push_chars(out, &['t', 'r', 'u', 'e']);
        assert(['t', 'r', 'u', 'e']@ =~= bool_text(true));
    } else {
        text::push_chars(out, &['f', 'a', 'l', 's', 'e']);
        assert(['f', 'a', 'l', 's', 'e']@ =~= bool_text(false));
    }
    let ghost head = t@.take(colon + 1).push(' ') + bool_text(value);
    assert(t@.subrange(0, colon + 1) =~= t@.take(colon + 1));
    assert(out@ =~= old(out)@ + head);
    let hash = text::find_in(t, '#');
    if hash < t.len() {
        out.push(' ');
        text::push_chars(out, &t[hash..t.len()]);
        assert(t@.subrange(hash as int, t@.len() as int) =~= t@.skip(hash as int));
        assert(out@ =~= old(out)@ + (head.push(' ') + t@.skip(hash as int)));
    }
}

/// The lines from `from` up to `to` after `key` was set to `value`, where line `f` closes the front
/// matter.
fn updated_text(
    ls: &Vec<Vec<char>>,
    key: &[char],
    value: bool,
    f: usize,
    from: usize,
    to: usize,
) -> (r: String)
    requires
        from <= to <= ls.len(),
        f < ls.len(),
    ensures
        r@ == text::unlines(
            updated_lines(text::line_texts(ls@), key@, value, f as int).subrange(
                from as int,
                to as int,
            ),
        ),
{
    let ghost updated = updated_lines(text::line_texts(ls@), key@, value, f as int);
    let mut out = String::new();
    let mut i: usize = from;
    assert(updated.subrange(from as int, from as int) =~= Seq::<Seq<char>>::empty());
    while i < to
        invariant
            from <= i <= to <= ls.len(),
            f < ls.len(),
            updated == updated_lines(text::line_texts(ls@), key@, value, f as int),
            out@ == text::unlines(updated.subrange(from as int, i as int)),
        decreases to - i,
    {
        let ghost before = out@;
        if i == 0 || i == f {
            text::push_chars(&mut out, text::trim_end_of(ls[i].as_slice()));
        } else if i < f {
            push_updated_line(&mut out, ls[i].as_slice(), key, value);
        } else {
            text::push_chars(&mut out, ls[i].as_slice());
        }
        out.push('\n');
        proof {
            assert(out@ =~= before + updated[i as int].push('\n'));
            assert(updated.subrange(from as int, i + 1).drop_last() =~= updated.subrange(
                from as int,
                i as int,
            ));
        }
        i = i + 1;
    }
    out
}

/// Set the boolean `key` on the lines of the front matter that state it, and return the whole text
/// of the updated file.
pub fn set_front_matter_bool(contents: &str, key: &str, value: bool) -> (r: Result<
    String,
    FrontMatterError,
>)
    ensures
        match r {
            Ok(out) => write_bool(contents@, key@, value) == Ok::<Seq<char>, FrontMatterFault>(out@),
            Err(e) => write_bool(contents@, key@, value) == Err::<Seq<char>, FrontMatterFault>(e@),
        },
{
    let s = text::chars_of(contents);
    let k = text::chars_of(key);
    let ls = text::lines_of(s.as_slice());
    if ls.len() == 0 {
        return Err(FrontMatterError::Empty);
    }
    if !is_dashes(text::trim_end_of(ls[0].as_slice())) {
        return Err(FrontMatterError::MissingHeader);
    }
    let f = find_closing(&ls, 1);
    if f >= ls.len() {
        return Err(FrontMatterError::MissingFooter);
    }
    let out = updated_text(&ls, k.as_slice(), value, f, 0, ls.len());
    let ghost up = updated_lines(text::line_texts(ls@), key@, value, f as int);
    assert(up.subrange(0, ls@.len() as int) =~= up);
    Ok(out)
}

/// Set the boolean `key` in the front matter, and return the whole text of the updated file. A key
/// that no line states gets a line of its own.
pub fn put_front_matter_bool(contents: &str, key: &str, value: bool) -> (r: Result<
    String,
    FrontMatterError,
>)
    ensures
        match r {
            Ok(out) => put_bool(contents@, key@, value) == Ok::<Seq<char>, FrontMatterFault>(out@),
            Err(e) => put_bool(contents@, key@, value) == Err::<Seq<char>, FrontMatterFault>(e@),
        },
{
    let s = text::chars_of(contents);
    let k = text::chars_of(key);
    let ls = text::lines_of(s.as_slice());
    match check_lines(&ls) {
        Err(e) => {
            return Err(e);
        },
        Ok(_) => {},
    }
    let g = find_footer(&ls, 1);
    let closed = find_closing(&ls, 1);
    let f = if closed < ls.len() {
        closed
    } else {
        g
    };
    let ghost up = updated_lines(text::line_texts(ls@), key@, value, f as int);
    let stated = find_entry(&ls, k.as_slice(), 1, g);
    if stated < g {
        let out = updated_text(&ls, k.as_slice(), value, f, 0, ls.len());
        assert(up.subrange(0, ls@.len() as int) =~= up);
        return Ok(out);
    }
    let mut out = updated_text(&ls, k.as_slice(), value, f, 0, g);
    let below = updated_text(&ls, k.as_slice(), value, f, g, ls.len());
    out.append(key);
    if value {
        out.append(": true\n");
    } else {
        out.append(": false\n");
    }
    proof {
        reveal_strlit(": true\n");
        reveal_strlit(": false\n");
        assert(up.subrange(0, g as int) =~= up.take(g as int));
        assert(up.subrange(g as int, ls@.len() as int) =~= up.skip(g as int));
        assert(out@ =~= text::unlines(up.take(g as int)) + bool_line(key@, value).push('\n'));
    }
    out.append(below.as_str());
    Ok(out)
}

/// [`delimiters`] on lines.
fn check_lines(ls: &Vec<Vec<char>>) -> (r: Result<(), FrontMatterError>)
    ensures
        forall|contents: Seq<char>|
            text::line_texts(ls@) == #[trigger] text::lines(contents) ==> match r {
                Ok(_) => delimiters(contents) is Ok,
                Err(e) => delimiters(contents) == Err::<(), FrontMatterFault>(e@),
            },
{
    if ls.len() == 0 {
        return Err(FrontMatterError::Empty);
    }
    if !is_dashes(text::trim_end_of(ls[0].as_slice())) {
        return Err(FrontMatterError::MissingHeader);
    }
    if find_footer(ls, 1) >= ls.len() {
        return Err(FrontMatterError::MissingFooter);
    }
    Ok(())
}

/// Refuse a file without the delimiters of a front matter.
pub fn check_delimiters(contents: &str) -> (r: Result<(), FrontMatterError>)
    ensures
        match r {
            Ok(_) => delimiters(contents@) is Ok,
            Err(e) => delimiters(contents@) == Err::<(), FrontMatterFault>(e@),
        },
{
    let s = text::chars_of(contents);
    let ls = text::lines_of(s.as_slice());
    check_lines(&ls)
}

/// An error is read, mathematically, as the fault that it is, with the key and the value that it
/// names.
pub proof fn law_error_is_read_as_it_is(error: FrontMatterError)
    ensures
        match error {
            FrontMatterError::Empty => error@ is Empty,
            FrontMatterError::MissingHeader => error@ is MissingHeader,
            FrontMatterError::EmptyValue { key } => {
                &&& error@ is EmptyValue
                &&& error@->EmptyValue_key == key@
            },
            FrontMatterError::InvalidBool { key, value } => {
                &&& error@ is InvalidBool
                &&& error@->InvalidBool_key == key@
                &&& error@->InvalidBool_value == value@
            },
            FrontMatterError::MissingFooter => error@ is MissingFooter,
        },
{
}

} // verus!
