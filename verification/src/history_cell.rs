//! What a transcript shows of the runner itself: round markers, hints, retries, and the summary
//! at the end of a project.
//!
//! Cells are lines of styled spans. How colours are drawn, and how long lines are wrapped, is left
//! to the screen.

use unicode_width::UnicodeWidthStr;
use vstd::prelude::*;

use crate::paths;
use crate::protocol::ReasoningEffort;
use crate::protocol::ServiceTier;
use crate::text;

verus! {

/// A colour that a span may have.
#[derive(Debug, Clone, Copy, PartialEq, Eq, Structural)]
pub enum SpanColor {
    /// The secondary colour of the theme.
    Secondary,
    Red,
    Cyan,
}

/// How a span is drawn.
#[derive(Debug, Clone, Copy, PartialEq, Eq)]
pub struct SpanStyle {
    pub color: Option<SpanColor>,
    pub bold: bool,
    pub dim: bool,
}

/// A piece of a line.
#[derive(Debug, Clone, PartialEq, Eq)]
pub struct StyledSpan {
    pub content: String,
    pub style: SpanStyle,
}

/// A line.
#[derive(Debug, Clone, PartialEq, Eq)]
pub struct StyledLine {
    pub spans: Vec<StyledSpan>,
}

/// The mathematical counterpart of [`StyledSpan`].
pub struct Span {
    pub content: Seq<char>,
    pub style: SpanStyle,
}

impl View for StyledSpan {
    type V = Span;

    open spec fn view(&self) -> Span {
        Span { content: self.content@, style: self.style }
    }
}

impl View for StyledLine {
    type V = Seq<Span>;

    open spec fn view(&self) -> Seq<Span> {
        span_views(self.spans@)
    }
}

/// The spans of a list, mathematically.
pub open spec fn span_views(v: Seq<StyledSpan>) -> Seq<Span> {
    Seq::new(v.len(), |i: int| v[i]@)
}

/// The lines of a list, mathematically.
pub open spec fn line_views(v: Seq<StyledLine>) -> Seq<Seq<Span>> {
    Seq::new(v.len(), |i: int| v[i]@)
}

impl SpanStyle {
    /// Nothing special.
    pub open spec fn plain_style() -> SpanStyle {
        SpanStyle { color: None, bold: false, dim: false }
    }

    /// In a colour.
    pub open spec fn colored(color: SpanColor) -> SpanStyle {
        SpanStyle { color: Some(color), bold: false, dim: false }
    }

    /// Nothing special.
    pub fn plain() -> (r: SpanStyle)
        ensures
            r == SpanStyle::plain_style(),
    {
        SpanStyle { color: None, bold: false, dim: false }
    }

    /// In a colour.
    pub fn color(color: SpanColor) -> (r: SpanStyle)
        ensures
            r == SpanStyle::colored(color),
    {
        SpanStyle { color: Some(color), bold: false, dim: false }
    }

    /// In bold type.
    pub fn bold(self) -> (r: SpanStyle)
        ensures
            r == (SpanStyle { bold: true, ..self }),
    {
        SpanStyle { color: self.color, bold: true, dim: self.dim }
    }

    /// Dimmed.
    pub fn dim(self) -> (r: SpanStyle)
        ensures
            r == (SpanStyle { dim: true, ..self }),
    {
        SpanStyle { color: self.color, bold: self.bold, dim: true }
    }
}

/// A plain span.
pub open spec fn plain(content: Seq<char>) -> Span {
    Span { content, style: SpanStyle::plain_style() }
}

/// A span in bold type.
pub open spec fn bold(content: Seq<char>) -> Span {
    Span { content, style: SpanStyle { bold: true, ..SpanStyle::plain_style() } }
}

/// A dimmed span.
pub open spec fn dim(content: Seq<char>) -> Span {
    Span { content, style: SpanStyle { dim: true, ..SpanStyle::plain_style() } }
}

/// A span in a colour.
pub open spec fn colored(content: Seq<char>, color: SpanColor) -> Span {
    Span { content, style: SpanStyle::colored(color) }
}

/// A span in a colour and in bold type.
pub open spec fn bold_colored(content: Seq<char>, color: SpanColor) -> Span {
    Span { content, style: SpanStyle { bold: true, ..SpanStyle::colored(color) } }
}

/// Append a span.
fn push_span(spans: &mut Vec<StyledSpan>, content: &str, style: SpanStyle)
    ensures
        span_views(final(spans)@) == span_views(old(spans)@).push(
            Span { content: content@, style },
        ),
{
    let ghost before = spans@;
    spans.push(StyledSpan { content: content.to_owned(), style });
    assert(span_views(spans@) =~= span_views(before).push(Span { content: content@, style }));
}

/// Append a line.
fn push_line(lines: &mut Vec<StyledLine>, spans: Vec<StyledSpan>)
    ensures
        line_views(final(lines)@) == line_views(old(lines)@).push(span_views(spans@)),
{
    let ghost before = lines@;
    lines.push(StyledLine { spans });
    assert(line_views(lines@) =~= line_views(before).push(span_views(spans@)));
}

/// The number of columns that a text takes on a screen.
pub uninterp spec fn display_width(s: Seq<char>) -> nat;

/// Every character is printable ASCII or one of the two line-drawing characters used here: one
/// column each.
pub open spec fn is_single_width(s: Seq<char>) -> bool {
    forall|i: int| 0 <= i < s.len() ==> ' ' <= #[trigger] s[i] <= '~' || s[i] == '─' || s[i] == '└'
}

/// `unicode_width::UnicodeWidthStr::width`: the columns that a text takes, by the rules of Unicode
/// outside of an East Asian context. Of printable ASCII and of the line-drawing characters `─` and
/// `└` it is stated that each takes one column; of other characters nothing is stated but that the
/// width is a function of the text.
#[verifier::external_body]
fn width_of(s: &str) -> (r: usize)
    ensures
        r == display_width(s@),
        is_single_width(s@) ==> r == s@.len(),
{
    UnicodeWidthStr::width(s)
}

/// The columns that some spans take.
pub open spec fn total_width(spans: Seq<Span>) -> nat
    decreases spans.len(),
{
    if spans.len() == 0 {
        0
    } else {
        total_width(spans.drop_last()) + display_width(spans.last().content)
    }
}

/// How many columns are left of `width` after some spans.
fn columns_left(spans: &Vec<StyledSpan>, width: u16) -> (r: u16)
    ensures
        r == left_of(width, total_width(span_views(spans@))),
{
    let ghost all = span_views(spans@);
    let mut used: usize = 0;
    let mut i: usize = 0;
    assert(all.take(0) =~= Seq::<Span>::empty());
    while i < spans.len()
        invariant
            i <= spans.len(),
            all == span_views(spans@),
            used == total_width(all.take(i as int)) || (used == usize::MAX && total_width(
                all.take(i as int),
            ) > usize::MAX),
        decreases spans.len() - i,
    {
        proof {
            assert(all.take(i + 1).drop_last() =~= all.take(i as int));
        }
        used = used.saturating_add(width_of(spans[i].content.as_str()));
        i = i + 1;
    }
    assert(all.take(all.len() as int) =~= all);
    if used >= width as usize {
        0
    } else {
        width - used as u16
    }
}

/// What is left of `width` after `used`.
pub open spec fn left_of(width: u16, used: nat) -> nat {
    if used >= width {
        0
    } else {
        (width - used) as nat
    }
}

/// `n` times the same character.
pub open spec fn repeated(c: char, n: nat) -> Seq<char> {
    Seq::new(n, |i: int| c)
}

/// [`repeated`] as a string.
fn repeat_char(c: char, n: usize) -> (r: String)
    ensures
        r@ == repeated(c, n as nat),
{
    let mut r = String::new();
    let mut i: usize = 0;
    assert(r@ =~= repeated(c, 0));
    while i < n
        invariant
            i <= n,
            r@ == repeated(c, i as nat),
        decreases n - i,
    {
        r.push(c);
        assert(r@ =~= repeated(c, (i + 1) as nat));
        i = i + 1;
    }
    r
}

/// How the session of a round is named: the model, the reasoning effort where it is known, and
/// `[fast]` for the fast tier. Nothing where the model is not known.
pub open spec fn session_label(
    model: Seq<char>,
    effort: Option<Seq<char>>,
    tier: Option<ServiceTier>,
) -> Seq<char> {
    let name = text::trim(model);
    if name.len() == 0 {
        seq![]
    } else {
        name + (match effort {
            Some(e) => " "@ + e,
            None => seq![],
        }) + (if tier == Some(ServiceTier::Fast) {
            " "@ + "[fast]"@
        } else {
            seq![]
        })
    }
}

/// Name the session of a round.
pub fn format_potter_round_session_label(
    model: &str,
    reasoning_effort: Option<&ReasoningEffort>,
    service_tier: Option<ServiceTier>,
) -> (r: String)
    ensures
        r@ == session_label(
            model@,
            match reasoning_effort {
                Some(e) => Some(e.label@),
                None => None,
            },
            service_tier,
        ),
{
    let chars = text::chars_of(model);
    let name = text::trim_of(chars.as_slice());
    if name.len() == 0 {
        return String::new();
    }
    let mut out = text::string_of(name);
    let ghost base = out@;
    match reasoning_effort {
        Some(e) => {
            out.append(" ");
            out.append(e.label.as_str());
            assert(out@ =~= base + (" "@ + e.label@));
        },
        None => {
            assert(out@ =~= base + Seq::<char>::empty());
        },
    }
    let ghost with_effort = out@;
    match service_tier {
        Some(ServiceTier::Fast) => {
            out.append(" ");
            out.append("[fast]");
            assert(out@ =~= with_effort + (" "@ + "[fast]"@));
        },
        _ => {
            assert(out@ =~= with_effort + Seq::<char>::empty());
        },
    }
    out
}

/// A line behind a marker, wrapped with an indentation.
#[derive(Debug, Clone, PartialEq, Eq)]
pub struct PrefixedWrappedHistoryCell {
    pub line: StyledLine,
    pub initial_prefix: StyledSpan,
    pub subsequent_prefix: StyledSpan,
}

/// Mark the beginning of a round.
pub fn new_potter_round_marker(
    current: u32,
    total: u32,
    model: &str,
    reasoning_effort: Option<&ReasoningEffort>,
    service_tier: Option<ServiceTier>,
) -> (r: PrefixedWrappedHistoryCell)
    ensures
        ({
            let label = session_label(
                model@,
                match reasoning_effort {
                    Some(e) => Some(e.label@),
                    None => None,
                },
                service_tier,
            );
            let round = "iteration round "@ + text::decimal(current as nat) + "/"@
                + text::decimal(total as nat);
            &&& r.line@ == seq![
                bold_colored("CodexPotter: "@, SpanColor::Secondary),
                plain(round),
            ] + (if label.len() > 0 {
                seq![plain(" ("@ + label + ")"@)]
            } else {
                seq![]
            })
            &&& r.initial_prefix@ == dim("• "@)
            &&& r.subsequent_prefix@ == plain("  "@)
        }),
{
    let mut round = "iteration round ".to_owned();
    let current_text = text::decimal_of(current as u64);
    let total_text = text::decimal_of(total as u64);
    round.append(current_text.as_str());
    round.append("/");
    round.append(total_text.as_str());
    let label = format_potter_round_session_label(model, reasoning_effort, service_tier);
    let mut spans: Vec<StyledSpan> = Vec::new();
    push_span(&mut spans, "CodexPotter: ", SpanStyle::color(SpanColor::Secondary).bold());
    push_span(&mut spans, round.as_str(), SpanStyle::plain());
    let ghost head = span_views(spans@);
    if !label.as_str().is_empty() {
        let mut shown = " (".to_owned();
        shown.append(label.as_str());
        shown.append(")");
        push_span(&mut spans, shown.as_str(), SpanStyle::plain());
        assert(span_views(spans@) =~= head + seq![plain(shown@)]);
    }
    assert(head =~= seq![
        bold_colored("CodexPotter: "@, SpanColor::Secondary),
        plain(round@),
    ]);
    PrefixedWrappedHistoryCell {
        line: StyledLine { spans },
        initial_prefix: StyledSpan { content: "• ".to_owned(), style: SpanStyle::plain().dim() },
        subsequent_prefix: StyledSpan { content: "  ".to_owned(), style: SpanStyle::plain() },
    }
}

/// Point to the prompt file of a project that was created.
pub fn new_potter_project_hint(user_prompt_file: &str) -> (r: PrefixedWrappedHistoryCell)
    ensures
        r.line@ == seq![dim("Project created: "@), plain(user_prompt_file@)],
        r.initial_prefix@ == dim("  ↳ "@),
        r.subsequent_prefix@ == plain("    "@),
{
    let mut spans: Vec<StyledSpan> = Vec::new();
    push_span(&mut spans, "Project created: ", SpanStyle::plain().dim());
    push_span(&mut spans, user_prompt_file, SpanStyle::plain());
    assert(span_views(spans@) =~= seq![dim("Project created: "@), plain(user_prompt_file@)]);
    PrefixedWrappedHistoryCell {
        line: StyledLine { spans },
        initial_prefix: StyledSpan {
            content: "  ↳ ".to_owned(),
            style: SpanStyle::plain().dim(),
        },
        subsequent_prefix: StyledSpan { content: "    ".to_owned(), style: SpanStyle::plain() },
    }
}

/// How a project ended, as its summary shows it.
#[derive(Debug, Clone, Copy, PartialEq, Eq, Structural)]
pub enum PotterProjectSummaryOutcome {
    Succeeded,
    Interrupted,
    BudgetExhausted,
}

/// The summary at the end of a project.
#[derive(Debug)]
pub struct PotterProjectSummaryCell {
    outcome: PotterProjectSummaryOutcome,
    rounds: u32,
    duration_secs: u64,
    user_prompt_file: String,
    git_commit_start: String,
    git_commit_end: String,
}

/// The summary at the end of a project, mathematically.
pub struct Summary {
    pub outcome: PotterProjectSummaryOutcome,
    pub rounds: u32,
    pub duration_secs: u64,
    pub user_prompt_file: Seq<char>,
    pub git_commit_start: Seq<char>,
    pub git_commit_end: Seq<char>,
}

impl View for PotterProjectSummaryCell {
    type V = Summary;

    closed spec fn view(&self) -> Summary {
        Summary {
            outcome: self.outcome,
            rounds: self.rounds,
            duration_secs: self.duration_secs,
            user_prompt_file: self.user_prompt_file@,
            git_commit_start: self.git_commit_start@,
            git_commit_end: self.git_commit_end@,
        }
    }
}

/// The summary of a project that succeeded.
pub fn new_potter_project_succeeded(
    rounds: u32,
    duration_secs: u64,
    user_prompt_file: String,
    git_commit_start: String,
    git_commit_end: String,
) -> (r: PotterProjectSummaryCell)
    ensures
        r@ == (Summary {
            outcome: PotterProjectSummaryOutcome::Succeeded,
            rounds,
            duration_secs,
            user_prompt_file: user_prompt_file@,
            git_commit_start: git_commit_start@,
            git_commit_end: git_commit_end@,
        }),
{
    PotterProjectSummaryCell {
        outcome: PotterProjectSummaryOutcome::Succeeded,
        rounds,
        duration_secs,
        user_prompt_file,
        git_commit_start,
        git_commit_end,
    }
}

/// The summary of a project that was interrupted.
pub fn new_potter_project_interrupted(
    rounds: u32,
    duration_secs: u64,
    user_prompt_file: String,
    git_commit_start: String,
    git_commit_end: String,
) -> (r: PotterProjectSummaryCell)
    ensures
        r@ == (Summary {
            outcome: PotterProjectSummaryOutcome::Interrupted,
            rounds,
            duration_secs,
            user_prompt_file: user_prompt_file@,
            git_commit_start: git_commit_start@,
            git_commit_end: git_commit_end@,
        }),
{
    PotterProjectSummaryCell {
        outcome: PotterProjectSummaryOutcome::Interrupted,
        rounds,
        duration_secs,
        user_prompt_file,
        git_commit_start,
        git_commit_end,
    }
}

/// The summary of a project that ran out of rounds.
pub fn new_potter_project_budget_exhausted(
    rounds: u32,
    duration_secs: u64,
    user_prompt_file: String,
    git_commit_start: String,
    git_commit_end: String,
) -> (r: PotterProjectSummaryCell)
    ensures
        r@ == (Summary {
            outcome: PotterProjectSummaryOutcome::BudgetExhausted,
            rounds,
            duration_secs,
            user_prompt_file: user_prompt_file@,
            git_commit_start: git_commit_start@,
            git_commit_end: git_commit_end@,
        }),
{
    PotterProjectSummaryCell {
        outcome: PotterProjectSummaryOutcome::BudgetExhausted,
        rounds,
        duration_secs,
        user_prompt_file,
        git_commit_start,
        git_commit_end,
    }
}

/// How many bytes of a commit are shown.
pub const SHORT_SHA_LEN: usize = 7;

/// A commit can be cut where it is shortened.
pub open spec fn can_shorten(commit: Seq<char>) -> bool {
    vstd::utf8::encode_utf8(commit).len() > SHORT_SHA_LEN ==> vstd::utf8::is_char_boundary(
        vstd::utf8::encode_utf8(commit),
        SHORT_SHA_LEN as int,
    )
}

/// The first bytes of a commit.
pub open spec fn shortened(commit: Seq<char>) -> Seq<char> {
    if vstd::utf8::encode_utf8(commit).len() <= SHORT_SHA_LEN {
        commit
    } else {
        vstd::utf8::decode_utf8(vstd::utf8::encode_utf8(commit).subrange(0, SHORT_SHA_LEN as int))
    }
}

/// Shorten a commit for display.
pub fn short_git_commit(commit: &str) -> (r: String)
    requires
        can_shorten(commit@),
    ensures
        r@ == shortened(commit@),
{
    if commit.as_bytes().len() <= SHORT_SHA_LEN {
        return commit.to_owned();
    }
    let (head, _tail) = commit.split_at(SHORT_SHA_LEN);
    proof {
        vstd::utf8::encode_utf8_decode_utf8(head@);
    }
    head.to_owned()
}

/// A label with spaces up to the width of the longest label.
pub open spec fn padded(label: Seq<char>) -> Seq<char> {
    label + repeated(
        ' ',
        (if label.len() < 17 {
            17 - label.len()
        } else {
            0
        }) as nat,
    )
}

/// [`padded`] as a string.
fn pad_label(label: &str) -> (r: String)
    ensures
        r@ == padded(label@),
{
    let chars = text::chars_of(label);
    let n: usize = if chars.len() < 17 {
        17 - chars.len()
    } else {
        0
    };
    let mut out = label.to_owned();
    let spaces = repeat_char(' ', n);
    out.append(spaces.as_str());
    out
}

/// The mark of a project that did not succeed.
pub open spec fn outcome_mark(outcome: PotterProjectSummaryOutcome) -> Seq<Span> {
    match outcome {
        PotterProjectSummaryOutcome::Succeeded => seq![],
        PotterProjectSummaryOutcome::Interrupted => seq![
            plain(" "@),
            colored("(Interrupted)"@, SpanColor::Red),
        ],
        PotterProjectSummaryOutcome::BudgetExhausted => seq![
            plain(" "@),
            colored("(Budget exhausted)"@, SpanColor::Red),
        ],
    }
}

impl Summary {
    /// The header without the rule that fills the line.
    pub open spec fn header_text(self, elapsed: Seq<char>) -> Seq<Span> {
        seq![
            colored("─ "@, SpanColor::Secondary),
            bold_colored("CodexPotter summary:"@, SpanColor::Secondary),
            plain(" "@),
            bold(text::decimal(self.rounds as nat) + " rounds"@),
            plain(" in "@),
            bold(elapsed),
        ] + outcome_mark(self.outcome) + seq![colored(" ─"@, SpanColor::Secondary)]
    }

    /// The header: the rule fills what is left of the line.
    pub open spec fn header(self, width: u16, elapsed: Seq<char>) -> Seq<Span> {
        let head = self.header_text(elapsed);
        let left = left_of(width, total_width(head));
        if left > 0 {
            head.push(colored(repeated('─', left), SpanColor::Secondary))
        } else {
            head
        }
    }

    /// The line with the commits, unless neither is known.
    pub open spec fn git_lines(self) -> Seq<Seq<Span>> {
        if self.git_commit_start.len() == 0 && self.git_commit_end.len() == 0 {
            seq![]
        } else {
            seq![
                seq![
                    plain("  "@),
                    plain(padded("Git:"@)),
                    plain("  "@),
                    colored(shortened(self.git_commit_start), SpanColor::Cyan),
                    plain(" -> "@),
                    colored(shortened(self.git_commit_end), SpanColor::Cyan),
                ],
            ]
        }
    }

    /// A line with a label and a value.
    pub open spec fn value_line(label: Seq<char>, value: Seq<char>) -> Seq<Span> {
        seq![
            plain("  "@),
            plain(padded(label)),
            plain("  "@),
            colored(value, SpanColor::Cyan),
        ]
    }

    /// All lines, where `resume_path` names the project.
    pub open spec fn lines(self, width: u16, elapsed: Seq<char>, resume_path: Seq<char>) -> Seq<
        Seq<Span>,
    > {
        seq![self.header(width, elapsed), seq![]] + self.git_lines() + seq![
            Summary::value_line("Task history:"@, self.user_prompt_file),
            Summary::value_line("Loop more rounds:"@, "codex-potter resume "@ + resume_path),
        ]
    }
}

fn push_value_line(lines: &mut Vec<StyledLine>, label: &str, value: &str)
    ensures
        line_views(final(lines)@) == line_views(old(lines)@).push(
            Summary::value_line(label@, value@),
        ),
{
    let mut spans: Vec<StyledSpan> = Vec::new();
    let shown = pad_label(label);
    push_span(&mut spans, "  ", SpanStyle::plain());
    push_span(&mut spans, shown.as_str(), SpanStyle::plain());
    push_span(&mut spans, "  ", SpanStyle::plain());
    push_span(&mut spans, value, SpanStyle::color(SpanColor::Cyan));
    assert(span_views(spans@) =~= Summary::value_line(label@, value@));
    push_line(lines, spans);
}

impl PotterProjectSummaryCell {
    /// The time that the project took.
    pub fn duration_secs(&self) -> (r: u64)
        ensures
            r == self@.duration_secs,
    {
        self.duration_secs
    }

    fn header_text(&self, elapsed: &str) -> (r: Vec<StyledSpan>)
        ensures
            span_views(r@) == self@.header_text(elapsed@),
    {
        let mut spans: Vec<StyledSpan> = Vec::new();
        let mut rounds = text::decimal_of(self.rounds as u64);
        rounds.append(" rounds");
        push_span(&mut spans, "─ ", SpanStyle::color(SpanColor::Secondary));
        push_span(
            &mut spans,
            "CodexPotter summary:",
            SpanStyle::color(SpanColor::Secondary).bold(),
        );
        push_span(&mut spans, " ", SpanStyle::plain());
        push_span(&mut spans, rounds.as_str(), SpanStyle::plain().bold());
        push_span(&mut spans, " in ", SpanStyle::plain());
        push_span(&mut spans, elapsed, SpanStyle::plain().bold());
        match self.outcome {
            PotterProjectSummaryOutcome::Succeeded => {},
            PotterProjectSummaryOutcome::Interrupted => {
                push_span(&mut spans, " ", SpanStyle::plain());
                push_span(&mut spans, "(Interrupted)", SpanStyle::color(SpanColor::Red));
            },
            PotterProjectSummaryOutcome::BudgetExhausted => {
                push_span(&mut spans, " ", SpanStyle::plain());
                push_span(&mut spans, "(Budget exhausted)", SpanStyle::color(SpanColor::Red));
            },
        }
        push_span(&mut spans, " ─", SpanStyle::color(SpanColor::Secondary));
        assert(span_views(spans@) =~= self@.header_text(elapsed@));
        spans
    }

    /// The lines of the summary, where `elapsed` is the time that the project took, in words, and
    /// `resume_path` names the project.
    pub fn display_lines_for(&self, width: u16, elapsed: &str, resume_path: &str) -> (r: Vec<
        StyledLine,
    >)
        requires
            can_shorten(self@.git_commit_start),
            can_shorten(self@.git_commit_end),
        ensures
            line_views(r@) == self@.lines(width, elapsed@, resume_path@),
            total_width(line_views(r@)[0]) >= width,
            total_width(self@.header_text(elapsed@)) <= width ==> total_width(line_views(r@)[0])
                == width,
    {
        let mut header = self.header_text(elapsed);
        let left = columns_left(&header, width);
        if left > 0 {
            let rule = repeat_char('─', left as usize);
            // Measuring the rule tells that each of its characters takes one column.
            let _columns: usize = width_of(rule.as_str());
            push_span(&mut header, rule.as_str(), SpanStyle::color(SpanColor::Secondary));
            assert(span_views(header@).drop_last() =~= self@.header_text(elapsed@));
        }
        assert(total_width(span_views(header@)) >= width);
        let mut lines: Vec<StyledLine> = Vec::new();
        push_line(&mut lines, header);
        let blank: Vec<StyledSpan> = Vec::new();
        assert(span_views(blank@) =~= seq![]);
        push_line(&mut lines, blank);
        let ghost top = line_views(lines@);
        if !(self.git_commit_start.as_str().is_empty() && self.git_commit_end.as_str().is_empty()) {
            let mut spans: Vec<StyledSpan> = Vec::new();
            let label = pad_label("Git:");
            let start = short_git_commit(self.git_commit_start.as_str());
            let end = short_git_commit(self.git_commit_end.as_str());
            push_span(&mut spans, "  ", SpanStyle::plain());
            push_span(&mut spans, label.as_str(), SpanStyle::plain());
            push_span(&mut spans, "  ", SpanStyle::plain());
            push_span(&mut spans, start.as_str(), SpanStyle::color(SpanColor::Cyan));
            push_span(&mut spans, " -> ", SpanStyle::plain());
            push_span(&mut spans, end.as_str(), SpanStyle::color(SpanColor::Cyan));
            proof {
                assert(span_views(spans@) =~= self@.git_lines()[0]);
            }
            push_line(&mut lines, spans);
        }
        assert(line_views(lines@) =~= top + self@.git_lines());
        push_value_line(&mut lines, "Task history:", self.user_prompt_file.as_str());
        let mut command = "codex-potter resume ".to_owned();
        command.append(resume_path);
        push_value_line(&mut lines, "Loop more rounds:", command.as_str());
        assert(line_views(lines@) =~= self@.lines(width, elapsed@, resume_path@));
        lines
    }

    /// The lines of the summary. The project is named by its short form, or by its prompt file
    /// where it has none.
    pub fn display_lines(&self, width: u16, elapsed: &str) -> (r: Vec<StyledLine>)
        requires
            can_shorten(self@.git_commit_start),
            can_shorten(self@.git_commit_end),
        ensures
            total_width(line_views(r@)[0]) >= width,
            total_width(self@.header_text(elapsed@)) <= width ==> total_width(line_views(r@)[0])
                == width,
            exists|resume_path: Seq<char>|
                line_views(r@) == #[trigger] self@.lines(width, elapsed@, resume_path),
            exists|parts: Seq<paths::Part>|
                line_views(r@) == self@.lines(
                    width,
                    elapsed@,
                    match #[trigger] paths::summary_form(parts) {
                        Some(s) => s,
                        None => self@.user_prompt_file,
                    },
                ),
            paths::is_portable(self@.user_prompt_file) ==> line_views(r@) == self@.lines(
                width,
                elapsed@,
                match paths::summary_form(paths::portable_parts(self@.user_prompt_file)) {
                    Some(s) => s,
                    None => self@.user_prompt_file,
                },
            ),
    {
        let resume_path = match paths::derive_resume_project_path(self.user_prompt_file.as_str()) {
            Some(s) => s,
            None => self.user_prompt_file.clone(),
        };
        self.display_lines_for(width, elapsed, resume_path.as_str())
    }
}

/// Lines that are to be wrapped to a width.
#[derive(Debug)]
pub struct WrapBlock {
    pub lines: Vec<StyledLine>,
    pub width: usize,
    pub initial_indent: StyledLine,
    pub subsequent_indent: StyledLine,
    /// Words that do not fit are to be broken; left to the default where nothing is said.
    pub break_words: Option<bool>,
}

/// The mathematical counterpart of [`WrapBlock`].
pub struct Block {
    pub lines: Seq<Seq<Span>>,
    pub width: nat,
    pub initial_indent: Seq<Span>,
    pub subsequent_indent: Seq<Span>,
    pub break_words: Option<bool>,
}

impl View for WrapBlock {
    type V = Block;

    open spec fn view(&self) -> Block {
        Block {
            lines: line_views(self.lines@),
            width: self.width as nat,
            initial_indent: self.initial_indent@,
            subsequent_indent: self.subsequent_indent@,
            break_words: self.break_words,
        }
    }
}

/// The blocks of a list, mathematically.
pub open spec fn block_views(v: Seq<WrapBlock>) -> Seq<Block> {
    Seq::new(v.len(), |i: int| v[i]@)
}

/// Every line of a text as one span of the same style.
pub open spec fn one_span_lines(ls: Seq<Seq<char>>, style: SpanStyle) -> Seq<Seq<Span>> {
    Seq::new(ls.len(), |i: int| seq![Span { content: ls[i], style }])
}

/// [`one_span_lines`] of the lines of a text.
fn message_lines(message: &str, style: SpanStyle) -> (r: Vec<StyledLine>)
    ensures
        line_views(r@) == one_span_lines(text::lines(message@), style),
{
    let chars = text::chars_of(message);
    let ls = text::lines_of(chars.as_slice());
    let ghost all = text::lines(message@);
    let mut lines: Vec<StyledLine> = Vec::new();
    let mut i: usize = 0;
    assert(line_views(lines@) =~= one_span_lines(all.take(0), style));
    while i < ls.len()
        invariant
            i <= ls.len(),
            all == text::line_texts(ls@),
            line_views(lines@) == one_span_lines(all.take(i as int), style),
        decreases ls.len() - i,
    {
        let mut spans: Vec<StyledSpan> = Vec::new();
        let line = text::string_of(ls[i].as_slice());
        push_span(&mut spans, line.as_str(), style);
        assert(span_views(spans@) =~= seq![Span { content: all[i as int], style }]);
        push_line(&mut lines, spans);
        assert(line_views(lines@) =~= one_span_lines(all.take(i + 1), style));
        i = i + 1;
    }
    assert(all.take(all.len() as int) =~= all);
    lines
}

/// A line of one span.
fn one_span_line(content: &str, style: SpanStyle) -> (r: StyledLine)
    ensures
        r@ == seq![Span { content: content@, style }],
{
    let mut spans: Vec<StyledSpan> = Vec::new();
    push_span(&mut spans, content, style);
    assert(span_views(spans@) =~= seq![Span { content: content@, style }]);
    StyledLine { spans }
}

/// A line without spans.
fn empty_line() -> (r: StyledLine)
    ensures
        r@ == Seq::<Span>::empty(),
{
    let r = StyledLine { spans: Vec::new() };
    assert(r@ =~= Seq::<Span>::empty());
    r
}

/// A list of one line.
fn only_line(spans: Vec<StyledSpan>) -> (r: Vec<StyledLine>)
    ensures
        line_views(r@) == seq![span_views(spans@)],
{
    let mut lines: Vec<StyledLine> = Vec::new();
    push_line(&mut lines, spans);
    assert(line_views(lines@) =~= seq![span_views(spans@)]);
    lines
}

/// Shown while a turn is retried after an error.
#[derive(Debug)]
pub struct PotterStreamRecoveryRetryCell {
    pub attempt: u32,
    pub max_attempts: u32,
    pub error_message: String,
}

/// How an attempt is counted: against the limit, where there is one.
pub open spec fn retry_text(attempt: u32, max_attempts: u32) -> Seq<char> {
    if max_attempts == 0 {
        "retry "@ + text::decimal(attempt as nat)
    } else {
        "retry "@ + text::decimal(attempt as nat) + "/"@ + text::decimal(max_attempts as nat)
    }
}

impl PotterStreamRecoveryRetryCell {
    /// The error as it is to be shown, but for a capital letter at its beginning.
    pub fn error_text(&self) -> (r: String)
        ensures
            r@ == text::trim_start(self.error_message@),
    {
        let chars = text::chars_of(self.error_message.as_str());
        text::string_of(text::trim_start_of(chars.as_slice()))
    }

    /// What is to be wrapped and shown, where `error` is [`Self::error_text`] with a capital
    /// letter at its beginning. Nothing on a screen without columns.
    pub fn display_blocks(&self, width: u16, error: &str) -> (r: Vec<WrapBlock>)
        ensures
            block_views(r@) == (if width == 0 {
                seq![]
            } else {
                seq![
                    Block {
                        lines: seq![
                            seq![
                                bold_colored("CodexPotter"@, SpanColor::Secondary),
                                plain(": "@),
                                plain(retry_text(self.attempt, self.max_attempts)),
                            ],
                        ],
                        width: width as nat,
                        initial_indent: seq![dim("• "@)],
                        subsequent_indent: seq![plain("  "@)],
                        break_words: None,
                    },
                    Block {
                        lines: one_span_lines(
                            text::lines(error@),
                            SpanStyle { dim: true, ..SpanStyle::plain_style() },
                        ),
                        width: width as nat,
                        initial_indent: seq![dim("  └ "@)],
                        subsequent_indent: seq![dim(repeated(' ', display_width("  └ "@)))],
                        break_words: Some(true),
                    },
                ]
            }),
    {
        let mut blocks: Vec<WrapBlock> = Vec::new();
        if width == 0 {
            assert(block_views(blocks@) =~= seq![]);
            return blocks;
        }
        let mut counted = "retry ".to_owned();
        let attempt = text::decimal_of(self.attempt as u64);
        counted.append(attempt.as_str());
        if self.max_attempts != 0 {
            let limit = text::decimal_of(self.max_attempts as u64);
            counted.append("/");
            counted.append(limit.as_str());
        }
        let mut spans: Vec<StyledSpan> = Vec::new();
        push_span(&mut spans, "CodexPotter", SpanStyle::color(SpanColor::Secondary).bold());
        push_span(&mut spans, ": ", SpanStyle::plain());
        push_span(&mut spans, counted.as_str(), SpanStyle::plain());
        assert(span_views(spans@) =~= seq![
            bold_colored("CodexPotter"@, SpanColor::Secondary),
            plain(": "@),
            plain(retry_text(self.attempt, self.max_attempts)),
        ]);
        blocks.push(
            WrapBlock {
                lines: only_line(spans),
                width: width as usize,
                initial_indent: one_span_line("• ", SpanStyle::plain().dim()),
                subsequent_indent: one_span_line("  ", SpanStyle::plain()),
                break_words: None,
            },
        );
        let prefix = "  └ ";
        let indent = repeat_char(' ', width_of(prefix));
        blocks.push(
            WrapBlock {
                lines: message_lines(error, SpanStyle::plain().dim()),
                width: width as usize,
                initial_indent: one_span_line(prefix, SpanStyle::plain().dim()),
                subsequent_indent: one_span_line(indent.as_str(), SpanStyle::plain().dim()),
                break_words: Some(true),
            },
        );
        assert(block_views(blocks@) =~= seq![blocks@[0]@, blocks@[1]@]);
        blocks
    }
}

/// Shown when a turn is given up after errors.
#[derive(Debug)]
pub struct PotterStreamRecoveryUnrecoverableCell {
    pub max_attempts: u32,
    pub error_message: String,
}

/// How a turn that is given up is called.
pub open spec fn unrecoverable_text(max_attempts: u32) -> Seq<char> {
    if max_attempts == 0 {
        "unrecoverable error"@
    } else {
        "unrecoverable error after "@ + text::decimal(max_attempts as nat) + " retries"@
    }
}

impl PotterStreamRecoveryUnrecoverableCell {
    /// The error as it is to be shown, but for a capital letter at its beginning.
    pub fn error_text(&self) -> (r: String)
        ensures
            r@ == text::trim_start(self.error_message@),
    {
        let chars = text::chars_of(self.error_message.as_str());
        text::string_of(text::trim_start_of(chars.as_slice()))
    }

    /// What is to be wrapped and shown, where `error` is [`Self::error_text`] with a capital
    /// letter at its beginning. Nothing on a screen without columns.
    pub fn display_blocks(&self, width: u16, error: &str) -> (r: Vec<WrapBlock>)
        ensures
            block_views(r@) == (if width == 0 {
                seq![]
            } else {
                seq![
                    Block {
                        lines: seq![
                            seq![
                                colored("■ "@, SpanColor::Red),
                                bold_colored("CodexPotter"@, SpanColor::Secondary),
                                colored(": "@, SpanColor::Red),
                                colored(unrecoverable_text(self.max_attempts), SpanColor::Red),
                            ],
                        ],
                        width: width as nat,
                        initial_indent: seq![],
                        subsequent_indent: seq![],
                        break_words: Some(true),
                    },
                    Block {
                        lines: one_span_lines(
                            text::lines(error@),
                            SpanStyle::colored(SpanColor::Red),
                        ),
                        width: width as nat,
                        initial_indent: seq![colored("  "@, SpanColor::Red)],
                        subsequent_indent: seq![colored("  "@, SpanColor::Red)],
                        break_words: Some(true),
                    },
                ]
            }),
    {
        let mut blocks: Vec<WrapBlock> = Vec::new();
        if width == 0 {
            assert(block_views(blocks@) =~= seq![]);
            return blocks;
        }
        let mut called = "unrecoverable error".to_owned();
        if self.max_attempts != 0 {
            let limit = text::decimal_of(self.max_attempts as u64);
            called = "unrecoverable error after ".to_owned();
            called.append(limit.as_str());
            called.append(" retries");
        }
        let red = SpanStyle::color(SpanColor::Red);
        let mut spans: Vec<StyledSpan> = Vec::new();
        push_span(&mut spans, "■ ", red);
        push_span(&mut spans, "CodexPotter", SpanStyle::color(SpanColor::Secondary).bold());
        push_span(&mut spans, ": ", red);
        push_span(&mut spans, called.as_str(), red);
        assert(span_views(spans@) =~= seq![
            colored("■ "@, SpanColor::Red),
            bold_colored("CodexPotter"@, SpanColor::Secondary),
            colored(": "@, SpanColor::Red),
            colored(unrecoverable_text(self.max_attempts), SpanColor::Red),
        ]);
        blocks.push(
            WrapBlock {
                lines: only_line(spans),
                width: width as usize,
                initial_indent: empty_line(),
                subsequent_indent: empty_line(),
                break_words: Some(true),
            },
        );
        blocks.push(
            WrapBlock {
                lines: message_lines(error, red),
                width: width as usize,
                initial_indent: one_span_line("  ", red),
                subsequent_indent: one_span_line("  ", red),
                break_words: Some(true),
            },
        );
        assert(block_views(blocks@) =~= seq![blocks@[0]@, blocks@[1]@]);
        blocks
    }
}

/// Every place in a text of ASCII characters is a boundary.
proof fn lemma_ascii_boundary(chars: Seq<char>, i: int)
    requires
        vstd::utf8::is_ascii_chars(chars),
        0 <= i <= chars.len(),
    ensures
        vstd::utf8::is_char_boundary(vstd::utf8::encode_utf8(chars), i),
    decreases i,
{
    vstd::utf8::encode_utf8_valid_utf8(chars);
    if i > 0 {
        let rest = chars.skip(1);
        let bytes = vstd::utf8::encode_utf8(chars);
        vstd::utf8::is_ascii_chars_encode_utf8(chars);
        assert(vstd::utf8::is_ascii_chars(rest));
        vstd::utf8::is_ascii_chars_encode_utf8(rest);
        lemma_ascii_boundary(rest, i - 1);
        assert(vstd::utf8::pop_first_scalar(bytes) =~= vstd::utf8::encode_utf8(rest));
    }
}

/// A commit of ASCII characters is cut after its seventh character.
pub proof fn law_short_commit(commit: Seq<char>)
    requires
        vstd::utf8::is_ascii_chars(commit),
    ensures
        can_shorten(commit),
        shortened(commit) == (if commit.len() <= 7 {
            commit
        } else {
            commit.take(7)
        }),
{
    vstd::utf8::is_ascii_chars_encode_utf8(commit);
    let bytes = vstd::utf8::encode_utf8(commit);
    if commit.len() > 7 {
        lemma_ascii_boundary(commit, 7);
        let head = commit.take(7);
        assert(vstd::utf8::is_ascii_chars(head));
        vstd::utf8::is_ascii_chars_encode_utf8(head);
        assert(vstd::utf8::encode_utf8(head) =~= bytes.subrange(0, 7));
        vstd::utf8::encode_utf8_decode_utf8(head);
    }
}

/// The rule of the summary takes exactly the columns that the rest of the header leaves.
pub proof fn law_rule_fills_the_line(s: Summary, width: u16, elapsed: Seq<char>)
    ensures
        ({
            let head = s.header_text(elapsed);
            let header = s.header(width, elapsed);
            &&& total_width(head) >= width ==> header == head
            &&& total_width(head) < width ==> {
                &&& header.len() == head.len() + 1
                &&& header.last().content.len() + total_width(head) == width
            }
        }),
{
}

/// The mark of a project that did not succeed is red, and not in bold type; a project that
/// succeeded has none.
pub proof fn law_outcome_mark_is_red(s: Summary, width: u16, elapsed: Seq<char>)
    ensures
        s.outcome == PotterProjectSummaryOutcome::Interrupted ==> s.header(width, elapsed)[7]
            == colored("(Interrupted)"@, SpanColor::Red),
        s.outcome == PotterProjectSummaryOutcome::BudgetExhausted ==> s.header(width, elapsed)[7]
            == colored("(Budget exhausted)"@, SpanColor::Red),
        s.outcome == PotterProjectSummaryOutcome::Succeeded ==> forall|i: int|
            0 <= i < s.header(width, elapsed).len() ==> #[trigger] s.header(
                width,
                elapsed,
            )[i].style.color != Some(SpanColor::Red),
{
}

/// A session is named by its model, without white space around it, by the effort where it is known,
/// and as fast where it is; a session without a model has no name.
pub proof fn law_session_label(model: Seq<char>, effort: Seq<char>, tier: Option<ServiceTier>)
    ensures
        text::trim(model).len() == 0 ==> session_label(model, Some(effort), tier).len() == 0
            && session_label(model, None, tier).len() == 0,
        text::trim(model).len() > 0 ==> {
            &&& !(tier == Some(ServiceTier::Fast)) ==> session_label(model, None, tier)
                == text::trim(model)
            &&& !(tier == Some(ServiceTier::Fast)) ==> session_label(model, Some(effort), tier)
                == text::trim(model) + " "@ + effort
            &&& session_label(model, None, Some(ServiceTier::Fast)) == text::trim(model)
                + " [fast]"@
            &&& session_label(model, Some(effort), Some(ServiceTier::Fast)) == text::trim(model)
                + " "@ + effort + " [fast]"@
        },
{
    reveal_strlit(" ");
    reveal_strlit("[fast]");
    reveal_strlit(" [fast]");
    let name = text::trim(model);
    assert(" "@ + "[fast]"@ =~= " [fast]"@);
    if name.len() > 0 {
        if tier != Some(ServiceTier::Fast) {
            assert(session_label(model, None, tier) =~= name);
            assert(session_label(model, Some(effort), tier) =~= name + " "@ + effort);
        }
        assert(session_label(model, None, Some(ServiceTier::Fast)) =~= name + " [fast]"@);
        assert(session_label(model, Some(effort), Some(ServiceTier::Fast)) =~= name + " "@ + effort
            + " [fast]"@);
    }
}

/// A label keeps its text, and takes at least seventeen columns, the rest being spaces.
pub proof fn law_label_is_padded(label: Seq<char>)
    ensures
        padded(label).take(label.len() as int) == label,
        padded(label).len() == if label.len() < 17 {
            17
        } else {
            label.len()
        },
        forall|i: int| label.len() <= i < padded(label).len() ==> padded(label)[i] == ' ',
{
    assert(padded(label).take(label.len() as int) =~= label);
}

/// The header of a summary says how many rounds the project ran and in what time.
pub proof fn law_header_tells_rounds_and_time(s: Summary, width: u16, elapsed: Seq<char>)
    ensures
        s.header(width, elapsed)[0] == colored("─ "@, SpanColor::Secondary),
        s.header(width, elapsed)[1] == bold_colored("CodexPotter summary:"@, SpanColor::Secondary),
        s.header(width, elapsed)[2] == plain(" "@),
        s.header(width, elapsed)[3] == bold(text::decimal(s.rounds as nat) + " rounds"@),
        s.header(width, elapsed)[4] == plain(" in "@),
        s.header(width, elapsed)[5] == bold(elapsed),
        s.outcome is Succeeded ==> s.header(width, elapsed)[6] == colored(
            " ─"@,
            SpanColor::Secondary,
        ),
        !(s.outcome is Succeeded) ==> s.header(width, elapsed)[6] == plain(" "@) && s.header(
            width,
            elapsed,
        )[8] == colored(" ─"@, SpanColor::Secondary),
        total_width(s.header_text(elapsed)) < width ==> {
            let rule = s.header(width, elapsed).last();
            &&& rule.style == SpanStyle::colored(SpanColor::Secondary)
            &&& forall|i: int| 0 <= i < rule.content.len() ==> rule.content[i] == '─'
        },
{
}

/// The lines of a summary: its header and an empty line, the commits at which the project began and
/// ended, where either is known, its prompt file, and the command that resumes it by its name.
pub proof fn law_summary_names_what_it_is_about(
    s: Summary,
    width: u16,
    elapsed: Seq<char>,
    resume_path: Seq<char>,
)
    ensures
        ({
            let lines = s.lines(width, elapsed, resume_path);
            let no_commits = s.git_commit_start.len() == 0 && s.git_commit_end.len() == 0;
            let n = lines.len() as int;
            &&& n == if no_commits {
                4
            } else {
                5int
            }
            &&& lines[0] == s.header(width, elapsed)
            &&& lines[1] == Seq::<Span>::empty()
            &&& !no_commits ==> lines[2] == seq![
                plain("  "@),
                plain(padded("Git:"@)),
                plain("  "@),
                colored(shortened(s.git_commit_start), SpanColor::Cyan),
                plain(" -> "@),
                colored(shortened(s.git_commit_end), SpanColor::Cyan),
            ]
            &&& lines[n - 2] == seq![
                plain("  "@),
                plain(padded("Task history:"@)),
                plain("  "@),
                colored(s.user_prompt_file, SpanColor::Cyan),
            ]
            &&& lines[n - 1] == seq![
                plain("  "@),
                plain(padded("Loop more rounds:"@)),
                plain("  "@),
                colored("codex-potter resume "@ + resume_path, SpanColor::Cyan),
            ]
        }),
{
    assert(s.lines(width, elapsed, resume_path)[1] =~= Seq::<Span>::empty());
}

/// The styles differ in what they are called for, and the text is kept by each of them.
pub proof fn law_styles(content: Seq<char>, color: SpanColor)
    ensures
        plain(content).content == content && plain(content).style.color is None && !plain(
            content,
        ).style.bold && !plain(content).style.dim,
        bold(content).content == content && bold(content).style.color is None && bold(
            content,
        ).style.bold && !bold(content).style.dim,
        dim(content).content == content && dim(content).style.color is None && !dim(
            content,
        ).style.bold && dim(content).style.dim,
        colored(content, color).content == content && colored(content, color).style.color == Some(
            color,
        ) && !colored(content, color).style.bold && !colored(content, color).style.dim,
        bold_colored(content, color).content == content && bold_colored(content, color).style.color
            == Some(color) && bold_colored(content, color).style.bold && !bold_colored(
            content,
            color,
        ).style.dim,
{
}

/// Every line of a message is shown, whole, in order and in the same style.
pub proof fn law_every_line_is_shown(ls: Seq<Seq<char>>, style: SpanStyle, i: int)
    requires
        0 <= i < ls.len(),
    ensures
        one_span_lines(ls, style).len() == ls.len(),
        one_span_lines(ls, style)[i].len() == 1,
        one_span_lines(ls, style)[i][0].content == ls[i],
        one_span_lines(ls, style)[i][0].style == style,
{
}

/// An attempt is shown with its number, and with the limit where there is one; so is the end of the
/// attempts.
pub proof fn law_attempts_are_shown(attempt: u32, max_attempts: u32)
    ensures
        retry_text(attempt, 0) == "retry "@ + text::decimal(attempt as nat),
        max_attempts > 0 ==> retry_text(attempt, max_attempts) == "retry "@ + text::decimal(
            attempt as nat,
        ) + "/"@ + text::decimal(max_attempts as nat),
        unrecoverable_text(0) == "unrecoverable error"@,
        max_attempts > 0 ==> unrecoverable_text(max_attempts) == "unrecoverable error after "@
            + text::decimal(max_attempts as nat) + " retries"@,
{
}

/// What some spans take is what each of them takes, and what is left of a line is the rest, if any.
pub proof fn law_columns_add_up(a: Seq<Span>, span: Span, width: u16, used: nat)
    ensures
        total_width(Seq::<Span>::empty()) == 0,
        total_width(a.push(span)) == total_width(a) + display_width(span.content),
        used <= width ==> left_of(width, used) + used == width,
        used >= width ==> left_of(width, used) == 0,
{
    assert(a.push(span).drop_last() =~= a);
}

/// Spans, lines and blocks have as many counterparts, each in its place, with what they hold.
pub proof fn law_every_span_has_its_place(
    line: StyledLine,
    lines: Seq<StyledLine>,
    blocks: Seq<WrapBlock>,
    i: int,
    j: int,
    k: int,
)
    requires
        0 <= i < line.spans@.len(),
        0 <= j < lines.len(),
        0 <= k < blocks.len(),
    ensures
        line@.len() == line.spans@.len(),
        line@[i].content == line.spans@[i].content@,
        line@[i].style == line.spans@[i].style,
        line_views(lines).len() == lines.len(),
        line_views(lines)[j] == lines[j]@,
        block_views(blocks).len() == blocks.len(),
        block_views(blocks)[k].lines == line_views(blocks[k].lines@),
        block_views(blocks)[k].width == blocks[k].width,
        block_views(blocks)[k].initial_indent == blocks[k].initial_indent@,
        block_views(blocks)[k].subsequent_indent == blocks[k].subsequent_indent@,
        block_views(blocks)[k].break_words == blocks[k].break_words,
{
}

/// A commit is shown by its first seven bytes, where it has more, and whole where it has not.
pub proof fn law_short_commit_in_bytes(commit: Seq<char>)
    requires
        can_shorten(commit),
    ensures
        ({
            let bytes = vstd::utf8::encode_utf8(commit);
            &&& bytes.len() <= 7 ==> shortened(commit) == commit
            &&& bytes.len() > 7 ==> vstd::utf8::encode_utf8(shortened(commit)) == bytes.subrange(
                0,
                7,
            )
        }),
{
    let bytes = vstd::utf8::encode_utf8(commit);
    if bytes.len() > 7 {
        vstd::utf8::encode_utf8_valid_utf8(commit);
        vstd::utf8::valid_utf8_split(bytes, 7);
        vstd::utf8::decode_utf8_encode_utf8(bytes.subrange(0, 7));
    }
}

} // verus!
