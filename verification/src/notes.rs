//! Notes that are printed when the program exits.

use vstd::prelude::*;

use crate::text;

verus! {

/// The escape sequence that ends all styles.
pub const ANSI_RESET: &'static str = "\u{1b}[0m";

/// The escape sequence of bold type.
pub const ANSI_BOLD: &'static str = "\u{1b}[1m";

/// The escape sequence of cyan.
pub const ANSI_CYAN: &'static str = "\u{1b}[36m";

/// A text between an escape sequence and the one that ends it; the bare text without colours.
pub open spec fn styled(style: Seq<char>, s: Seq<char>, color_enabled: bool) -> Seq<char> {
    if color_enabled {
        style + s + ANSI_RESET@
    } else {
        s
    }
}

/// A text in bold type.
pub fn ansi_bold(s: &str, color_enabled: bool) -> (r: String)
    ensures
        r@ == styled(ANSI_BOLD@, s@, color_enabled),
{
    if !color_enabled {
        return s.to_owned();
    }
    let mut out = ANSI_BOLD.to_owned();
    out.append(s);
    out.append(ANSI_RESET);
    out
}

/// A text in cyan.
pub fn ansi_cyan(s: &str, color_enabled: bool) -> (r: String)
    ensures
        r@ == styled(ANSI_CYAN@, s@, color_enabled),
{
    if !color_enabled {
        return s.to_owned();
    }
    let mut out = ANSI_CYAN.to_owned();
    out.append(s);
    out.append(ANSI_RESET);
    out
}

/// How to resume a project.
pub fn render_resume_note(project_path: &str, color_enabled: bool) -> (r: String)
    ensures
        r@ == styled(ANSI_BOLD@, "Note:"@, color_enabled) + " To continue this project, run:\n  "@
            + styled(ANSI_CYAN@, "codex-potter resume "@ + project_path@, color_enabled) + "\n"@,
{
    let mut command = "codex-potter resume ".to_owned();
    command.append(project_path);
    let shown = ansi_cyan(command.as_str(), color_enabled);
    let mut out = ansi_bold("Note:", color_enabled);
    out.append(" To continue this project, run:\n  ");
    out.append(shown.as_str());
    out.append("\n");
    out
}

/// A text that ends in a newline.
pub open spec fn with_newline(s: Seq<char>) -> Seq<char> {
    if s.len() > 0 && s.last() == '\n' {
        s
    } else {
        s.push('\n')
    }
}

/// The number of a queued prompt, out of all.
pub open spec fn counted(index: nat, count: nat) -> Seq<char> {
    text::decimal(index) + "/"@ + text::decimal(count)
}

/// A queued prompt between two lines that count it.
pub open spec fn prompt_block(prompt: Seq<char>, index: nat, count: nat) -> Seq<char> {
    "--- queued prompt "@ + counted(index, count) + " ---\n"@ + with_newline(prompt)
        + "--- end queued prompt "@ + counted(index, count) + " ---\n"@
}

/// The first `n` queued prompts, out of `count`.
pub open spec fn prompt_blocks(prompts: Seq<Seq<char>>, n: nat, count: nat) -> Seq<char>
    decreases n,
{
    if n == 0 {
        seq![]
    } else {
        prompt_blocks(prompts, (n - 1) as nat, count) + prompt_block(prompts[n - 1], n, count)
    }
}

/// What precedes the queued prompts.
pub open spec fn queued_header(count: nat, color_enabled: bool) -> Seq<char> {
    "\n"@ + styled(ANSI_BOLD@, "Warning:"@, color_enabled) + " You have "@ + text::decimal(count)
        + " queued "@ + (if count == 1 {
        "prompt"@
    } else {
        "prompts"@
    }) + " that "@ + (if count == 1 {
        "was"@
    } else {
        "were"@
    }) + " not run before exiting.\nCopy/paste them to continue:\n"@
}

/// The note on prompts that were queued and not run; none where there are none.
pub open spec fn queued_note(prompts: Seq<Seq<char>>, color_enabled: bool) -> Option<Seq<char>> {
    if prompts.len() == 0 {
        None
    } else {
        Some(
            queued_header(prompts.len(), color_enabled) + prompt_blocks(
                prompts,
                prompts.len(),
                prompts.len(),
            ),
        )
    }
}

/// Append a queued prompt to a note.
fn push_prompt_block(note: &mut String, prompt: &str, index: u64, count: u64)
    ensures
        final(note)@ == old(note)@ + prompt_block(prompt@, index as nat, count as nat),
{
    let ghost before = note@;
    let mut number = text::decimal_of(index);
    let all = text::decimal_of(count);
    number.append("/");
    number.append(all.as_str());
    note.append("--- queued prompt ");
    note.append(number.as_str());
    note.append(" ---\n");
    note.append(prompt);
    let chars = text::chars_of(prompt);
    if chars.len() == 0 || chars[chars.len() - 1] != '\n' {
        note.push('\n');
    }
    note.append("--- end queued prompt ");
    note.append(number.as_str());
    note.append(" ---\n");
    assert(note@ =~= before + prompt_block(prompt@, index as nat, count as nat));
}

/// The note on prompts that were queued and not run, as they were typed.
pub fn render_queued_prompts_note(queued_prompts: &[String], color_enabled: bool) -> (r: Option<
    String,
>)
    ensures
        text::opt_text(r) == queued_note(text::texts(queued_prompts@), color_enabled),
{
    if queued_prompts.len() == 0 {
        return None;
    }
    let count = queued_prompts.len();
    let count_text = text::decimal_of(count as u64);
    let label = if count == 1 {
        "prompt"
    } else {
        "prompts"
    };
    let verb = if count == 1 {
        "was"
    } else {
        "were"
    };
    let warning = ansi_bold("Warning:", color_enabled);
    let mut note = "\n".to_owned();
    note.append(warning.as_str());
    note.append(" You have ");
    note.append(count_text.as_str());
    note.append(" queued ");
    note.append(label);
    note.append(" that ");
    note.append(verb);
    note.append(" not run before exiting.\nCopy/paste them to continue:\n");
    let ghost header = queued_header(count as nat, color_enabled);
    assert(note@ =~= header);
    let ghost prompts = text::texts(queued_prompts@);
    let mut i: usize = 0;
    assert(note@ =~= header + prompt_blocks(prompts, 0, count as nat));
    while i < queued_prompts.len()
        invariant
            i <= queued_prompts.len(),
            count == queued_prompts.len(),
            prompts == text::texts(queued_prompts@),
            note@ == header + prompt_blocks(prompts, i as nat, count as nat),
        decreases queued_prompts.len() - i,
    {
        let ghost before = note@;
        push_prompt_block(
            &mut note,
            queued_prompts[i].as_str(),
            i as u64 + 1,
            count as u64,
        );
        assert(note@ =~= header + prompt_blocks(prompts, (i + 1) as nat, count as nat));
        i = i + 1;
    }
    Some(note)
}

/// Without colours, a text that is styled is the text itself.
pub proof fn law_no_colors_no_escapes(style: Seq<char>, s: Seq<char>)
    ensures
        styled(style, s, false) == s,
{
}

/// Every queued prompt is in the note as it was typed.
pub proof fn law_note_keeps_every_prompt(prompts: Seq<Seq<char>>, color_enabled: bool, i: int)
    requires
        0 <= i < prompts.len(),
    ensures
        text::occurs(queued_note(prompts, color_enabled)->0, prompts[i]),
{
    let n = prompts.len();
    let header = queued_header(n, color_enabled);
    let note = queued_note(prompts, color_enabled)->0;
    let at = lemma_block_occurs(prompts, n, n, i);
    let blocks = prompt_blocks(prompts, n, n);
    let k = header.len() + at;
    assert(note.subrange(k, k + prompts[i].len()) =~= blocks.subrange(at, at + prompts[i].len()));
    assert(text::occurs_at(note, prompts[i], k));
}

/// Where the text of prompt `i` stands among the first `n` prompts.
proof fn lemma_block_occurs(prompts: Seq<Seq<char>>, n: nat, count: nat, i: int) -> (at: int)
    requires
        0 <= i < n <= prompts.len(),
    ensures
        text::occurs_at(prompt_blocks(prompts, n, count), prompts[i], at),
    decreases n,
{
    let before = prompt_blocks(prompts, (n - 1) as nat, count);
    let block = prompt_block(prompts[n - 1], n, count);
    let all = prompt_blocks(prompts, n, count);
    if i == n - 1 {
        let head = "--- queued prompt "@ + counted(n, count) + " ---\n"@;
        let at = (before.len() + head.len()) as int;
        assert(with_newline(prompts[i]).take(prompts[i].len() as int) =~= prompts[i]);
        assert(all.subrange(at, at + prompts[i].len()) =~= prompts[i]);
        at
    } else {
        let at = lemma_block_occurs(prompts, (n - 1) as nat, count, i);
        assert(all.subrange(at, at + prompts[i].len()) =~= before.subrange(
            at,
            at + prompts[i].len(),
        ));
        at
    }
}

/// With colours, a text that is styled stands between the escape sequence of its style and the one
/// that ends all styles, unchanged.
pub proof fn law_styled_text_is_kept(s: Seq<char>)
    ensures
        styled(ANSI_BOLD@, s, true) == seq!['\u{1b}', '[', '1', 'm'] + s + seq![
            '\u{1b}',
            '[',
            '0',
            'm',
        ],
        styled(ANSI_CYAN@, s, true) == seq!['\u{1b}', '[', '3', '6', 'm'] + s + seq![
            '\u{1b}',
            '[',
            '0',
            'm',
        ],
{
    reveal_strlit("\u{1b}[0m");
    reveal_strlit("\u{1b}[1m");
    reveal_strlit("\u{1b}[36m");
    assert(ANSI_RESET@ =~= seq!['\u{1b}', '[', '0', 'm']);
    assert(ANSI_BOLD@ =~= seq!['\u{1b}', '[', '1', 'm']);
    assert(ANSI_CYAN@ =~= seq!['\u{1b}', '[', '3', '6', 'm']);
}

/// A queued prompt stands, as it was typed, between two lines with its number and the number of
/// all; a newline is added to it only where it lacks one.
pub proof fn law_prompt_stands_between_its_lines(prompt: Seq<char>, index: nat, count: nat)
    ensures
        ({
            let number = text::decimal(index) + "/"@ + text::decimal(count);
            let first = "--- queued prompt "@ + number + " ---\n"@;
            let last = "--- end queued prompt "@ + number + " ---\n"@;
            if prompt.len() > 0 && prompt.last() == '\n' {
                prompt_block(prompt, index, count) == first + prompt + last
            } else {
                prompt_block(prompt, index, count) == first + prompt + "\n"@ + last
            }
        }),
{
    reveal_strlit("\n");
    let number = text::decimal(index) + "/"@ + text::decimal(count);
    let first = "--- queued prompt "@ + number + " ---\n"@;
    let last = "--- end queued prompt "@ + number + " ---\n"@;
    if prompt.len() > 0 && prompt.last() == '\n' {
        assert(prompt_block(prompt, index, count) =~= first + prompt + last);
    } else {
        assert(prompt_block(prompt, index, count) =~= first + prompt + "\n"@ + last);
    }
}

proof fn lemma_blocks_flatten(prompts: Seq<Seq<char>>, n: nat, count: nat)
    requires
        n <= prompts.len(),
    ensures
        prompt_blocks(prompts, n, count) == Seq::new(
            n,
            |i: int| prompt_block(prompts[i], (i + 1) as nat, count),
        ).flatten(),
    decreases n,
{
    let blocks = Seq::new(n, |i: int| prompt_block(prompts[i], (i + 1) as nat, count));
    if n == 0 {
        assert(blocks.flatten() =~= seq![]);
    } else {
        let m = (n - 1) as nat;
        lemma_blocks_flatten(prompts, m, count);
        let front = Seq::new(m, |i: int| prompt_block(prompts[i], (i + 1) as nat, count));
        let last = prompt_block(prompts[n - 1], n, count);
        assert(blocks =~= front.push(last));
        front.lemma_flatten_push(last);
    }
}

/// The note says how many prompts there are, and holds all of them, in order and numbered from one,
/// and nothing after them; without prompts there is no note.
pub proof fn law_note_holds_the_prompts_in_order(prompts: Seq<Seq<char>>, color_enabled: bool)
    ensures
        prompts.len() == 0 <==> queued_note(prompts, color_enabled) is None,
        prompts.len() > 0 ==> queued_note(prompts, color_enabled) == Some(
            queued_header(prompts.len(), color_enabled) + Seq::new(
                prompts.len(),
                |i: int| prompt_block(prompts[i], (i + 1) as nat, prompts.len()),
            ).flatten(),
        ),
        prompts.len() == 1 ==> queued_header(prompts.len(), color_enabled) == "\n"@ + styled(
            ANSI_BOLD@,
            "Warning:"@,
            color_enabled,
        ) + " You have "@ + text::decimal(1) + " queued "@ + "prompt"@ + " that "@ + "was"@
            + " not run before exiting.\nCopy/paste them to continue:\n"@,
        prompts.len() > 1 ==> queued_header(prompts.len(), color_enabled) == "\n"@ + styled(
            ANSI_BOLD@,
            "Warning:"@,
            color_enabled,
        ) + " You have "@ + text::decimal(prompts.len()) + " queued "@ + "prompts"@ + " that "@
            + "were"@ + " not run before exiting.\nCopy/paste them to continue:\n"@,
{
    lemma_blocks_flatten(prompts, prompts.len(), prompts.len());
}

} // verus!
