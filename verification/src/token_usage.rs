//! Token accounting of a session.

use vstd::prelude::*;

verus! {

/// Tokens that every conversation holds: prompts, tools, and room to call compact.
pub const BASELINE_TOKENS: i64 = 12000;

/// Token counts, of one turn or of a whole session.
#[derive(Debug, PartialEq, Eq)]
pub struct TokenUsage {
    pub input_tokens: i64,
    pub cached_input_tokens: i64,
    pub output_tokens: i64,
    pub reasoning_output_tokens: i64,
    pub total_tokens: i64,
}

/// Token counts of a session: the total so far, and those of the last turn.
#[derive(Debug, PartialEq, Eq)]
pub struct TokenUsageInfo {
    pub total_token_usage: TokenUsage,
    pub last_token_usage: TokenUsage,
    pub model_context_window: Option<i64>,
}

/// Token counts as printed at the end of a session.
#[derive(Debug, Clone)]
pub struct FinalOutput {
    pub token_usage: TokenUsage,
}

/// The counts that the final line shows; those that are not positive are left out where the line
/// shows them in brackets.
#[derive(Debug, Clone, Copy, PartialEq, Eq)]
pub struct FinalOutputCounts {
    pub total: i64,
    pub input: i64,
    pub cached: Option<i64>,
    pub output: i64,
    pub reasoning: Option<i64>,
}

/// The larger of a number and zero.
pub open spec fn at_least_zero(n: int) -> int {
    if n > 0 {
        n
    } else {
        0
    }
}

/// A number fits in the counters.
pub open spec fn fits(n: int) -> bool {
    i64::MIN <= n <= i64::MAX
}

impl Clone for TokenUsage {
    /// The same counts.
    fn clone(&self) -> (r: Self)
        ensures
            r == *self,
    {
        TokenUsage {
            input_tokens: self.input_tokens,
            cached_input_tokens: self.cached_input_tokens,
            output_tokens: self.output_tokens,
            reasoning_output_tokens: self.reasoning_output_tokens,
            total_tokens: self.total_tokens,
        }
    }
}

impl Clone for TokenUsageInfo {
    /// The same counts.
    fn clone(&self) -> (r: Self)
        ensures
            r == *self,
    {
        TokenUsageInfo {
            total_token_usage: self.total_token_usage.clone(),
            last_token_usage: self.last_token_usage.clone(),
            model_context_window: self.model_context_window,
        }
    }
}

impl Default for TokenUsage {
    /// No tokens.
    fn default() -> (r: Self)
        ensures
            r == TokenUsage::zero(),
    {
        TokenUsage {
            input_tokens: 0,
            cached_input_tokens: 0,
            output_tokens: 0,
            reasoning_output_tokens: 0,
            total_tokens: 0,
        }
    }
}

impl TokenUsage {
    /// No tokens.
    pub open spec fn zero() -> TokenUsage {
        TokenUsage {
            input_tokens: 0,
            cached_input_tokens: 0,
            output_tokens: 0,
            reasoning_output_tokens: 0,
            total_tokens: 0,
        }
    }

    /// Nothing but a total.
    pub open spec fn total_only(total: int) -> TokenUsage {
        TokenUsage { total_tokens: total as i64, ..TokenUsage::zero() }
    }

    /// The sum of two usages can be counted.
    pub open spec fn can_sum(self, other: TokenUsage) -> bool {
        &&& fits(self.input_tokens + other.input_tokens)
        &&& fits(self.cached_input_tokens + other.cached_input_tokens)
        &&& fits(self.output_tokens + other.output_tokens)
        &&& fits(self.reasoning_output_tokens + other.reasoning_output_tokens)
        &&& fits(self.total_tokens + other.total_tokens)
    }

    /// The sum of two usages.
    pub open spec fn sum(self, other: TokenUsage) -> TokenUsage {
        TokenUsage {
            input_tokens: (self.input_tokens + other.input_tokens) as i64,
            cached_input_tokens: (self.cached_input_tokens + other.cached_input_tokens) as i64,
            output_tokens: (self.output_tokens + other.output_tokens) as i64,
            reasoning_output_tokens: (self.reasoning_output_tokens
                + other.reasoning_output_tokens) as i64,
            total_tokens: (self.total_tokens + other.total_tokens) as i64,
        }
    }

    /// Input that was read from the cache.
    pub open spec fn cached(self) -> int {
        at_least_zero(self.cached_input_tokens as int)
    }

    /// Input that was not read from the cache.
    pub open spec fn non_cached(self) -> int {
        at_least_zero(self.input_tokens - self.cached())
    }

    /// Input that was not read from the cache, and output.
    pub open spec fn blended(self) -> int {
        self.non_cached() + at_least_zero(self.output_tokens as int)
    }

    /// Nothing was used.
    pub fn is_zero(&self) -> (r: bool)
        ensures
            r == (self.total_tokens == 0),
    {
        self.total_tokens == 0
    }

    /// Input that was read from the cache.
    pub fn cached_input(&self) -> (r: i64)
        ensures
            r == self.cached(),
    {
        if self.cached_input_tokens > 0 {
            self.cached_input_tokens
        } else {
            0
        }
    }

    /// Input that was not read from the cache.
    pub fn non_cached_input(&self) -> (r: i64)
        requires
            fits(self.input_tokens - self.cached()),
        ensures
            r == self.non_cached(),
    {
        let n = self.input_tokens - self.cached_input();
        if n > 0 {
            n
        } else {
            0
        }
    }

    /// Primary count for display as a single value: input that was not read from the cache, and
    /// output.
    pub fn blended_total(&self) -> (r: i64)
        requires
            fits(self.input_tokens - self.cached()),
            fits(self.blended()),
        ensures
            r == self.blended(),
    {
        let output = if self.output_tokens > 0 {
            self.output_tokens
        } else {
            0
        };
        self.non_cached_input() + output
    }

    /// Tokens that the context window holds.
    pub fn tokens_in_context_window(&self) -> (r: i64)
        ensures
            r == self.total_tokens,
    {
        self.total_tokens
    }

    /// How much of the context window is left to the user: the tokens that are left, out of the
    /// tokens that there are, both without the baseline. `None` for a window that the baseline
    /// fills.
    pub fn context_window_remaining(&self, context_window: i64) -> (r: Option<(i64, i64)>)
        requires
            context_window > BASELINE_TOKENS ==> fits(self.total_tokens - BASELINE_TOKENS),
        ensures
            match r {
                Some((remaining, effective)) => {
                    &&& context_window > BASELINE_TOKENS
                    &&& effective == context_window - BASELINE_TOKENS
                    &&& remaining == at_least_zero(
                        effective - at_least_zero(self.total_tokens - BASELINE_TOKENS),
                    )
                    &&& 0 <= remaining <= effective
                },
                None => context_window <= BASELINE_TOKENS,
            },
    {
        if context_window <= BASELINE_TOKENS {
            return None;
        }
        let effective = context_window - BASELINE_TOKENS;
        let over = self.tokens_in_context_window() - BASELINE_TOKENS;
        let used = if over > 0 {
            over
        } else {
            0
        };
        let left = effective - used;
        let remaining = if left > 0 {
            left
        } else {
            0
        };
        Some((remaining, effective))
    }

    /// Count another usage in.
    pub fn add_assign(&mut self, other: &TokenUsage)
        requires
            old(self).can_sum(*other),
        ensures
            *final(self) == old(self).sum(*other),
    {
        self.input_tokens = self.input_tokens + other.input_tokens;
        self.cached_input_tokens = self.cached_input_tokens + other.cached_input_tokens;
        self.output_tokens = self.output_tokens + other.output_tokens;
        self.reasoning_output_tokens = self.reasoning_output_tokens
            + other.reasoning_output_tokens;
        self.total_tokens = self.total_tokens + other.total_tokens;
    }
}

impl TokenUsageInfo {
    /// Nothing counted yet.
    pub open spec fn empty(model_context_window: Option<i64>) -> TokenUsageInfo {
        TokenUsageInfo {
            total_token_usage: TokenUsage::zero(),
            last_token_usage: TokenUsage::zero(),
            model_context_window,
        }
    }

    /// With one more turn counted in.
    pub open spec fn appended(self, last: TokenUsage) -> TokenUsageInfo {
        TokenUsageInfo {
            total_token_usage: self.total_token_usage.sum(last),
            last_token_usage: last,
            ..self
        }
    }

    /// With a context window that is full.
    pub open spec fn filled(self, context_window: i64) -> TokenUsageInfo {
        TokenUsageInfo {
            total_token_usage: TokenUsage::total_only(context_window as int),
            last_token_usage: TokenUsage::total_only(
                at_least_zero(context_window - self.total_token_usage.total_tokens),
            ),
            model_context_window: Some(context_window),
        }
    }

    /// The counts of a session after another turn: `None` while nothing was counted. The context
    /// window is taken up when the first turn is counted.
    pub fn new_or_append(
        info: &Option<TokenUsageInfo>,
        last: &Option<TokenUsage>,
        model_context_window: Option<i64>,
    ) -> (r: Option<TokenUsageInfo>)
        requires
            match (*info, *last) {
                (Some(i), Some(l)) => i.total_token_usage.can_sum(l),
                _ => true,
            },
        ensures
            r == (match (*info, *last) {
                (None, None) => None,
                (Some(i), None) => Some(i),
                (Some(i), Some(l)) => Some(i.appended(l)),
                (None, Some(l)) => Some(TokenUsageInfo::empty(model_context_window).appended(l)),
            }),
    {
        let mut current = match info {
            Some(i) => i.clone(),
            None => {
                if last.is_none() {
                    return None;
                }
                TokenUsageInfo {
                    total_token_usage: TokenUsage::default(),
                    last_token_usage: TokenUsage::default(),
                    model_context_window,
                }
            },
        };
        match last {
            Some(l) => {
                current.append_last_usage(l);
            },
            None => {},
        }
        Some(current)
    }

    /// Count another turn in.
    pub fn append_last_usage(&mut self, last: &TokenUsage)
        requires
            old(self).total_token_usage.can_sum(*last),
        ensures
            *final(self) == old(self).appended(*last),
    {
        self.total_token_usage.add_assign(last);
        self.last_token_usage = last.clone();
    }

    /// Take the context window as full: what was missing counts as the last turn.
    pub fn fill_to_context_window(&mut self, context_window: i64)
        requires
            fits(context_window - old(self).total_token_usage.total_tokens),
        ensures
            *final(self) == old(self).filled(context_window),
    {
        let missing = context_window - self.total_token_usage.total_tokens;
        let delta = if missing > 0 {
            missing
        } else {
            0
        };
        self.model_context_window = Some(context_window);
        self.total_token_usage = TokenUsage {
            total_tokens: context_window,
            ..TokenUsage::default()
        };
        self.last_token_usage = TokenUsage { total_tokens: delta, ..TokenUsage::default() };
    }

    /// The counts of a session whose context window is full.
    pub fn full_context_window(context_window: i64) -> (r: TokenUsageInfo)
        ensures
            r == TokenUsageInfo::empty(Some(context_window)).filled(context_window),
    {
        let mut info = TokenUsageInfo {
            total_token_usage: TokenUsage::default(),
            last_token_usage: TokenUsage::default(),
            model_context_window: Some(context_window),
        };
        info.fill_to_context_window(context_window);
        info
    }
}

impl From<TokenUsage> for FinalOutput {
    fn from(token_usage: TokenUsage) -> (r: Self) {
        FinalOutput { token_usage }
    }
}

impl vstd::std_specs::convert::FromSpecImpl<TokenUsage> for FinalOutput {
    open spec fn obeys_from_spec() -> bool {
        true
    }

    open spec fn from_spec(token_usage: TokenUsage) -> FinalOutput {
        FinalOutput { token_usage }
    }
}

/// A part of the final line that stands in brackets, where there is a number to show.
pub open spec fn bracketed(before: Seq<char>, number: Option<Seq<char>>, after: Seq<char>) -> Seq<
    char,
> {
    match number {
        Some(n) => before + n + after,
        None => seq![],
    }
}

/// The final line, with its numbers written out.
pub open spec fn final_line(
    total: Seq<char>,
    input: Seq<char>,
    cached: Option<Seq<char>>,
    output: Seq<char>,
    reasoning: Option<Seq<char>>,
) -> Seq<char> {
    "Token usage: total="@ + total + " input="@ + input + bracketed(" (+ "@, cached, " cached)"@)
        + " output="@ + output + bracketed(" (reasoning "@, reasoning, ")"@)
}

impl FinalOutput {
    /// The counts that the final line shows.
    pub fn counts(&self) -> (r: FinalOutputCounts)
        requires
            fits(self.token_usage.input_tokens - self.token_usage.cached()),
            fits(self.token_usage.blended()),
        ensures
            r.total == self.token_usage.blended(),
            r.input == self.token_usage.non_cached(),
            r.cached == (if self.token_usage.cached_input_tokens > 0 {
                Some(self.token_usage.cached_input_tokens)
            } else {
                None
            }),
            r.output == self.token_usage.output_tokens,
            r.reasoning == (if self.token_usage.reasoning_output_tokens > 0 {
                Some(self.token_usage.reasoning_output_tokens)
            } else {
                None
            }),
    {
        let cached = self.token_usage.cached_input();
        FinalOutputCounts {
            total: self.token_usage.blended_total(),
            input: self.token_usage.non_cached_input(),
            cached: if cached > 0 {
                Some(cached)
            } else {
                None
            },
            output: self.token_usage.output_tokens,
            reasoning: if self.token_usage.reasoning_output_tokens > 0 {
                Some(self.token_usage.reasoning_output_tokens)
            } else {
                None
            },
        }
    }

    /// The final line, from its counts as they are written with separators.
    pub fn render(
        total: &str,
        input: &str,
        cached: Option<&str>,
        output: &str,
        reasoning: Option<&str>,
    ) -> (r: String)
        ensures
            r@ == final_line(
                total@,
                input@,
                match cached {
                    Some(n) => Some(n@),
                    None => None,
                },
                output@,
                match reasoning {
                    Some(n) => Some(n@),
                    None => None,
                },
            ),
    {
        let mut out = "Token usage: total=".to_owned();
        out.append(total);
        out.append(" input=");
        out.append(input);
        match cached {
            Some(n) => {
                out.append(" (+ ");
                out.append(n);
                out.append(" cached)");
            },
            None => {},
        }
        out.append(" output=");
        out.append(output);
        match reasoning {
            Some(n) => {
                out.append(" (reasoning ");
                out.append(n);
                out.append(")");
            },
            None => {},
        }
        assert(out@ =~= final_line(
            total@,
            input@,
            match cached {
                Some(n) => Some(n@),
                None => None,
            },
            output@,
            match reasoning {
                Some(n) => Some(n@),
                None => None,
            },
        ));
        out
    }
}

/// The total tokens of some turns.
pub open spec fn total_tokens(turns: Seq<TokenUsage>) -> int
    decreases turns.len(),
{
    if turns.len() == 0 {
        0
    } else {
        total_tokens(turns.drop_last()) + turns.last().total_tokens
    }
}

/// The counts of a session after some turns.
pub open spec fn after_turns(start: TokenUsageInfo, turns: Seq<TokenUsage>) -> TokenUsageInfo
    decreases turns.len(),
{
    if turns.len() == 0 {
        start
    } else {
        after_turns(start, turns.drop_last()).appended(turns.last())
    }
}

/// As long as the counters do not overflow, a session's total is what it started with and what
/// its turns used; the last usage is that of the last turn; and the context window is that of the
/// start.
pub proof fn law_totals_add_up(start: TokenUsageInfo, turns: Seq<TokenUsage>)
    requires
        forall|k: int|
            0 <= k <= turns.len() ==> fits(
                start.total_token_usage.total_tokens + total_tokens(#[trigger] turns.take(k)),
            ),
    ensures
        after_turns(start, turns).total_token_usage.total_tokens
            == start.total_token_usage.total_tokens + total_tokens(turns),
        turns.len() > 0 ==> after_turns(start, turns).last_token_usage == turns.last(),
        after_turns(start, turns).model_context_window == start.model_context_window,
    decreases turns.len(),
{
    if turns.len() > 0 {
        let front = turns.drop_last();
        assert forall|k: int| 0 <= k <= front.len() implies fits(
            start.total_token_usage.total_tokens + total_tokens(#[trigger] front.take(k)),
        ) by {
            assert(front.take(k) =~= turns.take(k));
        }
        law_totals_add_up(start, front);
        assert(turns.take(turns.len() as int) =~= turns);
    }
}

/// A window that was filled from nothing is full, and its last turn used all of it.
pub proof fn law_full_window(context_window: i64)
    requires
        context_window >= 0,
    ensures
        ({
            let info = TokenUsageInfo::empty(Some(context_window)).filled(context_window);
            &&& info.total_token_usage.total_tokens == context_window
            &&& info.last_token_usage.total_tokens == context_window
            &&& info.model_context_window == Some(context_window)
        }),
{
}

/// The sum of two usages is the sum of each count; what is counted in keeps its kind.
pub proof fn law_sum_counts_each_kind(a: TokenUsage, b: TokenUsage)
    requires
        a.can_sum(b),
    ensures
        a.sum(b).input_tokens == a.input_tokens + b.input_tokens,
        a.sum(b).cached_input_tokens == a.cached_input_tokens + b.cached_input_tokens,
        a.sum(b).output_tokens == a.output_tokens + b.output_tokens,
        a.sum(b).reasoning_output_tokens == a.reasoning_output_tokens + b.reasoning_output_tokens,
        a.sum(b).total_tokens == a.total_tokens + b.total_tokens,
        a.sum(TokenUsage::zero()) == a,
        TokenUsage::zero().sum(a) == a,
        b.can_sum(a) && a.sum(b) == b.sum(a),
{
}

/// Two usages can be summed exactly if each of their counts stays within its range.
pub proof fn law_what_can_be_summed(a: TokenUsage, b: TokenUsage)
    ensures
        a.can_sum(b) <==> {
            &&& i64::MIN <= a.input_tokens + b.input_tokens <= i64::MAX
            &&& i64::MIN <= a.cached_input_tokens + b.cached_input_tokens <= i64::MAX
            &&& i64::MIN <= a.output_tokens + b.output_tokens <= i64::MAX
            &&& i64::MIN <= a.reasoning_output_tokens + b.reasoning_output_tokens <= i64::MAX
            &&& i64::MIN <= a.total_tokens + b.total_tokens <= i64::MAX
        },
{
}

/// Of counts that are as they should be, input is what was read from the cache and what was not,
/// and the blended total is what was not and the output. A count below zero counts as none.
pub proof fn law_blended_total(u: TokenUsage)
    ensures
        u.cached() >= 0 && u.non_cached() >= 0 && u.blended() >= u.non_cached(),
        0 <= u.cached_input_tokens <= u.input_tokens ==> u.cached() + u.non_cached()
            == u.input_tokens,
        0 <= u.cached_input_tokens <= u.input_tokens && u.output_tokens >= 0 ==> u.blended()
            == u.input_tokens - u.cached_input_tokens + u.output_tokens,
        u.cached_input_tokens <= 0 ==> u.cached() == 0,
        u.cached_input_tokens > u.input_tokens && u.cached_input_tokens >= 0 ==> u.non_cached()
            == 0,
        u.cached_input_tokens <= 0 && u.input_tokens >= 0 ==> u.non_cached() == u.input_tokens,
        u.cached_input_tokens <= 0 && u.input_tokens <= 0 ==> u.non_cached() == 0,
        u.output_tokens <= 0 ==> u.blended() == u.non_cached(),
        u.output_tokens > 0 ==> u.blended() == u.non_cached() + u.output_tokens,
{
}

/// The larger of a number and zero is one of them, and not below either.
pub proof fn law_at_least_zero(n: int)
    ensures
        at_least_zero(n) >= n,
        at_least_zero(n) >= 0,
        at_least_zero(n) == n || at_least_zero(n) == 0,
        fits(n) <==> i64::MIN <= n <= i64::MAX,
{
}

/// A turn that is counted in is the last one, adds to the total, and leaves the window; a session
/// of one turn has that turn as its total.
pub proof fn law_turn_is_counted_in(info: TokenUsageInfo, last: TokenUsage, window: Option<i64>)
    requires
        info.total_token_usage.can_sum(last),
    ensures
        info.appended(last).last_token_usage == last,
        info.appended(last).total_token_usage == info.total_token_usage.sum(last),
        info.appended(last).model_context_window == info.model_context_window,
        TokenUsageInfo::empty(window).appended(last).total_token_usage == last,
        TokenUsageInfo::empty(window).appended(last).last_token_usage == last,
        TokenUsageInfo::empty(window).model_context_window == window,
{
}

/// A window that is taken as full holds as many tokens as it can, of which the last turn used what
/// was missing, and none where nothing was; nothing but the totals is counted.
pub proof fn law_window_is_filled(info: TokenUsageInfo, context_window: i64)
    requires
        fits(context_window - info.total_token_usage.total_tokens),
    ensures
        ({
            let full = info.filled(context_window);
            let t = full.total_token_usage;
            let l = full.last_token_usage;
            &&& t.total_tokens == context_window
            &&& l.total_tokens >= 0
            &&& info.total_token_usage.total_tokens <= context_window ==> l.total_tokens
                + info.total_token_usage.total_tokens == context_window
            &&& info.total_token_usage.total_tokens >= context_window ==> l.total_tokens == 0
            &&& full.model_context_window == Some(context_window)
            &&& t.input_tokens == 0 && t.cached_input_tokens == 0 && t.output_tokens == 0
                && t.reasoning_output_tokens == 0
            &&& l.input_tokens == 0 && l.cached_input_tokens == 0 && l.output_tokens == 0
                && l.reasoning_output_tokens == 0
        }),
{
}

/// The final line names every number that it has, each behind its name, and leaves out those that
/// it does not have, with their brackets.
pub proof fn law_final_line(
    total: Seq<char>,
    input: Seq<char>,
    cached: Seq<char>,
    output: Seq<char>,
    reasoning: Seq<char>,
)
    ensures
        final_line(total, input, None, output, None) == "Token usage: total="@ + total
            + " input="@ + input + " output="@ + output,
        final_line(total, input, Some(cached), output, None) == "Token usage: total="@ + total
            + " input="@ + input + " (+ "@ + cached + " cached)"@ + " output="@ + output,
        final_line(total, input, None, output, Some(reasoning)) == "Token usage: total="@ + total
            + " input="@ + input + " output="@ + output + " (reasoning "@ + reasoning + ")"@,
        final_line(total, input, Some(cached), output, Some(reasoning)) == "Token usage: total="@
            + total + " input="@ + input + " (+ "@ + cached + " cached)"@ + " output="@ + output
            + " (reasoning "@ + reasoning + ")"@,
{
    assert(final_line(total, input, None, output, None) =~= "Token usage: total="@ + total
        + " input="@ + input + " output="@ + output);
    assert(final_line(total, input, Some(cached), output, None) =~= "Token usage: total="@ + total
        + " input="@ + input + " (+ "@ + cached + " cached)"@ + " output="@ + output);
    assert(final_line(total, input, None, output, Some(reasoning)) =~= "Token usage: total="@
        + total + " input="@ + input + " output="@ + output + " (reasoning "@ + reasoning + ")"@);
    assert(final_line(total, input, Some(cached), output, Some(reasoning))
        =~= "Token usage: total="@ + total + " input="@ + input + " (+ "@ + cached + " cached)"@
        + " output="@ + output + " (reasoning "@ + reasoning + ")"@);
}

} // verus!
