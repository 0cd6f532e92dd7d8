//! The text protocol with the vision model: step history, loop and step-cap
//! hints, the UI-TARS user message, reply screening and the retry plan.

use vstd::prelude::*;
use crate::text::{lemma_find_at, lemma_decimal_digits, is_digit, contains, contains_chars, decimal, decimal_chars, find, find_chars,
    lemma_find_some, occurs_at, push_chars, push_str, slice_of, split_nth, split_nth_chars,
    to_chars, from_chars, chars_eq, str_eq, trim, trim_chars, trim_start_matches, trim_start_matches_chars,
    trim_end_matches, trim_end_matches_chars};

verus! {

/// One history line: `Step {n} — {action}: {description}`.
pub open spec fn history_entry(n: usize, action: Seq<char>, description: Seq<char>) -> Seq<char> {
    "Step "@ + decimal(n as nat) + " — "@ + action + ": "@ + description
}

/// Computes `history_entry`.
pub fn format_history_entry(n: usize, action: &str, description: &str) -> (s: String)
    ensures
        s@ == history_entry(n, action@, description@),
{
    let mut s = String::new();
    push_str(&mut s, "Step ");
    push_chars(&mut s, decimal_chars(n as u64).as_slice());
    push_str(&mut s, " — ");
    push_str(&mut s, action);
    push_str(&mut s, ": ");
    push_str(&mut s, description);
    assert(s@ =~= history_entry(n, action@, description@));
    s
}

/// The steps a tour has taken: how many, and their history entries.
pub struct StepLog {
    entries: Vec<String>,
    count: usize,
}

impl StepLog {
    /// How many steps were recorded.
    pub closed spec fn spec_count(&self) -> nat {
        self.count as nat
    }

    /// The history entries, oldest first.
    pub closed spec fn spec_entries(&self) -> Seq<Seq<char>> {
        views(self.entries@)
    }

    /// No step yet.
    pub fn new() -> (l: StepLog)
        ensures
            l.spec_count() == 0,
            l.spec_entries() == Seq::<Seq<char>>::empty(),
    {
        let l = StepLog { entries: Vec::new(), count: 0 };
        assert(l.spec_entries() =~= Seq::<Seq<char>>::empty());
        l
    }

    /// How many steps were recorded.
    pub fn count(&self) -> (n: usize)
        ensures
            n == self.spec_count(),
    {
        self.count
    }

    /// The history entries, oldest first.
    pub fn entries(&self) -> (e: &[String])
        ensures
            views(e@) == self.spec_entries(),
    {
        self.entries.as_slice()
    }

    /// Records a step: it gets the next number, and its entry
    /// `Step {n} — {action}: {description}` joins the history.
    pub fn record(&mut self, action: &str, description: &str) -> (n: usize)
        requires
            old(self).spec_count() < usize::MAX,
        ensures
            n == old(self).spec_count() + 1,
            final(self).spec_count() == n,
            final(self).spec_entries() == old(self).spec_entries().push(
                history_entry(n, action@, description@),
            ),
    {
        self.count = self.count + 1;
        let n = self.count;
        let e = format_history_entry(n, action, description);
        let ghost before = self.entries@;
        self.entries.push(e);
        assert(views(self.entries@) =~= views(before).push(history_entry(n, action@, description@)));
        n
    }
}

/// The numbered lines `{i}. {entry}` of `h`, each but the last followed by a
/// newline.
pub open spec fn numbered(h: Seq<Seq<char>>) -> Seq<char>
    decreases h.len(),
{
    if h.len() == 0 {
        seq![]
    } else if h.len() == 1 {
        "1. "@ + h[0]
    } else {
        numbered(h.drop_last()) + "\n"@ + decimal(h.len()) + ". "@ + h.last()
    }
}

/// The views of a list of strings.
pub open spec fn views(h: Seq<String>) -> Seq<Seq<char>> {
    h.map_values(|s: String| s@)
}

/// The history block of a prompt: `None yet.` or the numbered steps.
pub open spec fn history_text(h: Seq<Seq<char>>) -> Seq<char> {
    if h.len() == 0 {
        "None yet."@
    } else {
        numbered(h)
    }
}

/// Computes `history_text`.
pub fn format_history(history: &[String]) -> (s: String)
    ensures
        s@ == history_text(views(history@)),
        history@.len() == 0 ==> s@ == "None yet."@,
        history@.len() == 1 ==> s@ == "1. "@ + history@[0]@,
{
    let ghost h = views(history@);
    if history.len() == 0 {
        let mut s = String::new();
        push_str(&mut s, "None yet.");
        assert(s@ =~= "None yet."@);
        return s;
    }
    let mut s = String::new();
    let mut i: usize = 0;
    while i < history.len()
        invariant
            i <= history@.len(),
            h == views(history@),
            h.len() == history@.len(),
            s@ == numbered(h.take(i as int)),
        decreases history@.len() - i,
    {
        assert(h[i as int] == history@[i as int]@);
        if i == 0 {
            push_str(&mut s, "1. ");
            push_str(&mut s, history[i].as_str());
            assert(h.take(1) =~= seq![h[0]]);
            assert(s@ =~= numbered(h.take(1)));
        } else {
            push_str(&mut s, "\n");
            push_chars(&mut s, decimal_chars((i + 1) as u64).as_slice());
            push_str(&mut s, ". ");
            push_str(&mut s, history[i].as_str());
            assert(h.take(i + 1).drop_last() =~= h.take(i as int));
            assert(s@ =~= numbered(h.take(i + 1)));
        }
        i = i + 1;
    }
    assert(h.take(h.len() as int) =~= h);
    s
}

/// The history block numbers the steps from 1 in order: one more entry adds
/// a new line `{n}. {entry}` after the block, `n` being the new count.
pub proof fn law_history_numbering(h: Seq<Seq<char>>, e: Seq<char>)
    ensures
        h.len() == 0 ==> history_text(h) == "None yet."@ && history_text(h.push(e)) == "1. "@ + e,
        h.len() > 0 ==> history_text(h.push(e)) == history_text(h) + "\n"@ + decimal(h.len() + 1)
            + ". "@ + e,
{
    assert(h.push(e).drop_last() =~= h);
    assert(h.push(e).last() == e);
    if h.len() == 0 {
        assert(h.push(e)[0] == e);
    }
}

/// The action word of a history entry: the text after the first `— ` up to
/// the next `— `, cut at its first `:`.
pub open spec fn entry_action(e: Seq<char>) -> Option<Seq<char>> {
    match split_nth(e, seq!['—', ' '], 1) {
        Some(p) => split_nth(p, seq![':'], 0),
        None => None,
    }
}

/// Computes `entry_action`.
pub fn history_action(e: &str) -> (r: Option<Vec<char>>)
    ensures
        match r {
            Some(v) => entry_action(e@) == Some(v@),
            None => entry_action(e@) is None,
        },
{
    let cs = to_chars(e);
    let dash = ['—', ' '];
    let colon = [':'];
    assert(dash@ =~= seq!['—', ' ']);
    assert(colon@ =~= seq![':']);
    match split_nth_chars(cs.as_slice(), dash.as_slice(), 1) {
        Some(p) => split_nth_chars(p.as_slice(), colon.as_slice(), 0),
        None => None,
    }
}

/// Reading the action back from a history entry gives the action written,
/// for actions without `:` and without `— `.
pub proof fn law_entry_action_round_trip(n: usize, a: Seq<char>, d: Seq<char>)
    requires
        !contains(a, seq![':']),
        !contains(a, seq!['—', ' ']),
    ensures
        entry_action(history_entry(n, a, d)) == Some(a),
{
    reveal_strlit("Step ");
    reveal_strlit(" — ");
    reveal_strlit(": ");
    let dash = seq!['—', ' '];
    let colon = seq![':'];
    let dec = decimal(n as nat);
    lemma_decimal_digits(n as nat);
    let e = history_entry(n, a, d);
    let k: int = 5 + dec.len() as int + 1;
    assert(e =~= "Step "@ + dec + " — "@ + a + ": "@ + d);
    assert(e.subrange(k, k + 2) =~= dash);
    assert forall|j: int| 0 <= j < k implies e[j] != dash[0] by {
        if j >= 5 && j < 5 + dec.len() {
            assert(e[j] == dec[j - 5]);
            assert(is_digit(dec[j - 5]));
        }
    }
    lemma_find_at(e, dash, k);
    let rest = e.skip(k + 2);
    assert(rest =~= a + ": "@ + d);
    lemma_find_some(rest, dash);
    let piece = split_nth(rest, dash, 0).unwrap();
    assert(split_nth(e, dash, 1) == split_nth(rest, dash, 0));
    assert(piece.len() >= a.len() + 1) by {
        if let Some(i) = find(rest, dash) {
            assert(occurs_at(rest, dash, i));
            if i + 2 <= a.len() {
                assert(a.subrange(i, i + 2) =~= rest.subrange(i, i + 2));
                assert(occurs_at(a, dash, i));
            } else if i == a.len() - 1 {
                assert(rest[i + 1] == ':');
            } else if i == a.len() {
                assert(rest[i] == ':');
            }
        }
    }
    assert(piece.take(a.len() as int) =~= a) by {
        if let Some(i) = find(rest, dash) {
            assert(piece == rest.take(i));
        }
    }
    assert(piece[a.len() as int] == ':') by {
        if let Some(i) = find(rest, dash) {
            assert(piece == rest.take(i));
        }
    }
    assert(piece.subrange(a.len() as int, a.len() + 1 as int) =~= colon);
    assert forall|j: int| 0 <= j < a.len() implies piece[j] != colon[0] by {
        assert(piece[j] == a[j]);
        if a[j] == ':' {
            assert(a.subrange(j, j + 1) =~= colon);
            assert(occurs_at(a, colon, j));
        }
    }
    lemma_find_at(piece, colon, a.len() as int);
}

/// Three history entries written for the same action make every request
/// carry the loop hint for it.
pub proof fn law_repeated_entries_get_loop_hint(
    h: Seq<Seq<char>>,
    a: Seq<char>,
    n1: usize,
    d1: Seq<char>,
    n2: usize,
    d2: Seq<char>,
    n3: usize,
    d3: Seq<char>,
)
    requires
        !contains(a, seq![':']),
        !contains(a, seq!['—', ' ']),
    ensures
        ({
            let full = h.push(history_entry(n1, a, d1)).push(history_entry(n2, a, d2)).push(
                history_entry(n3, a, d3),
            );
            &&& stuck_in_history(full) == Some(a)
            &&& base_hint(full).take(stuck_hint_text(a).len() as int) == stuck_hint_text(a)
        }),
{
    law_entry_action_round_trip(n1, a, d1);
    law_entry_action_round_trip(n2, a, d2);
    law_entry_action_round_trip(n3, a, d3);
    let full = h.push(history_entry(n1, a, d1)).push(history_entry(n2, a, d2)).push(
        history_entry(n3, a, d3),
    );
    let n = full.len();
    assert(full[n - 3] == history_entry(n1, a, d1));
    assert(full[n - 2] == history_entry(n2, a, d2));
    assert(full[n - 1] == history_entry(n3, a, d3));
    let cap = if full.len() >= MAX_STEPS {
        MAX_STEPS_HINT@
    } else {
        seq![]
    };
    assert(base_hint(full) == stuck_hint_text(a) + cap);
    assert((stuck_hint_text(a) + cap).take(stuck_hint_text(a).len() as int) =~= stuck_hint_text(a));
}

/// The repeated action when the last three history entries share one.
pub open spec fn stuck_in_history(h: Seq<Seq<char>>) -> Option<Seq<char>> {
    let n = h.len();
    if n >= 3 {
        match (entry_action(h[n - 3]), entry_action(h[n - 2]), entry_action(h[n - 1])) {
            (Some(a), Some(b), Some(c)) => if a == b && b == c {
                Some(a)
            } else {
                None
            },
            _ => None,
        }
    } else {
        None
    }
}

/// The hint added when the tour loops on one action.
pub open spec fn stuck_hint_text(a: Seq<char>) -> Seq<char> {
    "\n\nSTUCK LOOP DETECTED: You have repeated the action '"@ + a + STUCK_HINT_TAIL@
}

/// The part of the loop hint after the action.
pub const STUCK_HINT_TAIL: &'static str = "' 3 times with no \
     progress. STOP repeating this action. You have two options:\n\
     1. If the goal is informational (comparing, finding info), look at the CURRENT \
     screenshot and answer the question directly — set is_final=true and put your \
     answer in description.\n\
     2. If navigation is truly needed, try a COMPLETELY DIFFERENT element or approach \
     than what you have been clicking.";

/// The hint added once the step cap is reached.
pub const MAX_STEPS_HINT: &'static str = "\n\nMAX STEPS REACHED: You must now set is_final=true and give a complete \
     answer/summary based on what you have seen so far. Do not take any more actions.";

/// Steps after which a final answer is demanded.
pub const MAX_STEPS: usize = 20;

/// The extra instructions every request carries: the loop hint when the
/// last three steps repeat one action, then the cap hint from `MAX_STEPS`
/// steps on.
pub open spec fn base_hint(h: Seq<Seq<char>>) -> Seq<char> {
    let stuck = match stuck_in_history(h) {
        Some(a) => stuck_hint_text(a),
        None => seq![],
    };
    let cap = if h.len() >= MAX_STEPS {
        MAX_STEPS_HINT@
    } else {
        seq![]
    };
    stuck + cap
}

/// The last three history entries all name one action (each entry has one).
pub open spec fn last_three_repeat(h: Seq<Seq<char>>) -> bool {
    let n = h.len();
    &&& n >= 3
    &&& entry_action(h[n - 1]) is Some
    &&& entry_action(h[n - 3]) == entry_action(h[n - 1])
    &&& entry_action(h[n - 2]) == entry_action(h[n - 1])
}

/// The loop hint appears exactly when the last three entries name one
/// action, and then it names that action; otherwise the extra instructions
/// are only the step-cap hint, from the twentieth step on.
pub proof fn law_loop_hint_needs_three_repeats(h: Seq<Seq<char>>)
    ensures
        last_three_repeat(h) ==> base_hint(h) == "\n\nSTUCK LOOP DETECTED: You have repeated the action '"@
            + entry_action(h.last())->0 + STUCK_HINT_TAIL@ + (if h.len() >= 20 {
            MAX_STEPS_HINT@
        } else {
            seq![]
        }),
        !last_three_repeat(h) ==> base_hint(h) == (if h.len() >= 20 {
            MAX_STEPS_HINT@
        } else {
            seq![]
        }),
        stuck_in_history(h) is Some <==> last_three_repeat(h),
{
    let n = h.len();
    if n >= 3 {
        assert(h.last() == h[n - 1]);
    }
    assert(seq![] + MAX_STEPS_HINT@ =~= MAX_STEPS_HINT@);
    assert(seq![] + Seq::<char>::empty() =~= Seq::<char>::empty());
}

/// Computes `base_hint`.
pub fn base_hint_for(history: &[String]) -> (s: String)
    ensures
        s@ == base_hint(views(history@)),
        last_three_repeat(views(history@)) ==> s@ == "\n\nSTUCK LOOP DETECTED: You have repeated the action '"@
            + entry_action(views(history@).last())->0 + STUCK_HINT_TAIL@ + (if history@.len() >= 20 {
            MAX_STEPS_HINT@
        } else {
            seq![]
        }),
        !last_three_repeat(views(history@)) ==> s@ == (if history@.len() >= 20 {
            MAX_STEPS_HINT@
        } else {
            seq![]
        }),
{
    proof {
        law_loop_hint_needs_three_repeats(views(history@));
    }
    let ghost h = views(history@);
    let n = history.len();
    let mut s = String::new();
    if n >= 3 {
        assert(h[n - 3] == history@[n - 3]@);
        assert(h[n - 2] == history@[n - 2]@);
        assert(h[n - 1] == history@[n - 1]@);
        let a = history_action(history[n - 3].as_str());
        let b = history_action(history[n - 2].as_str());
        let c = history_action(history[n - 1].as_str());
        match (a, b, c) {
            (Some(a), Some(b), Some(c)) => {
                if chars_eq(a.as_slice(), b.as_slice()) && chars_eq(b.as_slice(), c.as_slice()) {
                    push_str(&mut s, "\n\nSTUCK LOOP DETECTED: You have repeated the action '");
                    push_chars(&mut s, a.as_slice());
                    push_str(&mut s, STUCK_HINT_TAIL);
                }
            },
            _ => {},
        }
    }
    let ghost stuck = s@;
    if n >= MAX_STEPS {
        push_str(&mut s, MAX_STEPS_HINT);
    }
    proof {
        reveal_strlit("");
    }
    assert(s@ =~= base_hint(h));
    s
}

/// The `url:` line of a prompt, empty without a URL.
pub open spec fn url_line(url: Option<Seq<char>>) -> Seq<char> {
    match url {
        Some(u) => "url:    "@ + u + "\n"@,
        None => seq![],
    }
}

/// The views of an optional string.
pub open spec fn opt_view(u: Option<&str>) -> Option<Seq<char>> {
    match u {
        Some(s) => Some(s@),
        None => None,
    }
}

/// The user message sent to a UI-TARS model.
pub open spec fn uitars_user_text(
    goal: Seq<char>,
    app: Seq<char>,
    window: Seq<char>,
    url: Option<Seq<char>>,
    history: Seq<char>,
    extra: Seq<char>,
) -> Seq<char> {
    "Task: "@ + goal + "\nApp: "@ + app + "\nWindow: "@ + window + "\n"@ + url_line(url)
        + "Steps done:\n"@ + history + "\n"@ + extra
}

/// Computes `uitars_user_text`.
pub fn uitars_user_message(
    goal: &str,
    app: &str,
    window: &str,
    url: Option<&str>,
    history: &str,
    extra: &str,
) -> (s: String)
    ensures
        s@ == uitars_user_text(goal@, app@, window@, opt_view(url), history@, extra@),
{
    let mut s = String::new();
    push_str(&mut s, "Task: ");
    push_str(&mut s, goal);
    push_str(&mut s, "\nApp: ");
    push_str(&mut s, app);
    push_str(&mut s, "\nWindow: ");
    push_str(&mut s, window);
    push_str(&mut s, "\n");
    let ghost before = s@;
    match url {
        Some(u) => {
            push_str(&mut s, "url:    ");
            push_str(&mut s, u);
            push_str(&mut s, "\n");
        },
        None => {},
    }
    assert(s@ =~= before + url_line(opt_view(url)));
    push_str(&mut s, "Steps done:\n");
    push_str(&mut s, history);
    push_str(&mut s, "\n");
    push_str(&mut s, extra);
    assert(s@ =~= uitars_user_text(goal@, app@, window@, opt_view(url), history@, extra@));
    s
}

/// A reply with its Markdown code fence removed: trimmed, then a leading
/// "```json" and "```" and a trailing "```" stripped, then trimmed again.
pub open spec fn unfenced(c: Seq<char>) -> Seq<char> {
    trim(
        trim_end_matches(
            trim_start_matches(trim_start_matches(trim(c), "```json"@), "```"@),
            "```"@,
        ),
    )
}

/// Computes `unfenced`.
pub fn strip_code_fences(content: &str) -> (s: String)
    ensures
        s@ == unfenced(content@),
{
    let cs = to_chars(content);
    let fence_json = to_chars("```json");
    let fence = to_chars("```");
    let a = trim_chars(cs.as_slice());
    let b = trim_start_matches_chars(a.as_slice(), fence_json.as_slice());
    let c = trim_start_matches_chars(b.as_slice(), fence.as_slice());
    let d = trim_end_matches_chars(c.as_slice(), fence.as_slice());
    let e = trim_chars(d.as_slice());
    from_chars(e.as_slice())
}

/// The reply budget of a request: 8192 tokens for a reasoning model, whose
/// thinking comes before its answer; otherwise 256 for UI-TARS and 1024 for
/// a JSON answer.
pub fn max_tokens(uitars: bool, reasoning: bool) -> (n: usize)
    ensures
        n == if reasoning {
            8192usize
        } else if uitars {
            256usize
        } else {
            1024usize
        },
{
    if reasoning {
        8192
    } else if uitars {
        256
    } else {
        1024
    }
}

/// How a raw reply body is to be treated before parsing.
pub enum ReplyCheck {
    /// The model rejected the image: it cannot see; the message explains.
    NotVision(String),
    /// The provider rate-limited the request: wait, then retry.
    RateLimited,
    /// The provider answered with a status other than 200; the text says which.
    HttpError(String),
    /// Parse the body.
    Proceed,
}

/// The message for a model that does not accept images.
pub open spec fn not_vision_message(model: Seq<char>) -> Seq<char> {
    "Model '"@ + model + "' does not support vision/images. \
     Use a vision-capable model such as meta-llama/llama-4-scout-17b-16e-instruct"@
}

/// The error for a reply whose HTTP status is not a success: `HTTP {code}`,
/// then ` — {message}` when the API gave a message.
pub open spec fn http_error_text(code: nat, message: Option<Seq<char>>) -> Seq<char> {
    match message {
        Some(m) => "HTTP "@ + decimal(code) + " — "@ + m,
        None => "HTTP "@ + decimal(code),
    }
}

/// Computes `http_error_text`.
pub fn http_error(code: u64, message: Option<&str>) -> (s: String)
    ensures
        s@ == http_error_text(code as nat, opt_view(message)),
{
    let mut s = String::new();
    push_str(&mut s, "HTTP ");
    push_chars(&mut s, decimal_chars(code).as_slice());
    match message {
        Some(m) => {
            push_str(&mut s, " — ");
            push_str(&mut s, m);
        },
        None => {},
    }
    assert(s@ =~= http_error_text(code as nat, opt_view(message)));
    s
}

/// Screens a reply: "must be a string" in the body means the model cannot
/// take images; "rate_limit_exceeded" means wait and retry; any status other
/// than 200 is reported with the API's own message, when it gave one.
pub fn check_reply(body: &str, code: u64, model: &str, api_message: Option<&str>) -> (r: ReplyCheck)
    ensures
        match r {
            ReplyCheck::NotVision(m) => contains(body@, "must be a string"@) && m@
                == not_vision_message(model@),
            ReplyCheck::RateLimited => !contains(body@, "must be a string"@) && contains(
                body@,
                "rate_limit_exceeded"@,
            ),
            ReplyCheck::HttpError(e) => !contains(body@, "must be a string"@) && !contains(
                body@,
                "rate_limit_exceeded"@,
            ) && code != 200 && e@ == http_error_text(code as nat, opt_view(api_message)),
            ReplyCheck::Proceed => !contains(body@, "must be a string"@) && !contains(
                body@,
                "rate_limit_exceeded"@,
            ) && code == 200,
        },
{
    let cs = to_chars(body);
    if contains_chars(cs.as_slice(), to_chars("must be a string").as_slice()) {
        let mut m = String::new();
        push_str(&mut m, "Model '");
        push_str(&mut m, model);
        push_str(
            &mut m,
            "' does not support vision/images. \
             Use a vision-capable model such as meta-llama/llama-4-scout-17b-16e-instruct",
        );
        assert(m@ =~= not_vision_message(model@));
        return ReplyCheck::NotVision(m);
    }
    if contains_chars(cs.as_slice(), to_chars("rate_limit_exceeded").as_slice()) {
        return ReplyCheck::RateLimited;
    }
    if code != 200 {
        return ReplyCheck::HttpError(http_error(code, api_message));
    }
    ReplyCheck::Proceed
}

/// The error when a reply has no content because the model used up its
/// token budget before answering.
pub const MAX_TOKENS_ERROR: &'static str = "model hit max_tokens mid-reasoning";

/// The error when a reply has no content for another reason.
pub const NO_CONTENT_ERROR: &'static str = "Groq: no content in reply";

/// The content of the first choice of a reply: an empty content with the
/// finish reason `length` means the token budget ran out.
pub fn choice_content(content: Option<String>, finish_reason: Option<&str>) -> (r: Result<
    String,
    String,
>)
    ensures
        match content {
            Some(c) => r matches Ok(t) && t@ == c@,
            None => r matches Err(e) && e@ == (if opt_view(finish_reason) == Some("length"@) {
                MAX_TOKENS_ERROR@
            } else {
                NO_CONTENT_ERROR@
            }),
        },
{
    match content {
        Some(c) => Ok(c),
        None => {
            let ran_out = match finish_reason {
                Some(f) => str_eq(f, "length"),
                None => false,
            };
            if ran_out {
                Err(MAX_TOKENS_ERROR.to_owned())
            } else {
                Err(NO_CONTENT_ERROR.to_owned())
            }
        },
    }
}

/// The highest coordinate on a side of `n` pixels: `n - 1`, written `-1`
/// for an empty side.
pub open spec fn last_pixel(n: nat) -> Seq<char> {
    if n == 0 {
        "-1"@
    } else {
        decimal((n - 1) as nat)
    }
}

/// The user message sent to a model that answers in JSON; `w` by `h` is the
/// screenshot's size in pixels.
pub open spec fn standard_user_text(
    goal: Seq<char>,
    app: Seq<char>,
    window: Seq<char>,
    url: Option<Seq<char>>,
    w: nat,
    h: nat,
    history: Seq<char>,
    extra: Seq<char>,
) -> Seq<char> {
    "app:    "@ + app + "\nwindow: "@ + window + "\n"@ + url_line(url) + "goal:   "@ + goal
        + "\n\nScreenshot size: "@ + decimal(w) + " × "@ + decimal(h)
        + " px  (origin TOP-LEFT, y DOWN)\nValid x range: 1–"@ + last_pixel(w)
        + "   Valid y range: 1–"@ + last_pixel(h) + "\n\nSteps done so far:\n"@ + history
        + "\n\nIdentify the single next UI element and return its centre pixel."@ + extra
}

/// Writes `last_pixel` of `n`.
fn push_last_pixel(s: &mut String, n: u32)
    ensures
        final(s)@ == old(s)@ + last_pixel(n as nat),
{
    if n == 0 {
        push_str(s, "-1");
    } else {
        push_chars(s, decimal_chars((n - 1) as u64).as_slice());
    }
}

/// Computes `standard_user_text`.
pub fn standard_user_message(
    goal: &str,
    app: &str,
    window: &str,
    url: Option<&str>,
    w: u32,
    h: u32,
    history: &str,
    extra: &str,
) -> (s: String)
    ensures
        s@ == standard_user_text(
            goal@,
            app@,
            window@,
            opt_view(url),
            w as nat,
            h as nat,
            history@,
            extra@,
        ),
{
    let mut s = String::new();
    push_str(&mut s, "app:    ");
    push_str(&mut s, app);
    push_str(&mut s, "\nwindow: ");
    push_str(&mut s, window);
    push_str(&mut s, "\n");
    let ghost before = s@;
    match url {
        Some(u) => {
            push_str(&mut s, "url:    ");
            push_str(&mut s, u);
            push_str(&mut s, "\n");
        },
        None => {},
    }
    assert(s@ =~= before + url_line(opt_view(url)));
    push_str(&mut s, "goal:   ");
    push_str(&mut s, goal);
    push_str(&mut s, "\n\nScreenshot size: ");
    push_chars(&mut s, decimal_chars(w as u64).as_slice());
    push_str(&mut s, " × ");
    push_chars(&mut s, decimal_chars(h as u64).as_slice());
    push_str(&mut s, " px  (origin TOP-LEFT, y DOWN)\nValid x range: 1–");
    push_last_pixel(&mut s, w);
    push_str(&mut s, "   Valid y range: 1–");
    push_last_pixel(&mut s, h);
    push_str(&mut s, "\n\nSteps done so far:\n");
    push_str(&mut s, history);
    push_str(&mut s, "\n\nIdentify the single next UI element and return its centre pixel.");
    push_str(&mut s, extra);
    assert(s@ =~= standard_user_text(
        goal@,
        app@,
        window@,
        opt_view(url),
        w as nat,
        h as nat,
        history@,
        extra@,
    ));
    s
}

/// The wait the provider suggests, as text: what follows "try again in " up
/// to the next `s`, trimmed.
pub open spec fn retry_after(raw: Seq<char>) -> Option<Seq<char>> {
    match find(raw, "try again in "@) {
        None => None,
        Some(pos) => {
            let rest = raw.skip(pos + "try again in "@.len());
            match find(rest, seq!['s']) {
                Some(end) => Some(trim(rest.take(end))),
                None => None,
            }
        },
    }
}

/// Computes `retry_after`; the caller reads the number.
pub fn parse_retry_after(raw: &str) -> (r: Option<String>)
    ensures
        match r {
            Some(v) => retry_after(raw@) == Some(v@),
            None => retry_after(raw@) is None,
        },
{
    let cs = to_chars(raw);
    let key = to_chars("try again in ");
    let f = find_chars(cs.as_slice(), key.as_slice());
    proof {
        lemma_find_some(cs@, key@);
    }
    let pos = match f {
        Some(p) => p,
        None => return None,
    };
    assert(occurs_at(cs@, key@, pos as int));
    assert(pos + key.len() <= cs.len());
    let rest = slice_of(cs.as_slice(), pos + key.len(), cs.len());
    assert(rest@ =~= cs@.skip(pos + key@.len()));
    let s_char = ['s'];
    assert(s_char@ =~= seq!['s']);
    let g = find_chars(rest.as_slice(), s_char.as_slice());
    proof {
        lemma_find_some(rest@, s_char@);
    }
    match g {
        Some(end) => {
            let head = slice_of(rest.as_slice(), 0, end);
            assert(head@ =~= rest@.take(end as int));
            Some(from_chars(trim_chars(head.as_slice()).as_slice()))
        },
        None => None,
    }
}


/// How one request to the model went.
#[derive(PartialEq, Eq, Structural, Clone, Copy)]
pub enum AttemptOutcome {
    /// A step whose target lies inside the screenshot.
    InBounds,
    /// A step whose target lies outside the screenshot.
    OutOfBounds,
    /// No step: the request or its parsing failed.
    Failed,
}

/// What to do after an attempt.
#[derive(PartialEq, Eq, Structural, Clone, Copy)]
pub enum RetryVerdict {
    /// Use the step.
    Accept,
    /// Ask again (with the scroll hint when `scroll_hint()` says so).
    Retry,
    /// Report the failure.
    GiveUp,
    /// Out of attempts after out-of-bounds steps: tell the user to scroll.
    Fallback,
}

/// How many requests a step may take.
pub const MAX_ATTEMPTS: u8 = 3;

/// The state of the retries for one step: which attempt runs, and whether
/// the out-of-bounds scroll hint is added.
pub struct RetryPlan {
    attempt: u8,
    scroll_hint: bool,
}

/// The plan after an attempt with the given outcome, and the verdict.
pub open spec fn retry_step(attempt: u8, scroll_hint: bool, o: AttemptOutcome) -> (u8, bool, RetryVerdict) {
    match o {
        AttemptOutcome::InBounds => (attempt, scroll_hint, RetryVerdict::Accept),
        AttemptOutcome::OutOfBounds => if attempt + 1 < MAX_ATTEMPTS {
            ((attempt + 1) as u8, true, RetryVerdict::Retry)
        } else {
            (attempt, true, RetryVerdict::Fallback)
        },
        AttemptOutcome::Failed => if attempt + 1 < MAX_ATTEMPTS {
            ((attempt + 1) as u8, scroll_hint, RetryVerdict::Retry)
        } else {
            (attempt, scroll_hint, RetryVerdict::GiveUp)
        },
    }
}

impl RetryPlan {
    /// The plan is within its attempts.
    pub closed spec fn wf(&self) -> bool {
        self.attempt < MAX_ATTEMPTS
    }

    /// The running attempt, from 0.
    pub closed spec fn spec_attempt(&self) -> u8 {
        self.attempt
    }

    /// Whether the scroll hint is added.
    pub closed spec fn spec_scroll_hint(&self) -> bool {
        self.scroll_hint
    }

    /// The first attempt, without the scroll hint.
    pub fn new() -> (p: RetryPlan)
        ensures
            p.wf(),
            p.spec_attempt() == 0,
            !p.spec_scroll_hint(),
    {
        RetryPlan { attempt: 0, scroll_hint: false }
    }

    /// The running attempt, from 0.
    pub fn attempt(&self) -> (a: u8)
        ensures
            a == self.spec_attempt(),
    {
        self.attempt
    }

    /// Whether the next request carries the out-of-bounds scroll hint.
    pub fn scroll_hint(&self) -> (b: bool)
        ensures
            b == self.spec_scroll_hint(),
    {
        self.scroll_hint
    }

    /// Records an attempt's outcome: an in-bounds step is used; an
    /// out-of-bounds step turns the scroll hint on; a failure or an
    /// out-of-bounds step is retried while attempts remain.
    pub fn record(&mut self, o: AttemptOutcome) -> (v: RetryVerdict)
        requires
            old(self).wf(),
        ensures
            final(self).wf(),
            (final(self).spec_attempt(), final(self).spec_scroll_hint(), v) == retry_step(
                old(self).spec_attempt(),
                old(self).spec_scroll_hint(),
                o,
            ),
            o == AttemptOutcome::InBounds ==> v == RetryVerdict::Accept && final(self).spec_attempt()
                == old(self).spec_attempt() && final(self).spec_scroll_hint()
                == old(self).spec_scroll_hint(),
            o != AttemptOutcome::InBounds && old(self).spec_attempt() < 2 ==> v == RetryVerdict::Retry
                && final(self).spec_attempt() == old(self).spec_attempt() + 1,
            o == AttemptOutcome::OutOfBounds && old(self).spec_attempt() >= 2 ==> v
                == RetryVerdict::Fallback,
            o == AttemptOutcome::Failed && old(self).spec_attempt() >= 2 ==> v == RetryVerdict::GiveUp,
            o == AttemptOutcome::OutOfBounds ==> final(self).spec_scroll_hint(),
            o == AttemptOutcome::Failed ==> final(self).spec_scroll_hint() == old(
                self,
            ).spec_scroll_hint(),
            final(self).spec_attempt() < 3,
    {
        match o {
            AttemptOutcome::InBounds => RetryVerdict::Accept,
            AttemptOutcome::OutOfBounds => {
                self.scroll_hint = true;
                if self.attempt + 1 < MAX_ATTEMPTS {
                    self.attempt = self.attempt + 1;
                    RetryVerdict::Retry
                } else {
                    RetryVerdict::Fallback
                }
            },
            AttemptOutcome::Failed => {
                if self.attempt + 1 < MAX_ATTEMPTS {
                    self.attempt = self.attempt + 1;
                    RetryVerdict::Retry
                } else {
                    RetryVerdict::GiveUp
                }
            },
        }
    }
}

/// A step is given at most `MAX_ATTEMPTS` requests: starting from the
/// first attempt, a third outcome never asks for another retry.
pub proof fn law_at_most_three_attempts(o1: AttemptOutcome, o2: AttemptOutcome, o3: AttemptOutcome)
    ensures
        ({
            let r1 = retry_step(0, false, o1);
            let r2 = retry_step(r1.0, r1.1, o2);
            let r3 = retry_step(r2.0, r2.1, o3);
            r1.2 == RetryVerdict::Retry && r2.2 == RetryVerdict::Retry ==> r3.2
                != RetryVerdict::Retry
        }),
{
}

/// Any answer other than an in-bounds step is retried while attempts
/// remain, whatever the scroll hint: the first and second such answers
/// bring another request, and only the third ends the step (with the scroll
/// fallback after an out-of-bounds answer, as a failure after an error).
pub proof fn law_retry_until_third_attempt(attempt: u8, scroll_hint: bool, o: AttemptOutcome)
    requires
        attempt < 3,
        o != AttemptOutcome::InBounds,
    ensures
        attempt < 2 ==> retry_step(attempt, scroll_hint, o).2 == RetryVerdict::Retry
            && retry_step(attempt, scroll_hint, o).0 == attempt + 1,
        attempt == 2 && o == AttemptOutcome::OutOfBounds ==> retry_step(attempt, scroll_hint, o).2
            == RetryVerdict::Fallback,
        attempt == 2 && o == AttemptOutcome::Failed ==> retry_step(attempt, scroll_hint, o).2
            == RetryVerdict::GiveUp,
{
}

/// Three out-of-bounds answers in a row: two retries, then the fallback.
pub proof fn law_three_out_of_bounds_fall_back()
    ensures
        ({
            let r1 = retry_step(0, false, AttemptOutcome::OutOfBounds);
            let r2 = retry_step(r1.0, r1.1, AttemptOutcome::OutOfBounds);
            let r3 = retry_step(r2.0, r2.1, AttemptOutcome::OutOfBounds);
            &&& r1.2 == RetryVerdict::Retry
            &&& r2.2 == RetryVerdict::Retry
            &&& r3.2 == RetryVerdict::Fallback
            &&& r2.1 && r3.1
        }),
{
}

/// An in-bounds step is always used, at any attempt.
pub proof fn law_in_bounds_accepted(attempt: u8, scroll_hint: bool)
    ensures
        retry_step(attempt, scroll_hint, AttemptOutcome::InBounds).2 == RetryVerdict::Accept,
{
}

/// Once an out-of-bounds step was seen, every later request carries the
/// scroll hint.
pub proof fn law_scroll_hint_stays(attempt: u8, scroll_hint: bool, o: AttemptOutcome)
    requires
        scroll_hint || o == AttemptOutcome::OutOfBounds,
    ensures
        retry_step(attempt, scroll_hint, o).1,
{
}

/// The texts of the step used when every attempt pointed outside the screen.
pub struct FallbackStep {
    pub action: String,
    pub description: String,
    pub reason: String,
}

/// The scroll step shown when the model kept pointing outside the screen.
pub fn fallback_step() -> (s: FallbackStep)
    ensures
        s.action@ == "Scroll"@,
        s.description@ == "Scroll down to reveal more content"@,
        s.reason@ == "The next element is not visible — scroll to bring it into view."@,
{
    FallbackStep {
        action: "Scroll".to_owned(),
        description: "Scroll down to reveal more content".to_owned(),
        reason: "The next element is not visible — scroll to bring it into view.".to_owned(),
    }
}


/// The system prompt for UI-TARS models (Thought/Action format on a 0–999 grid).
pub const UITARS_SYSTEM_PROMPT: &'static str = "You are a GUI agent. Given a screenshot and a task, output your next action.

Always reply in this exact format:
Thought: <one sentence explaining what you see and what to do next>
Action: <action call>

Available actions:
  click(point='<point>[[x,y]]</point>')            - left click
  double_click(point='<point>[[x,y]]</point>')     - double click
  right_click(point='<point>[[x,y]]</point>')      - right click
  hover(point='<point>[[x,y]]</point>')            - move cursor
  type(content='<text>')                           - type text
  scroll(point='<point>[[x,y]]</point>', direction='up|down|left|right', amount='3')
  finished(content='<answer or confirmation>')     - task is done; put full answer here

Coordinates use a 0–999 scale where (0,0) is top-left and (999,999) is bottom-right.

Rules:
- If the task is a question (\"where is X\", \"what is Y\"), answer with finished(content='...') immediately based on what is visible.
- Do NOT repeat the same action more than twice with no new outcome — try something different.
- Only one action per turn.";

/// The system prompt for JSON-answering vision models.
pub const SYSTEM_PROMPT: &'static str = "You are a macOS GUI tour-guide. Each turn you receive a screenshot and must identify the SINGLE NEXT action the user must take.

━━ COORDINATE RULES (STRICT) ━━
• Origin (0,0) = TOP-LEFT of the image. x→right, y→DOWN.
• The valid pixel ranges are stated in every user message. You MUST stay inside them.
• Return the CENTRE pixel of the visible element you are targeting.
• NEVER guess coordinates for elements not clearly visible in the screenshot.

━━ SCROLL vs CLICK RULE ━━
• If the target element is visible ANYWHERE — even partially — click it directly. Do NOT scroll past it.
• Only use Scroll when the target is completely off-screen and invisible.
• After each Scroll, look for the element before scrolling again.

━━ LOOP / STUCK RULE ━━
• If an action appears 2+ times in \"Steps done so far\" with no new outcome, STOP repeating it.
• Try a completely different element, or if enough information is visible to answer the goal, set is_final=true and answer directly.

━━ RESEARCH / INFORMATIONAL GOALS ━━
• If the goal is a QUESTION — \"where is X\", \"what is Y\", \"which is best\", \"how do I\", \"find X\", \"show me X\" — answer it DIRECTLY from what you can already see on screen. Set is_final=true immediately and put your complete answer in description.
• Do NOT open files, click around, or navigate to \"look for more\" when the answer is already derivable from the current screenshot or from your knowledge of the visible project structure.
• Example: goal \"where is the agent code\" → look at the visible file tree or open editor → answer \"The agent code is in src/agent.rs\" → is_final=true. Do NOT click agent.rs repeatedly.
• Once you can see enough to give a useful answer, stop and answer. Never loop through elements searching for \"more details\" when the information is already visible.

━━ HISTORY RULE ━━
• \"Steps done so far\" = already completed. Do NOT repeat them.
• Trust the CURRENT screenshot over your memory of what the page looked like.

━━ OUTPUT ━━
Raw JSON only — no markdown fences, no explanation:
{\"x\":<int>,\"y\":<int>,\"action\":\"<Click|Type|Double-click|Right-click|Scroll|Hover>\",\"description\":\"<what to do or final answer>\",\"reason\":\"<why this is the right next step>\",\"is_final\":<true|false>}";

} // verus!
