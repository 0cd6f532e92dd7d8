//! Step memory: the last few steps verbatim, older steps as one compressed
//! line each, and the actions confirmed to make no progress.

use vstd::prelude::*;
use std::collections::VecDeque;
use crate::text::{decimal, push_str, push_char, push_chars, decimal_chars, str_eq};

verus! {

/// How many steps are kept verbatim.
pub const MEM_WINDOW: usize = 6;

/// One recorded step: its number, its action and its description.
pub type StepRecord = (usize, Seq<char>, Seq<char>);

/// What a `Memory` holds: every step recorded so far, oldest first, and the
/// actions registered as mistakes, in the order they were registered.
pub struct MemoryView {
    pub history: Seq<StepRecord>,
    pub mistakes: Seq<Seq<char>>,
}

/// Where the verbatim window starts in a history of `n` steps.
pub open spec fn window_start(n: nat) -> nat {
    if n > MEM_WINDOW {
        (n - MEM_WINDOW) as nat
    } else {
        0
    }
}

/// The steps shown verbatim: the last `MEM_WINDOW` of the history.
pub open spec fn recent_steps(h: Seq<StepRecord>) -> Seq<StepRecord> {
    h.skip(window_start(h.len()) as int)
}

/// The steps that aged out of the window.
pub open spec fn older_steps(h: Seq<StepRecord>) -> Seq<StepRecord> {
    h.take(window_start(h.len()) as int)
}

/// The compressed line of an aged-out step: `  Step {n}: {action} — {desc}`.
pub open spec fn summary_line(e: StepRecord) -> Seq<char> {
    "  Step "@ + decimal(e.0 as nat) + ": "@ + e.1 + " — "@ + e.2
}

/// The compressed lines of `hs`, separated by newlines.
pub open spec fn summary_text(hs: Seq<StepRecord>) -> Seq<char>
    decreases hs.len(),
{
    if hs.len() == 0 {
        seq![]
    } else if hs.len() == 1 {
        summary_line(hs[0])
    } else {
        summary_text(hs.drop_last()) + "\n"@ + summary_line(hs.last())
    }
}

/// The verbatim line of a recent step: `  {n}. {action}: {desc}` and a newline.
pub open spec fn recent_line(e: StepRecord) -> Seq<char> {
    "  "@ + decimal(e.0 as nat) + ". "@ + e.1 + ": "@ + e.2 + "\n"@
}

/// The verbatim lines of `hs`.
pub open spec fn recent_text(hs: Seq<StepRecord>) -> Seq<char>
    decreases hs.len(),
{
    if hs.len() == 0 {
        seq![]
    } else {
        recent_text(hs.drop_last()) + recent_line(hs.last())
    }
}

/// The lines listing the registered mistakes.
pub open spec fn mistakes_text(ms: Seq<Seq<char>>) -> Seq<char>
    decreases ms.len(),
{
    if ms.len() == 0 {
        seq![]
    } else {
        mistakes_text(ms.drop_last()) + "  • "@ + ms.last() + "\n"@
    }
}

/// The prompt block that `format_for_prompt` returns.
pub open spec fn prompt_text(m: MemoryView) -> Seq<char> {
    if m.history.len() == 0 {
        "None yet."@
    } else {
        let summary = summary_text(older_steps(m.history));
        let earlier = if summary.len() > 0 {
            "Earlier steps (compressed):\n"@ + summary + "\n"@
        } else {
            seq![]
        };
        let sep = if earlier.len() > 0 {
            "\n"@
        } else {
            seq![]
        };
        let recent = earlier + sep + "Recent steps (full detail):\n"@ + recent_text(
            recent_steps(m.history),
        );
        if m.mistakes.len() > 0 {
            recent + "\n⚠ DO NOT REPEAT — tried with no progress:\n"@ + mistakes_text(m.mistakes)
        } else {
            recent
        }
    }
}

/// The action repeated by the last three steps, if they all share one.
pub open spec fn stuck(h: Seq<StepRecord>) -> Option<Seq<char>> {
    let n = h.len();
    if n >= 3 && h[n - 1].1 == h[n - 2].1 && h[n - 2].1 == h[n - 3].1 {
        Some(h[n - 1].1)
    } else {
        None
    }
}

/// The mistakes after registering the last step's action.
pub open spec fn registered(h: Seq<StepRecord>, ms: Seq<Seq<char>>) -> Seq<Seq<char>> {
    if h.len() > 0 && !ms.contains(h.last().1) {
        ms.push(h.last().1)
    } else {
        ms
    }
}

struct MemEntry {
    step_num: usize,
    action: String,
    desc: String,
}

impl View for MemEntry {
    type V = StepRecord;

    closed spec fn view(&self) -> StepRecord {
        (self.step_num, self.action@, self.desc@)
    }
}

/// The step memory of one tour.
pub struct Memory {
    recent: VecDeque<MemEntry>,
    summary: String,
    mistakes: Vec<String>,
    total: usize,
    history: Ghost<Seq<StepRecord>>,
}

impl View for Memory {
    type V = MemoryView;

    closed spec fn view(&self) -> MemoryView {
        MemoryView { history: self.history@, mistakes: self.mistakes@.map_values(|m: String| m@) }
    }
}

impl Memory {
    /// The fields agree with the recorded history.
    pub closed spec fn wf(&self) -> bool {
        let h = self.history@;
        &&& self.recent@.map_values(|e: MemEntry| e@) == recent_steps(h)
        &&& self.summary@ == summary_text(older_steps(h))
        &&& self.total == h.len()
        &&& self@.mistakes.no_duplicates()
    }

    /// An empty memory.
    pub fn new() -> (m: Self)
        ensures
            m.wf(),
            m@.history == Seq::<StepRecord>::empty(),
            m@.mistakes == Seq::<Seq<char>>::empty(),
    {
        let m = Memory {
            recent: VecDeque::with_capacity(MEM_WINDOW + 1),
            summary: String::new(),
            mistakes: Vec::new(),
            total: 0,
            history: Ghost(Seq::empty()),
        };
        assert(m.recent@.map_values(|e: MemEntry| e@) =~= recent_steps(Seq::empty()));
        assert(m@.mistakes =~= Seq::<Seq<char>>::empty());
        m
    }

    /// Records a completed step. When the window overflows, its oldest entry
    /// is compressed into the summary.
    pub fn push(&mut self, step_num: usize, action: &str, desc: &str)
        requires
            old(self).wf(),
            old(self)@.history.len() < usize::MAX,
        ensures
            final(self).wf(),
            final(self)@.history == old(self)@.history.push((step_num, action@, desc@)),
            final(self)@.mistakes == old(self)@.mistakes,
    {
        let ghost h = self.history@;
        let ghost h2 = h.push((step_num, action@, desc@));
        let ghost n = h.len();
        let ghost r0 = self.recent@;
        assert(r0.map_values(|e: MemEntry| e@) == h.skip(window_start(n) as int));
        self.total = self.total + 1;
        let entry = MemEntry { step_num, action: action.to_owned(), desc: desc.to_owned() };
        assert(entry@ == (step_num, action@, desc@));
        self.recent.push_back(entry);
        assert(self.recent@ == r0.push(entry));
        self.history = Ghost(h2);
        assert(r0.push(entry).map_values(|e: MemEntry| e@) =~= r0.map_values(|e: MemEntry| e@).push(entry@));
        assert(h2.skip(window_start(n) as int) =~= h.skip(window_start(n) as int).push((step_num, action@, desc@)));
        assert(self.recent@.map_values(|e: MemEntry| e@) =~= h2.skip(window_start(n) as int));
        let ghost r1 = self.recent@;
        assert(r1.map_values(|e: MemEntry| e@).len() == r1.len());
        if self.recent.len() > MEM_WINDOW {
            assert(n >= MEM_WINDOW);
            let e = self.recent.pop_front();
            assert(r1.map_values(|e: MemEntry| e@)[0] == r1[0]@);
            assert(self.recent@.map_values(|e: MemEntry| e@) =~= r1.map_values(|e: MemEntry| e@).subrange(1, r1.len() as int));
            if let Some(e) = e {
                let ghost older = h.take(window_start(n) as int);
                proof {
                    lemma_summary_empty(older);
                    assert(e@ == h2[window_start(n) as int]);
                    assert(h2.take(window_start(n) + 1 as int) =~= older.push(e@));
                    assert(older.push(e@).drop_last() =~= older);
                }
                if !self.summary.as_str().is_empty() {
                    push_char(&mut self.summary, '\n');
                }
                let line = summary_line_string(&e);
                push_str(&mut self.summary, line.as_str());
                assert(older_steps(h2) =~= older.push(e@));
                proof {
                    let op = older.push(e@);
                    if older.len() == 0 {
                        assert(op.len() == 1);
                        assert(summary_text(op) == summary_line(op[0]));
                        assert(self.summary@ =~= summary_text(op));
                    } else {
                        reveal_strlit("\n");
                        assert(op.len() > 1);
                        assert(op.drop_last() =~= older);
                        assert(summary_text(op) == summary_text(op.drop_last()) + "\n"@ + summary_line(op.last()));
                        assert(self.summary@ =~= summary_text(op));
                    }
                }
                assert(self.summary@ == summary_text(older_steps(h2)));
            }
            assert(self.recent@.map_values(|e: MemEntry| e@) =~= recent_steps(h2));
        } else {
            assert(older_steps(h2) =~= older_steps(h));
        }
        assert(self.summary@ == summary_text(older_steps(h2)));
        assert(self.recent@.map_values(|e: MemEntry| e@) =~= recent_steps(h2));
        assert(self@.mistakes =~= old(self)@.mistakes);
    }
}

impl Memory {
    /// The action repeated by the last three recent steps, if they all share one.
    pub fn stuck_action(&self) -> (r: Option<&str>)
        requires
            self.wf(),
        ensures
            match r {
                Some(a) => stuck(self@.history) == Some(a@),
                None => stuck(self@.history) is None,
            },
    {
        let ghost h = self.history@;
        let ghost m = self.recent@.map_values(|e: MemEntry| e@);
        assert(m.len() == self.recent@.len());
        let n = self.recent.len();
        if n < 3 {
            return None;
        }
        assert(m[n - 1] == self.recent@[n - 1]@);
        assert(m[n - 2] == self.recent@[n - 2]@);
        assert(m[n - 3] == self.recent@[n - 3]@);
        assert(m[n - 1] == h[h.len() - 1]);
        assert(m[n - 2] == h[h.len() - 2]);
        assert(m[n - 3] == h[h.len() - 3]);
        let a = self.recent[n - 1].action.as_str();
        let b = self.recent[n - 2].action.as_str();
        let c = self.recent[n - 3].action.as_str();
        if str_eq(a, b) && str_eq(b, c) {
            Some(a)
        } else {
            None
        }
    }

    /// Registers the last step's action as a known mistake, once.
    pub fn register_stuck(&mut self)
        requires
            old(self).wf(),
        ensures
            final(self).wf(),
            final(self)@.history == old(self)@.history,
            final(self)@.mistakes == registered(old(self)@.history, old(self)@.mistakes),
    {
        let ghost h = self.history@;
        let ghost m = self.recent@.map_values(|e: MemEntry| e@);
        assert(m.len() == self.recent@.len());
        let n = self.recent.len();
        if n == 0 {
            return;
        }
        assert(m[n - 1] == self.recent@[n - 1]@);
        assert(m[n - 1] == h.last());
        let entry = self.recent[n - 1].action.clone();
        let ghost ms = self@.mistakes;
        let mut found = false;
        let mut i: usize = 0;
        while i < self.mistakes.len()
            invariant
                i <= self.mistakes@.len(),
                ms == self.mistakes@.map_values(|t: String| t@),
                found == (exists|k: int| 0 <= k < i && ms[k] == entry@),
            decreases self.mistakes@.len() - i,
        {
            assert(ms[i as int] == self.mistakes@[i as int]@);
            if str_eq(self.mistakes[i].as_str(), entry.as_str()) {
                found = true;
            }
            i = i + 1;
        }
        if !found {
            assert(!ms.contains(entry@));
            let ghost before = self.mistakes@;
            self.mistakes.push(entry);
            assert(self@.mistakes =~= ms.push(entry@));
        } else {
            assert(ms.contains(entry@));
        }
    }

    /// How many steps were recorded.
    pub fn total_steps(&self) -> (n: usize)
        requires
            self.wf(),
        ensures
            n == self@.history.len(),
    {
        self.total
    }

    /// The prompt-ready history block: compressed past, recent detail and the
    /// list of mistakes.
    pub fn format_for_prompt(&self) -> (s: String)
        requires
            self.wf(),
        ensures
            s@ == prompt_text(self@),
    {
        let ghost h = self.history@;
        if self.total == 0 {
            let mut s = String::new();
            push_str(&mut s, "None yet.");
            assert(s@ =~= "None yet."@);
            return s;
        }
        proof {
            lemma_summary_empty(older_steps(h));
        }
        let mut out = String::new();
        if !self.summary.as_str().is_empty() {
            push_str(&mut out, "Earlier steps (compressed):\n");
            push_str(&mut out, self.summary.as_str());
            push_str(&mut out, "\n");
        }
        let ghost earlier = out@;
        if !out.as_str().is_empty() {
            push_str(&mut out, "\n");
        }
        push_str(&mut out, "Recent steps (full detail):\n");
        let ghost head = out@;
        let ghost m = self.recent@.map_values(|e: MemEntry| e@);
        let mut i: usize = 0;
        while i < self.recent.len()
            invariant
                i <= self.recent@.len(),
                m == self.recent@.map_values(|e: MemEntry| e@),
                out@ == head + recent_text(m.take(i as int)),
            decreases self.recent@.len() - i,
        {
            let line = recent_line_string(&self.recent[i]);
            push_str(&mut out, line.as_str());
            i = i + 1;
            assert(m.take(i as int).drop_last() =~= m.take(i - 1));
        }
        assert(m.take(m.len() as int) =~= m);
        let ghost recent = out@;
        if self.mistakes.len() > 0 {
            push_str(&mut out, "\n⚠ DO NOT REPEAT — tried with no progress:\n");
            let ghost head2 = out@;
            let ghost ms = self@.mistakes;
            let mut k: usize = 0;
            while k < self.mistakes.len()
                invariant
                    k <= self.mistakes@.len(),
                    ms == self.mistakes@.map_values(|t: String| t@),
                    out@ == head2 + mistakes_text(ms.take(k as int)),
                decreases self.mistakes@.len() - k,
            {
                push_str(&mut out, "  • ");
                push_str(&mut out, self.mistakes[k].as_str());
                push_str(&mut out, "\n");
                k = k + 1;
                assert(ms.take(k as int).drop_last() =~= ms.take(k - 1));
            }
            assert(ms.take(ms.len() as int) =~= ms);
        }
        assert(out@ =~= prompt_text(self@));
        out
    }
}

/// Every recorded step is shown exactly once: the aged-out steps (in the
/// summary) followed by the window, which holds the last `MEM_WINDOW` steps
/// or all of them when there are fewer.
pub proof fn law_window_partitions_history(h: Seq<StepRecord>)
    ensures
        older_steps(h) + recent_steps(h) == h,
        recent_steps(h).len() == if h.len() > MEM_WINDOW {
            MEM_WINDOW as nat
        } else {
            h.len()
        },
        recent_steps(h).len() <= MEM_WINDOW,
{
    assert(older_steps(h) + recent_steps(h) =~= h);
}

/// Three consecutive steps with the same action make the memory stuck on
/// that action, whatever came before.
pub proof fn law_three_repeats_are_stuck(
    h: Seq<StepRecord>,
    a: Seq<char>,
    s1: StepRecord,
    s2: StepRecord,
    s3: StepRecord,
)
    requires
        s1.1 == a,
        s2.1 == a,
        s3.1 == a,
    ensures
        stuck(h.push(s1).push(s2).push(s3)) == Some(a),
{
}

/// A step with a different action ends a repetition.
pub proof fn law_different_last_action_not_stuck(h: Seq<StepRecord>, s: StepRecord)
    requires
        h.len() >= 1,
        s.1 != h.last().1,
    ensures
        stuck(h.push(s)) is None,
{
}

/// Registering the same mistake twice changes nothing the second time.
pub proof fn law_register_idempotent(h: Seq<StepRecord>, ms: Seq<Seq<char>>)
    ensures
        registered(h, registered(h, ms)) == registered(h, ms),
{
    if h.len() > 0 && !ms.contains(h.last().1) {
        assert(ms.push(h.last().1)[ms.len() as int] == h.last().1);
    }
}

/// Registering keeps the mistakes free of repetitions.
pub proof fn law_registered_distinct(h: Seq<StepRecord>, ms: Seq<Seq<char>>)
    requires
        ms.no_duplicates(),
    ensures
        registered(h, ms).no_duplicates(),
{
    if h.len() > 0 && !ms.contains(h.last().1) {
        let r = ms.push(h.last().1);
        assert forall|i: int, j: int| 0 <= i < r.len() && 0 <= j < r.len() && i != j implies r[i]
            != r[j] by {
            if i == ms.len() as int {
                assert(r[j] == ms[j]);
            } else if j == ms.len() as int {
                assert(r[i] == ms[i]);
            }
        }
    }
}

impl Memory {
    /// A well-formed memory lists each mistake once.
    pub proof fn lemma_mistakes_distinct(&self)
        requires
            self.wf(),
        ensures
            self@.mistakes.no_duplicates(),
    {
    }
}

/// A summary is empty exactly when no step aged out.
proof fn lemma_summary_empty(hs: Seq<StepRecord>)
    ensures
        (summary_text(hs).len() == 0) == (hs.len() == 0),
    decreases hs.len(),
{
    if hs.len() > 1 {
        lemma_summary_empty(hs.drop_last());
    }
}

/// Computes `summary_line`.
fn summary_line_string(e: &MemEntry) -> (s: String)
    ensures
        s@ == summary_line(e@),
{
    let mut s = String::new();
    push_str(&mut s, "  Step ");
    let d = decimal_chars(e.step_num as u64);
    push_chars(&mut s, d.as_slice());
    push_str(&mut s, ": ");
    push_str(&mut s, e.action.as_str());
    push_str(&mut s, " — ");
    push_str(&mut s, e.desc.as_str());
    assert(s@ =~= summary_line(e@));
    s
}

/// Computes `recent_line`.
fn recent_line_string(e: &MemEntry) -> (s: String)
    ensures
        s@ == recent_line(e@),
{
    let mut s = String::new();
    push_str(&mut s, "  ");
    let d = decimal_chars(e.step_num as u64);
    push_chars(&mut s, d.as_slice());
    push_str(&mut s, ". ");
    push_str(&mut s, e.action.as_str());
    push_str(&mut s, ": ");
    push_str(&mut s, e.desc.as_str());
    push_str(&mut s, "\n");
    assert(s@ =~= recent_line(e@));
    s
}

} // verus!
